//! Typed method-argument records for the plugin-module surface.
//!
//! These are plain data carriers: each struct gathers the arguments of one
//! module method. The invocation runtime that routes a call to a module
//! implementation lives outside this crate; here the records only hold the
//! values, so the types carry no behaviour beyond construction and copying.

use vstd::prelude::*;

verus! {

/// A sample enumeration carried through method arguments.
#[derive(Clone, Copy, Debug, PartialEq, Eq, Structural)]
pub enum CustomEnum {
    Text,
    Bytes,
}

/// A sample object type carried through method arguments.
#[derive(Debug)]
pub struct AnotherType {
    pub prop: Option<String>,
}

/// The environment record handed to environment-aware methods.
#[derive(Debug)]
pub struct Env {
    pub prop: String,
}

/// A sample object type used by [`ArgsIf`].
#[derive(Debug)]
pub struct Else {
    pub prop: String,
}

/// An ordered association list from keys to values; insertion order is kept
/// and keys are caller-managed.
#[derive(Debug)]
pub struct Entries<K, V> {
    pub entries: Vec<(K, V)>,
}

/// Arguments of the `moduleMethod` module method.
#[derive(Debug)]
pub struct ArgsModuleMethod {
    pub str: String,
    pub opt_str: Option<String>,
    pub en: CustomEnum,
    pub opt_enum: Option<CustomEnum>,
    pub enum_array: Vec<CustomEnum>,
    pub opt_enum_array: Option<Vec<Option<CustomEnum>>>,
    pub map: Entries<String, i32>,
    pub map_of_arr: Entries<String, Vec<i32>>,
    pub map_of_map: Entries<String, Entries<String, i32>>,
    pub map_of_obj: Entries<String, AnotherType>,
    pub map_of_arr_of_obj: Entries<String, Vec<AnotherType>>,
}

/// Arguments of the `objectMethod` module method.
#[derive(Debug)]
pub struct ArgsObjectMethod {
    pub object: AnotherType,
    pub opt_object: Option<AnotherType>,
    pub object_array: Vec<AnotherType>,
    pub opt_object_array: Option<Vec<Option<AnotherType>>>,
}

/// Arguments of the `optionalEnvMethod` module method.
#[derive(Debug)]
pub struct ArgsOptionalEnvMethod {
    pub object: AnotherType,
    pub opt_object: Option<AnotherType>,
    pub object_array: Vec<AnotherType>,
    pub opt_object_array: Option<Vec<Option<AnotherType>>>,
}

/// Arguments of the `if` module method.
#[derive(Debug)]
pub struct ArgsIf {
    pub _if: Else,
}

} // verus!
