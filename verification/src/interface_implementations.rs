//! Interface-to-implementations records and their batch sanitization.

use vstd::prelude::*;

use crate::uri::{canonical_of, Uri};

verus! {

/// The mathematical content of an [`InterfaceImplementations`] record: the
/// interface identifier string and the implementation identifier strings, in
/// order.
pub struct InterfaceImplementationsModel {
    pub interface: Seq<char>,
    pub implementations: Seq<Seq<char>>,
}

/// A record pairing one interface identifier with an ordered sequence of
/// implementation identifiers. The order of the implementations is
/// caller-significant and duplicates are kept: the record is a faithful copy
/// of caller-supplied data, not a deduplicated set.
#[derive(Debug)]
pub struct InterfaceImplementations {
    pub interface: Uri,
    pub implementations: Vec<Uri>,
}

impl View for InterfaceImplementations {
    type V = InterfaceImplementationsModel;

    open spec fn view(&self) -> InterfaceImplementationsModel {
        InterfaceImplementationsModel {
            interface: self.interface@,
            implementations: self.implementations@.map_values(|u: Uri| u@),
        }
    }
}

impl Clone for InterfaceImplementations {
    fn clone(&self) -> (res: Self)
        ensures
            res@ == self@,
    {
        let interface = self.interface.clone();
        let implementations = self.implementations.clone();
        proof {
            assert forall|j: int| 0 <= j < self.implementations@.len() implies #[trigger]
                implementations@[j] == self.implementations@[j] by {
                assert(cloned(self.implementations@[j], implementations@[j]));
            }
            assert(implementations@ =~= self.implementations@);
        }
        InterfaceImplementations { interface, implementations }
    }
}

/// Produces a canonicalized copy of `input`: one output record per input
/// record, in input order, whose interface identifier is re-canonicalized
/// from the input's interface string and whose implementations are a verbatim
/// copy (same elements, same order, no filtering, no deduplication).
///
/// The fallible signature is kept for callers, but the operation never
/// actually fails: the result is always `Ok`.
pub fn sanitize_interface_implementations(
    input: &[InterfaceImplementations],
) -> (r: Result<Vec<InterfaceImplementations>, &'static str>)
    ensures
        r is Ok,
        r->Ok_0@.len() == input@.len(),
        forall|i: int|
            0 <= i < input@.len() ==> {
                &&& (#[trigger] r->Ok_0@[i])@.interface == canonical_of(input@[i]@.interface)
                &&& r->Ok_0@[i]@.implementations == input@[i]@.implementations
            },
{
    let mut output: Vec<InterfaceImplementations> = Vec::new();
    let mut idx: usize = 0;
    while idx < input.len()
        invariant
            idx <= input@.len(),
            output@.len() == idx,
            forall|i: int|
                0 <= i < idx ==> {
                    &&& (#[trigger] output@[i])@.interface == canonical_of(input@[i]@.interface)
                    &&& output@[i]@.implementations == input@[i]@.implementations
                },
        decreases input@.len() - idx,
    {
        let definition = &input[idx];
        let interface_uri = Uri::new(definition.interface.get_uri().as_str());
        let implementations = definition.implementations.clone();
        proof {
            assert forall|j: int| 0 <= j < definition.implementations@.len() implies #[trigger]
                implementations@[j] == definition.implementations@[j] by {
                assert(cloned(definition.implementations@[j], implementations@[j]));
            }
            assert(implementations@ =~= definition.implementations@);
        }
        output.push(
            InterfaceImplementations { interface: interface_uri, implementations },
        );
        idx = idx + 1;
    }
    Ok(output)
}

} // verus!
