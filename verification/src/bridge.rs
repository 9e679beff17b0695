//! Decision logic of the host query protocol.
//!
//! The protocol that asks the host for the implementations of an interface
//! is a strictly ordered, synchronous three-step sequence: a request carrying
//! the encoded interface identifier, to which the host answers whether a
//! result is pending; a length query; and a buffer fetch into a destination
//! of exactly that length. The calls themselves cross the guest/host
//! boundary and live outside this crate; what stands here is everything the
//! guest decides once the host has answered: the short-circuit to an empty
//! sequence when no result was reported, and the decode of the fetched
//! buffer under a fresh diagnostic context.

use vstd::prelude::*;

use crate::codec::{decode_string_array, decoded_string_array, DecodeError};
use crate::context::{DiagnosticContext, TraceFrameModel};

verus! {

/// The one diagnostic frame the bridge pushes before decoding a fetched
/// buffer: the originating host call, the expected shape, and a note on
/// which step succeeded in producing the buffer.
pub open spec fn implementations_result_frame() -> TraceFrameModel {
    TraceFrameModel {
        name: "__w3_getImplementations_result"@,
        expected: "sequence of string"@,
        note: "__w3_getImplementations successful"@,
    }
}

/// Interprets one completed host interaction of the get-implementations
/// protocol. `has_result` is the host's answer to the request step; `buffer`
/// is the payload fetched by the length and fetch steps, and is only read
/// when `has_result` holds.
///
/// When the host reported no result, the call short-circuits to an empty
/// sequence — never a partial one — without touching `buffer`. When it did,
/// the buffer is decoded as an array of strings; a malformed buffer is not
/// absorbed into an empty result but surfaces as a [`DecodeError`] carrying
/// the diagnostic frame of this interaction.
pub fn get_implementations_result(has_result: bool, buffer: &[u8]) -> (r: Result<
    Vec<String>,
    DecodeError,
>)
    ensures
        !has_result ==> r is Ok && r->Ok_0@.len() == 0,
        has_result ==> ((r is Ok) <==> decoded_string_array(buffer@) is Some),
        has_result && r is Ok ==> r->Ok_0.deep_view() == decoded_string_array(buffer@).unwrap(),
        r is Err ==> r->Err_0@.trace == seq![implementations_result_frame()],
{
    if !has_result {
        return Ok(Vec::new());
    }
    let mut context = DiagnosticContext::new();
    context.push(
        "__w3_getImplementations_result",
        "sequence of string",
        "__w3_getImplementations successful",
    );
    proof {
        assert(context@ =~= seq![implementations_result_frame()]);
    }
    decode_string_array(buffer, &context)
}

} // verus!
