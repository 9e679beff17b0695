//! Binary decoder for the host's result payloads.
//!
//! The wire format in scope is a self-describing binary array container
//! whose elements are self-describing binary strings (UTF-8), in the
//! MessagePack framing: an array header (fixarray `0x90..=0x9f`, `array 16`
//! `0xdc`, or `array 32` `0xdd`) followed by exactly that many string
//! elements (fixstr `0xa0..=0xbf`, `str 8` `0xd9`, `str 16` `0xda`, or
//! `str 32` `0xdb`, each followed by its UTF-8 bytes). Lengths above one
//! byte are big-endian. No element may be read past the end of the buffer;
//! exceeding it is a decode failure.

use vstd::prelude::*;
use vstd::slice::{slice_subrange, slice_to_vec};
use vstd::utf8::{decode_utf8, valid_utf8};

use crate::context::{DiagnosticContext, TraceFrame};

verus! {

/// The big-endian value of the two bytes of `buf` starting at `i`.
pub open spec fn be16_at(buf: Seq<u8>, i: int) -> nat {
    (buf[i] * 0x100 + buf[i + 1]) as nat
}

/// The big-endian value of the four bytes of `buf` starting at `i`.
pub open spec fn be32_at(buf: Seq<u8>, i: int) -> nat {
    (buf[i] * 0x1000000 + buf[i + 1] * 0x10000 + buf[i + 2] * 0x100 + buf[i + 3]) as nat
}

/// Reads the array header of `buf` at `pos`: the element count and the
/// position right after the header, or `None` when the bytes at `pos` are
/// not a complete array header.
pub open spec fn parse_array_header(buf: Seq<u8>, pos: int) -> Option<(nat, int)> {
    if !(0 <= pos < buf.len()) {
        None
    } else {
        let tag = buf[pos];
        if 0x90 <= tag && tag <= 0x9f {
            Some(((tag - 0x90) as nat, pos + 1))
        } else if tag == 0xdc {
            if pos + 3 <= buf.len() {
                Some((be16_at(buf, pos + 1), pos + 3))
            } else {
                None
            }
        } else if tag == 0xdd {
            if pos + 5 <= buf.len() {
                Some((be32_at(buf, pos + 1), pos + 5))
            } else {
                None
            }
        } else {
            None
        }
    }
}

/// Reads the string header of `buf` at `pos`: the byte length of the string
/// and the position of its first data byte, or `None` when the bytes at
/// `pos` are not a complete string header.
pub open spec fn parse_string_header(buf: Seq<u8>, pos: int) -> Option<(nat, int)> {
    if !(0 <= pos < buf.len()) {
        None
    } else {
        let tag = buf[pos];
        if 0xa0 <= tag && tag <= 0xbf {
            Some(((tag - 0xa0) as nat, pos + 1))
        } else if tag == 0xd9 {
            if pos + 2 <= buf.len() {
                Some((buf[pos + 1] as nat, pos + 2))
            } else {
                None
            }
        } else if tag == 0xda {
            if pos + 3 <= buf.len() {
                Some((be16_at(buf, pos + 1), pos + 3))
            } else {
                None
            }
        } else if tag == 0xdb {
            if pos + 5 <= buf.len() {
                Some((be32_at(buf, pos + 1), pos + 5))
            } else {
                None
            }
        } else {
            None
        }
    }
}

/// Reads one string element of `buf` at `pos`: its raw bytes and the
/// position right after it, or `None` when the header is malformed or the
/// string data would run past the end of `buf`.
pub open spec fn parse_string(buf: Seq<u8>, pos: int) -> Option<(Seq<u8>, int)> {
    match parse_string_header(buf, pos) {
        None => None,
        Some((len, start)) => if start + len <= buf.len() {
            Some((buf.subrange(start, start + len as int), start + len as int))
        } else {
            None
        },
    }
}

/// Reads `count` consecutive string elements of `buf` starting at `pos`:
/// their raw bytes in order and the position right after the last one, or
/// `None` when any of them cannot be read.
pub open spec fn parse_strings(buf: Seq<u8>, pos: int, count: nat) -> Option<(Seq<Seq<u8>>, int)>
    decreases count,
{
    if count == 0 {
        Some((Seq::empty(), pos))
    } else {
        match parse_string(buf, pos) {
            None => None,
            Some((s, next)) => match parse_strings(buf, next, (count - 1) as nat) {
                None => None,
                Some((rest, end)) => Some((seq![s] + rest, end)),
            },
        }
    }
}

/// Reads `buf` as one array of strings: the raw bytes of each element in
/// order, or `None` when `buf` does not conform to the expected shape.
/// Bytes after the array, if any, are ignored.
pub open spec fn parse_string_array(buf: Seq<u8>) -> Option<Seq<Seq<u8>>> {
    match parse_array_header(buf, 0) {
        None => None,
        Some((count, pos)) => match parse_strings(buf, pos, count) {
            None => None,
            Some((items, _)) => Some(items),
        },
    }
}

/// The decoded content of `buf`: the character strings of the array
/// elements, in order. `Some` exactly when `buf` is a well-formed array of
/// strings whose elements are all valid UTF-8.
pub open spec fn decoded_string_array(buf: Seq<u8>) -> Option<Seq<Seq<char>>> {
    match parse_string_array(buf) {
        None => None,
        Some(items) => if forall|i: int| 0 <= i < items.len() ==> valid_utf8(#[trigger] items[i]) {
            Some(items.map_values(|b: Seq<u8>| decode_utf8(b)))
        } else {
            None
        },
    }
}

/// A decode failure: what went wrong, and the full diagnostic trace that was
/// in play when it did, oldest frame first.
#[derive(Debug)]
pub struct DecodeError {
    pub message: String,
    pub trace: Vec<TraceFrame>,
}

/// The mathematical content of a [`DecodeError`].
pub struct DecodeErrorModel {
    pub message: Seq<char>,
    pub trace: Seq<crate::context::TraceFrameModel>,
}

impl View for DecodeError {
    type V = DecodeErrorModel;

    open spec fn view(&self) -> DecodeErrorModel {
        DecodeErrorModel {
            message: self.message@,
            trace: self.trace@.map_values(|f: TraceFrame| f@),
        }
    }
}

/// Builds the failure value for one decode attempt, carrying the full frame
/// stack of `context`.
fn decode_failure(message: &str, context: &DiagnosticContext) -> (e: DecodeError)
    ensures
        e@.trace == context@,
        e@.message == message@,
{
    DecodeError { message: String::from_str(message), trace: context.frames() }
}

/// Reads the array header of `buffer` at `pos`, as [`parse_array_header`]
/// describes it.
fn read_array_header(buffer: &[u8], pos: usize) -> (r: Option<(u32, usize)>)
    ensures
        match r {
            Some(pair) => parse_array_header(buffer@, pos as int) == Some(
                (pair.0 as nat, pair.1 as int),
            ),
            None => parse_array_header(buffer@, pos as int) is None,
        },
{
    if pos >= buffer.len() {
        return None;
    }
    let tag = buffer[pos];
    if 0x90 <= tag && tag <= 0x9f {
        Some(((tag - 0x90) as u32, pos + 1))
    } else if tag == 0xdc {
        if buffer.len() - pos >= 3 {
            let count = (buffer[pos + 1] as u32) * 0x100 + (buffer[pos + 2] as u32);
            Some((count, pos + 3))
        } else {
            None
        }
    } else if tag == 0xdd {
        if buffer.len() - pos >= 5 {
            let count = (buffer[pos + 1] as u32) * 0x1000000 + (buffer[pos + 2] as u32) * 0x10000
                + (buffer[pos + 3] as u32) * 0x100 + (buffer[pos + 4] as u32);
            Some((count, pos + 5))
        } else {
            None
        }
    } else {
        None
    }
}

/// Reads the string header of `buffer` at `pos`, as [`parse_string_header`]
/// describes it.
fn read_string_header(buffer: &[u8], pos: usize) -> (r: Option<(u32, usize)>)
    ensures
        match r {
            Some(pair) => parse_string_header(buffer@, pos as int) == Some(
                (pair.0 as nat, pair.1 as int),
            ),
            None => parse_string_header(buffer@, pos as int) is None,
        },
{
    if pos >= buffer.len() {
        return None;
    }
    let tag = buffer[pos];
    if 0xa0 <= tag && tag <= 0xbf {
        Some(((tag - 0xa0) as u32, pos + 1))
    } else if tag == 0xd9 {
        if buffer.len() - pos >= 2 {
            Some((buffer[pos + 1] as u32, pos + 2))
        } else {
            None
        }
    } else if tag == 0xda {
        if buffer.len() - pos >= 3 {
            let len = (buffer[pos + 1] as u32) * 0x100 + (buffer[pos + 2] as u32);
            Some((len, pos + 3))
        } else {
            None
        }
    } else if tag == 0xdb {
        if buffer.len() - pos >= 5 {
            let len = (buffer[pos + 1] as u32) * 0x1000000 + (buffer[pos + 2] as u32) * 0x10000
                + (buffer[pos + 3] as u32) * 0x100 + (buffer[pos + 4] as u32);
            Some((len, pos + 5))
        } else {
            None
        }
    } else {
        None
    }
}

/// Relies on `String::from_utf8`: it succeeds exactly on valid UTF-8 input
/// and returns the string that the bytes encode, which vstd's `decode_utf8`
/// states mathematically.
#[verifier::external_body]
fn bytes_to_string(bytes: Vec<u8>) -> (r: Option<String>)
    ensures
        r is Some <==> valid_utf8(bytes@),
        r is Some ==> r.unwrap()@ == decode_utf8(bytes@),
{
    match String::from_utf8(bytes) {
        Ok(s) => Some(s),
        Err(_) => None,
    }
}

/// Reads one string element of `buffer` at `pos`, as [`parse_string`]
/// describes it, returning its raw bytes and the position right after it.
fn read_string_at(buffer: &[u8], pos: usize) -> (r: Option<(Vec<u8>, usize)>)
    ensures
        match r {
            Some(pair) => parse_string(buffer@, pos as int) == Some((pair.0@, pair.1 as int)),
            None => parse_string(buffer@, pos as int) is None,
        },
{
    match read_string_header(buffer, pos) {
        None => None,
        Some((len, start)) => {
            let len = len as usize;
            if buffer.len() - start >= len {
                let bytes = slice_to_vec(slice_subrange(buffer, start, start + len));
                Some((bytes, start + len))
            } else {
                None
            }
        },
    }
}

/// Decodes `buffer` as an ordered array of UTF-8 strings, exactly as
/// [`decoded_string_array`] describes it. On failure the returned error
/// carries the full frame stack of `context`, oldest first; on success the
/// context is left to the caller to discard.
pub fn decode_string_array(buffer: &[u8], context: &DiagnosticContext) -> (r: Result<
    Vec<String>,
    DecodeError,
>)
    ensures
        r is Ok <==> decoded_string_array(buffer@) is Some,
        r is Ok ==> r->Ok_0.deep_view() == decoded_string_array(buffer@).unwrap(),
        r is Err ==> r->Err_0@.trace == context@,
{
    let header = read_array_header(buffer, 0);
    match header {
        None => Err(decode_failure("expected an array header", context)),
        Some((count, start)) => {
            let mut items: Vec<String> = Vec::new();
            let ghost mut raws: Seq<Seq<u8>> = Seq::empty();
            let mut pos: usize = start;
            let mut i: u32 = 0;
            proof {
                let whole = parse_strings(buffer@, start as int, count as nat);
                if whole is Some {
                    assert(Seq::<Seq<u8>>::empty() + whole.unwrap().0 =~= whole.unwrap().0);
                }
            }
            while i < count
                invariant
                    parse_array_header(buffer@, 0) == Some((count as nat, start as int)),
                    i <= count,
                    raws.len() == i as nat,
                    items@.len() == i as nat,
                    forall|j: int| 0 <= j < i ==> valid_utf8(#[trigger] raws[j]),
                    forall|j: int| 0 <= j < i ==> (#[trigger] items@[j])@ == decode_utf8(raws[j]),
                    parse_strings(buffer@, start as int, count as nat) == (match parse_strings(
                        buffer@,
                        pos as int,
                        (count - i) as nat,
                    ) {
                        None => None::<(Seq<Seq<u8>>, int)>,
                        Some((rest, end)) => Some((raws + rest, end)),
                    }),
                decreases count - i,
            {
                match read_string_at(buffer, pos) {
                    None => {
                        proof {
                            assert(parse_strings(buffer@, pos as int, (count - i) as nat) is None);
                            assert(parse_string_array(buffer@) is None);
                        }
                        return Err(
                            decode_failure("truncated or malformed string element", context),
                        );
                    },
                    Some((bytes, next)) => {
                        let ghost bseq = bytes@;
                        match bytes_to_string(bytes) {
                            None => {
                                proof {
                                    let rem = parse_strings(
                                        buffer@,
                                        next as int,
                                        (count - i - 1) as nat,
                                    );
                                    if rem is Some {
                                        let rest = rem.unwrap().0;
                                        let end = rem.unwrap().1;
                                        assert(parse_strings(
                                            buffer@,
                                            pos as int,
                                            (count - i) as nat,
                                        ) == Some((seq![bseq] + rest, end)));
                                        let items_all = raws + (seq![bseq] + rest);
                                        assert(parse_string_array(buffer@) == Some(items_all));
                                        assert(items_all[i as int] == bseq);
                                        assert(!valid_utf8(items_all[i as int]));
                                        assert(decoded_string_array(buffer@) is None);
                                    } else {
                                        assert(parse_strings(
                                            buffer@,
                                            pos as int,
                                            (count - i) as nat,
                                        ) is None);
                                        assert(parse_string_array(buffer@) is None);
                                    }
                                }
                                return Err(
                                    decode_failure("string element is not valid UTF-8", context),
                                );
                            },
                            Some(s) => {
                                proof {
                                    let rem = parse_strings(
                                        buffer@,
                                        next as int,
                                        (count - i - 1) as nat,
                                    );
                                    if rem is Some {
                                        let rest = rem.unwrap().0;
                                        assert(parse_strings(
                                            buffer@,
                                            pos as int,
                                            (count - i) as nat,
                                        ) == Some((seq![bseq] + rest, rem.unwrap().1)));
                                        assert(raws + (seq![bseq] + rest) =~= raws.push(bseq)
                                            + rest);
                                    }
                                    raws = raws.push(bseq);
                                }
                                items.push(s);
                                pos = next;
                                i = i + 1;
                            },
                        }
                    },
                }
            }
            proof {
                assert(parse_strings(buffer@, pos as int, 0) == Some(
                    (Seq::<Seq<u8>>::empty(), pos as int),
                ));
                assert(raws + Seq::<Seq<u8>>::empty() =~= raws);
                assert(parse_string_array(buffer@) == Some(raws));
                assert(decoded_string_array(buffer@) == Some(
                    raws.map_values(|b: Seq<u8>| decode_utf8(b)),
                ));
                assert(items.deep_view() =~= raws.map_values(|b: Seq<u8>| decode_utf8(b)));
            }
            Ok(items)
        },
    }
}

} // verus!
