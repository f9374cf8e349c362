use vstd::prelude::*;

use std::string::FromUtf8Error;
use vstd::utf8::{decode_utf8, valid_utf8};

use crate::net::frames::error::{InvalidMessage, ParseError};

verus! {

/// A message tagged with the id of the request it belongs to.
#[derive(Debug)]
pub struct WithRequestId<T> {
    pub request_id: u32,
    pub data: T,
}

impl<T> WithRequestId<T> {
    pub fn new(request_id: u32, data: T) -> (res: WithRequestId<T>)
        ensures
            res.request_id == request_id,
            res.data == data,
    {
        WithRequestId { request_id, data }
    }

    /// The message, when it belongs to the request `request_id`.
    pub fn try_get(self, request_id: u32) -> (res: Option<T>)
        ensures
            res == (if self.request_id == request_id {
                Some(self.data)
            } else {
                None
            }),
    {
        if self.request_id == request_id {
            Some(self.data)
        } else {
            None
        }
    }
}

/// A line ends at `j`: the bytes at `j` and `j + 1` are `\r\n`.
pub open spec fn crlf_at(s: Seq<u8>, j: int) -> bool {
    0 <= j && j + 1 < s.len() && s[j] == 13u8 && s[j + 1] == 10u8
}

/// No line ends at an index in `[from, to)`.
pub open spec fn no_crlf_in(s: Seq<u8>, from: int, to: int) -> bool {
    forall|j: int| from <= j < to ==> !#[trigger] crlf_at(s, j)
}

/// The first line that starts at `start` ends at `end`.
pub open spec fn first_line_ends_at(s: Seq<u8>, start: int, end: int) -> bool {
    start <= end && crlf_at(s, end) && no_crlf_in(s, start, end)
}

/// Some line that starts at `start` is complete in `s`.
pub open spec fn has_line(s: Seq<u8>, start: int) -> bool {
    exists|j: int| start <= j && #[trigger] crlf_at(s, j)
}

/// Reads the line that starts at `*position` in `src`. A line ends at the
/// first `\r\n` at or after the position; the line is returned without it,
/// and the position moves just past it. When no line is complete, the
/// result is `Incomplete` and the position stays.
pub fn get_line<'a>(src: &'a [u8], position: &mut usize) -> (res: Result<&'a [u8], ParseError>)
    ensures
        res is Ok <==> has_line(src@, *old(position) as int),
        res matches Ok(line) ==> {
            &&& first_line_ends_at(src@, *old(position) as int, *old(position) + line@.len())
            &&& line@ == src@.subrange(*old(position) as int, *old(position) + line@.len())
            &&& *final(position) == *old(position) + line@.len() + 2
        },
        res is Err ==> res == Err::<&[u8], ParseError>(ParseError::Incomplete) && *final(position)
            == *old(position),
{
    let len = src.len();
    if len <= 1 {
        return Err(ParseError::Incomplete);
    }
    let start = *position;
    let end = len - 1;
    let mut i = start;
    while i < end
        invariant
            len == src@.len(),
            end == len - 1,
            start == *position,
            start == *old(position),
            start <= i,
            i <= end || i == start,
            no_crlf_in(src@, start as int, i as int),
        decreases end - i,
    {
        if src[i] == 13u8 && src[i + 1] == 10u8 {
            *position = i + 2;
            assert(crlf_at(src@, i as int));
            let line = vstd::slice::slice_subrange(src, start, i);
            return Ok(line);
        }
        i = i + 1;
    }
    proof {
        assert forall|j: int| start <= j implies !crlf_at(src@, j) by {
            if start <= j < i {
            }
        }
    }
    Err(ParseError::Incomplete)
}

/// The std error of `String::from_utf8`, carried through opaque.
#[verifier::external_type_specification]
#[verifier::external_body]
pub struct ExFromUtf8Error(FromUtf8Error);

/// Wraps `String::from_utf8`, which succeeds exactly on valid UTF-8 and then
/// holds the decoded characters.
#[verifier::external_body]
fn string_from_utf8(bytes: Vec<u8>) -> (res: Result<String, FromUtf8Error>)
    ensures
        res is Ok <==> valid_utf8(bytes@),
        res matches Ok(s) ==> s@ == decode_utf8(bytes@),
{
    String::from_utf8(bytes)
}

/// Wraps `ToString::to_string` on a `FromUtf8Error`: the std description of
/// the error. Nothing is stated of its text.
#[verifier::external_body]
fn utf8_error_text(err: &FromUtf8Error) -> (res: String) {
    err.to_string()
}

/// Reads the line that starts at `*position` and decodes it as UTF-8 text:
/// the frame's text, before the text is turned into a message. Once a line is
/// complete the position moves past it, whether or not its bytes are UTF-8.
pub fn frame_text(src: &[u8], position: &mut usize) -> (res: Result<String, ParseError>)
    ensures
        !has_line(src@, *old(position) as int) ==> {
            &&& res == Err::<String, ParseError>(ParseError::Incomplete)
            &&& *final(position) == *old(position)
        },
        has_line(src@, *old(position) as int) ==> exists|end: int|
            {
                let line = src@.subrange(*old(position) as int, end);
                &&& #[trigger] first_line_ends_at(src@, *old(position) as int, end)
                &&& valid_utf8(line) ==> {
                    &&& res matches Ok(text)
                    &&& text@ == decode_utf8(line)
                    &&& *final(position) == end + 2
                }
                &&& !valid_utf8(line) ==> {
                    &&& res matches Err(e)
                    &&& e is InvalidMessage
                    &&& *final(position) == end + 2
                }
            },
{
    let line = get_line(src, position)?;
    let bytes = vstd::slice::slice_to_vec(line);
    match string_from_utf8(bytes) {
        Ok(text) => Ok(text),
        Err(err) => Err(
            ParseError::InvalidMessage(InvalidMessage { err_str: utf8_error_text(&err) }),
        ),
    }
}

/// The bytes of a frame that carries `text`: the text's UTF-8 bytes and a
/// closing `\r\n`.
pub fn encode_frame(text: &str) -> (res: Vec<u8>)
    ensures
        res@ == vstd::utf8::encode_utf8(text@) + seq![13u8, 10u8],
{
    let bytes = text.as_bytes();
    let mut out = vstd::slice::slice_to_vec(bytes);
    out.push(13u8);
    out.push(10u8);
    assert(out@ =~= vstd::utf8::encode_utf8(text@) + seq![13u8, 10u8]);
    out
}

/// A frame's first line is exactly the payload it was made from, when the
/// payload holds no `\r\n` of its own, whatever bytes follow the frame:
/// reading back a written frame gives what was written and stops right after
/// its `\r\n`.
pub proof fn lemma_frame_line_roundtrip(payload: Seq<u8>, rest: Seq<u8>, end: int)
    requires
        no_crlf_in(payload, 0, payload.len() as int),
    ensures
        has_line(payload + seq![13u8, 10u8] + rest, 0),
        first_line_ends_at(payload + seq![13u8, 10u8] + rest, 0, payload.len() as int),
        first_line_ends_at(payload + seq![13u8, 10u8] + rest, 0, end) ==> end == payload.len(),
        (payload + seq![13u8, 10u8] + rest).subrange(0, payload.len() as int) == payload,
{
    let f = payload + seq![13u8, 10u8] + rest;
    let n = payload.len() as int;
    assert(f[n] == 13u8 && f[n + 1] == 10u8);
    assert(crlf_at(f, n));
    assert forall|j: int| 0 <= j < n implies !#[trigger] crlf_at(f, j) by {
        if crlf_at(f, j) {
            if j + 1 < n {
                assert(f[j] == payload[j] && f[j + 1] == payload[j + 1]);
                assert(crlf_at(payload, j));
            } else {
                assert(f[j + 1] == 13u8);
            }
        }
    }
    if first_line_ends_at(f, 0, end) {
        if end < n {
            assert(!crlf_at(f, end));
        }
        if end > n {
            assert(!crlf_at(f, n));
        }
    }
    assert(f.subrange(0, n) =~= payload);
}

/// Reading the text of a written frame gives back the written text, when the
/// text holds no `\r\n` of its own, whatever bytes follow the frame; the
/// line read ends where the frame's text ends.
pub proof fn lemma_frame_text_roundtrip(text: Seq<char>, rest: Seq<u8>, end: int)
    requires
        no_crlf_in(vstd::utf8::encode_utf8(text), 0, vstd::utf8::encode_utf8(text).len() as int),
    ensures
        has_line(vstd::utf8::encode_utf8(text) + seq![13u8, 10u8] + rest, 0),
        first_line_ends_at(vstd::utf8::encode_utf8(text) + seq![13u8, 10u8] + rest, 0, end) ==> {
            &&& end == vstd::utf8::encode_utf8(text).len()
            &&& valid_utf8((vstd::utf8::encode_utf8(text) + seq![13u8, 10u8] + rest).subrange(0, end))
            &&& decode_utf8((vstd::utf8::encode_utf8(text) + seq![13u8, 10u8] + rest).subrange(0, end))
                == text
        },
{
    let bytes = vstd::utf8::encode_utf8(text);
    lemma_frame_line_roundtrip(bytes, rest, end);
    vstd::utf8::encode_utf8_valid_utf8(text);
    vstd::utf8::encode_utf8_decode_utf8(text);
}

} // verus!
