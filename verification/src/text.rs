//! Texts on both sides of the boundary.
//!
//! The native library takes and gives texts as bytes that end at a zero byte.
//! This module makes such byte strings from Rust strings and reads Rust
//! strings out of the buffers that the native library wrote to. It also writes
//! numbers in decimal digits.

use vstd::prelude::*;
use vstd::slice::*;
use vstd::string::*;
use vstd::utf8::*;
use crate::types::{Error, ErrorView};

verus! {

/// The text in a buffer: its bytes before the first zero byte, and all of
/// them where none is zero.
pub open spec fn c_text(buffer: Seq<u8>) -> Seq<u8>
    decreases buffer.len(),
{
    if buffer.len() == 0 || buffer[0] == 0 {
        Seq::empty()
    } else {
        seq![buffer[0]] + c_text(buffer.drop_first())
    }
}

/// `end` is where the text in `buffer` ends: no byte before it is zero, and it
/// is the place of a zero byte or the buffer's end.
pub open spec fn is_text_end(buffer: Seq<u8>, end: int) -> bool {
    &&& 0 <= end <= buffer.len()
    &&& forall|i: int| 0 <= i < end ==> buffer[i] != 0
    &&& end < buffer.len() ==> buffer[end] == 0
}

/// The text in a buffer is the buffer up to the place where the text ends.
pub proof fn lemma_c_text_is_prefix(buffer: Seq<u8>, end: int)
    requires
        is_text_end(buffer, end),
    ensures
        c_text(buffer) == buffer.subrange(0, end),
    decreases end,
{
    if end == 0 {
        assert(buffer.subrange(0, 0) =~= Seq::<u8>::empty());
    } else {
        let rest = buffer.drop_first();
        assert forall|i: int| 0 <= i < end - 1 implies rest[i] != 0 by {
            assert(rest[i] == buffer[i + 1]);
        }
        lemma_c_text_is_prefix(rest, end - 1);
        assert(seq![buffer[0]] + rest.subrange(0, end - 1) =~= buffer.subrange(0, end));
    }
}

/// A byte string without a zero byte, ended by one, holds that byte string as
/// its text: what [`c_string`] makes, [`read_text`] reads back.
pub proof fn lemma_c_text_of_terminated(bytes: Seq<u8>)
    requires
        !bytes.contains(0u8),
    ensures
        c_text(bytes.push(0u8)) == bytes,
{
    let buffer = bytes.push(0u8);
    assert forall|i: int| 0 <= i < bytes.len() implies buffer[i] != 0 by {
        assert(bytes.contains(bytes[i]));
    }
    lemma_c_text_is_prefix(buffer, bytes.len() as int);
    assert(buffer.subrange(0, bytes.len() as int) =~= bytes);
}

/// Finds where the text in `buffer` ends.
pub fn text_end(buffer: &[u8]) -> (end: usize)
    ensures
        is_text_end(buffer@, end as int),
{
    let mut end: usize = 0;
    while end < buffer.len() && buffer[end] != 0
        invariant
            end <= buffer.len(),
            forall|i: int| 0 <= i < end ==> buffer@[i] != 0,
        decreases buffer.len() - end,
    {
        end = end + 1;
    }
    end
}

/// What `std::str::from_utf8` reports of a byte string that is not UTF-8, as
/// its error prints it.
pub uninterp spec fn utf8_error_text(bytes: Seq<u8>) -> Seq<char>;

/// `std::str::from_utf8`, with the text copied out and the error printed.
///
/// The standard library documents that the call succeeds exactly on valid
/// UTF-8 and then gives the string that these bytes encode. The error says
/// where the bytes stop being UTF-8; its printed form is left as a name.
#[verifier::external_body]
pub(crate) fn from_utf8(bytes: &[u8]) -> (result: Result<String, String>)
    ensures
        result is Ok <==> valid_utf8(bytes@),
        result matches Ok(text) ==> text@ == decode_utf8(bytes@),
        result matches Err(text) ==> text@ == utf8_error_text(bytes@),
{
    match std::str::from_utf8(bytes) {
        Ok(text) => Ok(text.to_owned()),
        Err(error) => Err(error.to_string()),
    }
}

/// What reading the text in `buffer` gives: the string that the text encodes,
/// or, where the text is not UTF-8, a critical error that says so after the
/// words of `complaint`.
pub open spec fn is_text_read(
    result: Result<String, Error>,
    buffer: Seq<u8>,
    complaint: Seq<char>,
) -> bool {
    let text = c_text(buffer);
    if valid_utf8(text) {
        result matches Ok(string) && string@ == decode_utf8(text)
    } else {
        result matches Err(error) && error@ == ErrorView::CriticalError(
            complaint + utf8_error_text(text),
        )
    }
}

/// Reads the text that the native library wrote to `buffer`.
pub fn read_text(buffer: &[u8], complaint: &str) -> (result: Result<String, Error>)
    ensures
        is_text_read(result, buffer@, complaint@),
{
    let end = text_end(buffer);
    proof {
        lemma_c_text_is_prefix(buffer@, end as int);
    }
    match from_utf8(slice_subrange(buffer, 0, end)) {
        Ok(string) => Ok(string),
        Err(fault) => {
            let mut message = complaint.to_owned();
            message.append(fault.as_str());
            Err(Error::CriticalError(message))
        },
    }
}

/// A buffer of `len` zero bytes.
pub fn zeroed(len: usize) -> (buffer: Vec<u8>)
    ensures
        buffer@ == Seq::new(len as nat, |i: int| 0u8),
{
    let buffer = vec![0u8; len];
    assert(buffer@ =~= Seq::new(len as nat, |i: int| 0u8));
    buffer
}

/// The bytes of `text` ended by a zero byte, as the native library takes a
/// text. There is none where `text` itself holds a zero byte, which would end
/// it early.
pub fn c_string(text: &str) -> (bytes: Option<Vec<u8>>)
    ensures
        bytes is Some <==> !text.spec_bytes().contains(0u8),
        bytes matches Some(b) ==> b@ == text.spec_bytes().push(0u8),
{
    let source = text.as_bytes();
    let mut bytes: Vec<u8> = Vec::new();
    let mut at: usize = 0;
    while at < source.len()
        invariant
            at <= source.len(),
            source@ == text.spec_bytes(),
            bytes@ == source@.subrange(0, at as int),
            forall|i: int| 0 <= i < at ==> source@[i] != 0,
        decreases source.len() - at,
    {
        if source[at] == 0 {
            assert(source@.contains(source@[at as int]));
            return None;
        }
        bytes.push(source[at]);
        at = at + 1;
        assert(bytes@ =~= source@.subrange(0, at as int));
    }
    assert(source@.subrange(0, at as int) =~= source@);
    bytes.push(0);
    Some(bytes)
}

/// The character of one decimal digit.
pub open spec fn digit(d: nat) -> char {
    if d == 0 {
        '0'
    } else if d == 1 {
        '1'
    } else if d == 2 {
        '2'
    } else if d == 3 {
        '3'
    } else if d == 4 {
        '4'
    } else if d == 5 {
        '5'
    } else if d == 6 {
        '6'
    } else if d == 7 {
        '7'
    } else if d == 8 {
        '8'
    } else {
        '9'
    }
}

/// A number in decimal digits, without leading zeros.
pub open spec fn decimal(n: nat) -> Seq<char>
    decreases n,
{
    if n < 10 {
        seq![digit(n)]
    } else {
        decimal(n / 10).push(digit(n % 10))
    }
}

fn digit_str(d: u16) -> (text: &'static str)
    requires
        d < 10,
    ensures
        text@ == seq![digit(d as nat)],
{
    proof {
        reveal_strlit("0");
        reveal_strlit("1");
        reveal_strlit("2");
        reveal_strlit("3");
        reveal_strlit("4");
        reveal_strlit("5");
        reveal_strlit("6");
        reveal_strlit("7");
        reveal_strlit("8");
        reveal_strlit("9");
    }
    let text = if d == 0 {
        "0"
    } else if d == 1 {
        "1"
    } else if d == 2 {
        "2"
    } else if d == 3 {
        "3"
    } else if d == 4 {
        "4"
    } else if d == 5 {
        "5"
    } else if d == 6 {
        "6"
    } else if d == 7 {
        "7"
    } else if d == 8 {
        "8"
    } else {
        "9"
    };
    assert(text@ =~= seq![digit(d as nat)]);
    text
}

/// Writes `n` in decimal digits at the end of `text`.
pub fn append_decimal(text: &mut String, n: u16)
    ensures
        final(text)@ == old(text)@ + decimal(n as nat),
    decreases n,
{
    if n >= 10 {
        append_decimal(text, n / 10);
    }
    text.append(digit_str(n % 10));
    assert(final(text)@ =~= old(text)@ + decimal(n as nat));
}

} // verus!
