//! The version of the native library.

use vstd::prelude::*;
use vstd::string::*;
use vstd::utf8::*;
use crate::text::{append_decimal, decimal, from_utf8};
use crate::types::Error;

verus! {

broadcast use vstd::array::group_array_axioms;

/// The version that the native library reports of itself.
///
/// The three texts are held as the bytes that the native library points to,
/// without the zero byte that ends them.
#[derive(Debug, PartialEq, Eq)]
pub struct NeoVersion {
    pub major: u16,
    pub minor: u16,
    pub patch: u16,
    pub metadata: Vec<u8>,
    pub build_branch: Vec<u8>,
    pub build_tag: Vec<u8>,
    pub reserved: [i8; 32],
}

/// The three numbers of a version, with a dot between them.
pub open spec fn dotted(major: u16, minor: u16, patch: u16) -> Seq<char> {
    decimal(major as nat) + "."@ + decimal(minor as nat) + "."@ + decimal(patch as nat)
}

/// Reads bytes that are known to be UTF-8, so that the reading cannot fail.
fn read_utf8(bytes: &Vec<u8>) -> (result: Result<String, Error>)
    requires
        valid_utf8(bytes@),
    ensures
        result matches Ok(text) && text@ == decode_utf8(bytes@),
{
    match from_utf8(bytes.as_slice()) {
        Ok(text) => Ok(text),
        Err(fault) => Err(Error::CriticalError(fault)),
    }
}

impl NeoVersion {
    /// Every number is zero and every text is empty.
    pub open spec fn is_zeroed(self) -> bool {
        &&& self.major == 0
        &&& self.minor == 0
        &&& self.patch == 0
        &&& self.metadata@.len() == 0
        &&& self.build_branch@.len() == 0
        &&& self.build_tag@.len() == 0
        &&& self.reserved@ == Seq::new(32, |i: int| 0i8)
    }

    /// Version 0.0.0 with empty texts.
    pub fn new() -> (version: Self)
        ensures
            version.is_zeroed(),
    {
        let reserved = [0i8; 32];
        assert(reserved@ =~= Seq::new(32, |i: int| 0i8));
        NeoVersion {
            major: 0,
            minor: 0,
            patch: 0,
            metadata: Vec::new(),
            build_branch: Vec::new(),
            build_tag: Vec::new(),
            reserved,
        }
    }

    pub fn major(&self) -> (major: u16)
        ensures
            major == self.major,
    {
        self.major
    }

    pub fn minor(&self) -> (minor: u16)
        ensures
            minor == self.minor,
    {
        self.minor
    }

    pub fn patch(&self) -> (patch: u16)
        ensures
            patch == self.patch,
    {
        self.patch
    }

    /// The metadata of the build, which has to be UTF-8.
    pub fn metadata(&self) -> (result: Result<String, Error>)
        requires
            valid_utf8(self.metadata@),
        ensures
            result matches Ok(text) && text@ == decode_utf8(self.metadata@),
    {
        read_utf8(&self.metadata)
    }

    /// The branch that the native library was built from, which has to be
    /// UTF-8.
    pub fn build_branch(&self) -> (result: Result<String, Error>)
        requires
            valid_utf8(self.build_branch@),
        ensures
            result matches Ok(text) && text@ == decode_utf8(self.build_branch@),
    {
        read_utf8(&self.build_branch)
    }

    /// The tag that the native library was built from, which has to be UTF-8.
    pub fn build_tag(&self) -> (result: Result<String, Error>)
        requires
            valid_utf8(self.build_tag@),
        ensures
            result matches Ok(text) && text@ == decode_utf8(self.build_tag@),
    {
        read_utf8(&self.build_tag)
    }

    /// The version as a text: its three numbers with a dot between them.
    pub fn to_text(&self) -> (text: String)
        ensures
            text@ == dotted(self.major, self.minor, self.patch),
    {
        let mut text = String::new();
        append_decimal(&mut text, self.major);
        text.append(".");
        append_decimal(&mut text, self.minor);
        text.append(".");
        append_decimal(&mut text, self.patch);
        text
    }

    /// The version as a debugger shows it.
    pub fn to_repr(&self) -> (text: String)
        ensures
            text@ == "<class NeoVersion "@ + dotted(self.major, self.minor, self.patch) + ">"@,
    {
        let mut text = "<class NeoVersion ".to_owned();
        append_decimal(&mut text, self.major);
        text.append(".");
        append_decimal(&mut text, self.minor);
        text.append(".");
        append_decimal(&mut text, self.patch);
        text.append(">");
        assert(text@ =~= "<class NeoVersion "@ + dotted(self.major, self.minor, self.patch) + ">"@);
        text
    }
}

impl Default for NeoVersion {
    fn default() -> (version: Self)
        ensures
            version.is_zeroed(),
    {
        NeoVersion::new()
    }
}

} // verus!
