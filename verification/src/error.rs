//! The ways in which decoding a shell link can fail.

use vstd::prelude::*;

verus! {

/// Why a buffer was rejected. Decoding is all or nothing: the first failure
/// ends it and no partially filled structure is handed out.
#[derive(Clone, Copy, Debug, PartialEq, Eq, Structural)]
pub enum DecodeError {
    /// Fewer bytes are available than a field declares.
    TruncatedInput,
    /// A seek target lies beyond the end of the buffer.
    OffsetOutOfRange,
    /// The leading signature, which is also the declared header size, is wrong.
    InvalidHeader,
    /// The items of the target ID list do not add up to its declared length.
    MalformedIdList,
    /// The sizes or offsets of the link information block contradict each other.
    MalformedLinkInfo,
}

impl DecodeError {
    /// A short sentence for the error, for messages.
    pub fn message(&self) -> (text: &'static str)
        ensures
            text@ == self.spec_message(),
    {
        match self {
            DecodeError::TruncatedInput => "input ends before a declared field does",
            DecodeError::OffsetOutOfRange => "offset lies outside the buffer",
            DecodeError::InvalidHeader => "not a shell link header",
            DecodeError::MalformedIdList => "target ID list does not match its declared size",
            DecodeError::MalformedLinkInfo => "link information block is inconsistent",
        }
    }

    /// The sentence that `message` returns.
    pub open spec fn spec_message(&self) -> Seq<char> {
        match self {
            DecodeError::TruncatedInput => "input ends before a declared field does"@,
            DecodeError::OffsetOutOfRange => "offset lies outside the buffer"@,
            DecodeError::InvalidHeader => "not a shell link header"@,
            DecodeError::MalformedIdList => "target ID list does not match its declared size"@,
            DecodeError::MalformedLinkInfo => "link information block is inconsistent"@,
        }
    }
}

} // verus!
