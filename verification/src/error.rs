//! Why a message gave no measurement.

use vstd::prelude::*;

verus! {

/// The reasons for which one message is dropped. None of them concerns any
/// other message.
#[derive(Debug, Clone, Copy, PartialEq, Eq, Structural)]
pub enum DecodeError {
    /// The message body is not UTF-8 text.
    Encoding,
    /// The text is not JSON, or the envelope lacks a member or has one of
    /// the wrong type.
    Structure,
    /// The advertisement is not manufacturer-specific data, or the
    /// manufacturer is not Ruuvi.
    FramingRejected,
    /// The format byte names a layout other than 3 and 5.
    UnsupportedVersion,
    /// The advertisement ends before a byte that had to be read.
    TruncatedPayload,
}

impl DecodeError {
    /// The label under which messages dropped for this reason are counted:
    /// `utf8` and `json` for the two ways in which an envelope is refused,
    /// none for an advertisement that is refused.
    pub open spec fn spec_label(self) -> Option<Seq<char>> {
        match self {
            DecodeError::Encoding => Some("utf8"@),
            DecodeError::Structure => Some("json"@),
            _ => None,
        }
    }

    /// The label under which messages dropped for this reason are counted,
    /// if they are counted.
    pub fn label(&self) -> (r: Option<&'static str>)
        ensures
            r is Some == self.spec_label() is Some,
            r matches Some(text) ==> text@ == self.spec_label()->Some_0,
    {
        match self {
            DecodeError::Encoding => Some("utf8"),
            DecodeError::Structure => Some("json"),
            _ => None,
        }
    }
}

} // verus!
