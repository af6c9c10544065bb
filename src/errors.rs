use vstd::prelude::*;

verus! {

/// An ICAP method name that is not one of `OPTIONS`, `REQMOD`, `RESPMOD`.
#[derive(Debug, Copy, Clone)]
pub struct BadIcapMethodError;

/// An ICAP version that is not `ICAP/1.0`.
#[derive(Debug, Copy, Clone)]
pub struct BadIcapVersionError;

/// Why an `Encapsulated` header value was refused.
#[derive(Debug, Copy, Clone, PartialEq, Eq, Structural)]
pub enum EncapsulatedError {
    NoEntities,
    EmptyName,
    NoEquals,
    NoOffset,
    BadOffset,
    BadName,
    NonIncreasingOffsets,
    NoDelimiter,
    LastNotBody,
    UnexpectedLastEntity,
    UnexpectedList,
}

impl EncapsulatedError {
    /// The reason in words.
    pub open spec fn reason(self) -> Seq<char> {
        match self {
            EncapsulatedError::NoEntities => "no entities"@,
            EncapsulatedError::EmptyName => "empty name"@,
            EncapsulatedError::NoEquals => "no equals"@,
            EncapsulatedError::NoOffset => "no offset"@,
            EncapsulatedError::BadOffset => "bad offset"@,
            EncapsulatedError::BadName => "bad name"@,
            EncapsulatedError::NonIncreasingOffsets => "non increasing offset sequence"@,
            EncapsulatedError::NoDelimiter => "no delimiter"@,
            EncapsulatedError::LastNotBody => "last entity is not a body"@,
            EncapsulatedError::UnexpectedLastEntity => "unexpected last encapsulated entity"@,
            EncapsulatedError::UnexpectedList => "unexpected ee_list"@,
        }
    }

    /// The reason in words.
    pub fn as_str(&self) -> (r: &'static str)
        ensures
            r@ == self.reason(),
    {
        match self {
            EncapsulatedError::NoEntities => "no entities",
            EncapsulatedError::EmptyName => "empty name",
            EncapsulatedError::NoEquals => "no equals",
            EncapsulatedError::NoOffset => "no offset",
            EncapsulatedError::BadOffset => "bad offset",
            EncapsulatedError::BadName => "bad name",
            EncapsulatedError::NonIncreasingOffsets => "non increasing offset sequence",
            EncapsulatedError::NoDelimiter => "no delimiter",
            EncapsulatedError::LastNotBody => "last entity is not a body",
            EncapsulatedError::UnexpectedLastEntity => "unexpected last encapsulated entity",
            EncapsulatedError::UnexpectedList => "unexpected ee_list",
        }
    }
}

/// Errors of the ICAP and HTTP decoders.
#[derive(Debug, PartialEq, Eq)]
pub enum DecoderError {
    BadFormat(String),
    BadMethod(String),
    BadUri(String),
    BadVersion(String),
    BadEncapsulatedHdr(EncapsulatedError),
    NoEncapsulatedHdr,
    /// Kept for callers that match on it. The decoded headers are copies of
    /// their bytes, so a growing receive buffer never invalidates them and
    /// no decoder re-parses the ICAP head: this error is never produced.
    FailedToReparseIcapReq,
    FailedToParseHttpReq,
    FailedToParseHttpRes,
    FailedToParsePreview,
    NoAllow206,
    NoPreview0,
    BadChunkHeader,
    BadChunkSize,
}

} // verus!
