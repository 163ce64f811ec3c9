use vstd::prelude::*;

verus! {

/// Why the token codec gave up.
#[derive(Clone, Copy, Debug, PartialEq, Eq, Structural)]
pub enum CodecErrorKind {
    /// Every described parameter was read, data was left over, and partial
    /// decoding was not allowed.
    IncompleteDeserialization,
    /// Any other failure of the codec.
    Other,
}

/// A failure reported by the token codec, with the codec's own words.
#[derive(Clone, Debug, PartialEq, Eq)]
pub struct CodecError {
    pub kind: CodecErrorKind,
    pub message: String,
}

/// Why a message body could not be decoded.
#[derive(Clone, Debug, PartialEq, Eq)]
pub enum DecodeError {
    /// The message carries no body.
    EmptyBody,
    /// The body is too short to hold the selector that a responsible reply
    /// starts with.
    MalformedSelector,
    /// The body starts with the expected answer selector, but the codec
    /// could not decode it as the output of the responsible function.
    ResponsibleOutput(CodecError),
    /// The body was decoded as a function input, but the codec could not
    /// decode its header afterwards.
    Header(CodecError),
    /// The decoded tokens could not be turned into a structured value.
    Detokenize(CodecError),
    /// The body is neither an output, an event nor an input of the ABI.
    SchemaMismatch,
}

impl DecodeError {
    /// The text of the error.
    pub open spec fn text(self) -> Seq<char> {
        match self {
            DecodeError::EmptyBody => "The message body is empty"@,
            DecodeError::MalformedSelector =>
                "Can't decode function header: the body holds fewer than 32 bits"@,
            DecodeError::ResponsibleOutput(cause) =>
                "Responsible function output can't be decoded: "@ + cause.message@,
            DecodeError::Header(cause) => "Can't decode function header: "@ + cause.message@,
            DecodeError::Detokenize(cause) => cause.message@,
            DecodeError::SchemaMismatch =>
                "The message body does not match the specified ABI.\n\n                Tip: Please check that you specified message's body, not full BOC."@,
        }
    }

    /// Renders the error for a reader.
    pub fn message(&self) -> (res: String)
        ensures
            res@ == self.text(),
    {
        match self {
            DecodeError::EmptyBody => "The message body is empty".to_owned(),
            DecodeError::MalformedSelector =>
                "Can't decode function header: the body holds fewer than 32 bits".to_owned(),
            DecodeError::ResponsibleOutput(cause) =>
                "Responsible function output can't be decoded: ".to_owned().concat(
                    cause.message.as_str(),
                ),
            DecodeError::Header(cause) => "Can't decode function header: ".to_owned().concat(
                cause.message.as_str(),
            ),
            DecodeError::Detokenize(cause) => cause.message.clone(),
            DecodeError::SchemaMismatch =>
                "The message body does not match the specified ABI.\n\n                Tip: Please check that you specified message's body, not full BOC.".to_owned(),
        }
    }

    /// Whether the codec reported leftover data as the cause.
    pub open spec fn caused_by_leftover(self) -> bool {
        match self {
            DecodeError::ResponsibleOutput(cause) => cause.kind
                == CodecErrorKind::IncompleteDeserialization,
            DecodeError::Header(cause) => cause.kind == CodecErrorKind::IncompleteDeserialization,
            DecodeError::Detokenize(cause) => cause.kind
                == CodecErrorKind::IncompleteDeserialization,
            _ => false,
        }
    }

    /// True when the codec failed because data was left over after the last
    /// described parameter.
    pub fn is_incomplete_deserialization(&self) -> (res: bool)
        ensures
            res == self.caused_by_leftover(),
    {
        match self {
            DecodeError::ResponsibleOutput(cause) | DecodeError::Header(cause)
            | DecodeError::Detokenize(cause) => match cause.kind {
                CodecErrorKind::IncompleteDeserialization => true,
                CodecErrorKind::Other => false,
            },
            _ => false,
        }
    }
}

/// An error of the SDK layer.
#[derive(Clone, Debug, PartialEq, Eq)]
pub enum SdkError {
    InvalidData { msg: String },
    InternalError { msg: String },
}

impl SdkError {
    /// The text of the error.
    pub open spec fn text(self) -> Seq<char> {
        match self {
            SdkError::InvalidData { msg } => "Invalid data: "@ + msg@,
            SdkError::InternalError { msg } => "Internal error: "@ + msg@,
        }
    }

    /// Renders the error for a reader.
    pub fn message(&self) -> (res: String)
        ensures
            res@ == self.text(),
    {
        match self {
            SdkError::InvalidData { msg } => "Invalid data: ".to_owned().concat(msg.as_str()),
            SdkError::InternalError { msg } => "Internal error: ".to_owned().concat(msg.as_str()),
        }
    }
}

} // verus!
