//! Decoding of contract message bodies against an ABI descriptor.
//!
//! A body is classified as the input of a function, the output of a
//! function, an event, or the answer to a responsible call, and its
//! parameters are decoded into a structured value.
//!
//! The library decides; a token codec decodes. [`DecodedMessageBody::decode`]
//! and the entry points in [`message`] return a [`DecodeStep`]: either the
//! result, or a state that names what the codec is to do next. The caller has
//! the codec do it and hands the answer to the state's `resume`, until the
//! step is `Done`. A decoding needs at most five answers.
//!
//! [`model`] says what a decoding gives as a function of the codec's answers,
//! and proves that the steps arrive there. [`laws`] holds what follows for
//! inputs, outputs, events and responsible replies.

pub mod address;
pub mod body;
pub mod body_type;
pub mod codec;
pub mod decode;
pub mod descriptor;
pub mod error;
pub mod hex_text;
pub mod json;
pub mod laws;
pub mod message;
pub mod model;
pub mod nacl_box;

pub use address::MessageAddress;
pub use body::MessageBody;
pub use body_type::MessageBodyType;
pub use codec::{FunctionHeader, HeaderDecode, HeaderRequest, ParamsRequest};
pub use decode::{DecodeStep, DecodedMessageBody, ResponsibleCall};
pub use descriptor::{AbiDescriptor, EventEntry, FunctionEntry, Schema};
pub use error::{CodecError, CodecErrorKind, DecodeError, SdkError};
pub use message::{
    decode_message, decode_message_body, Message, ParamsOfDecodeMessage, ParamsOfDecodeMessageBody,
};
pub use nacl_box::{NaclBoxParams, NaclEncryptionBox};
