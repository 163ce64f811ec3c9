use crate::address::MessageAddress;
use crate::body::MessageBody;
use crate::decode::{
    classify_step, start_step, DecodeContext, DecodeStep, DecodedMessageBody, ResponsibleCall,
};
use crate::descriptor::AbiDescriptor;
use crate::error::DecodeError;
use vstd::prelude::*;

verus! {

/// What decoding reads of a message envelope: the body, if the message has
/// one, whether the message is internal, and the address it was sent to.
#[derive(Clone, Debug, PartialEq, Eq)]
pub struct Message {
    pub body: Option<MessageBody>,
    pub is_internal: bool,
    pub dst: Option<MessageAddress>,
}

/// How a message is to be decoded.
#[derive(Clone, Debug, Default, PartialEq, Eq)]
pub struct ParamsOfDecodeMessage {
    /// Contract ABI, as JSON.
    pub abi: String,
    /// Message BOC.
    pub message: String,
    /// Whether data may be left over behind the parameters that the ABI
    /// describes: `true` returns the decoded values, `false` has leftover
    /// data reported as an error.
    pub allow_partial: bool,
}

/// How a message body is to be decoded.
#[derive(Clone, Debug, Default, PartialEq, Eq)]
pub struct ParamsOfDecodeMessageBody {
    /// Contract ABI, as JSON.
    pub abi: String,
    /// Message body BOC, encoded in base64.
    pub body: String,
    /// True if the body belongs to an internal message.
    pub is_internal: bool,
    /// Whether data may be left over behind the parameters that the ABI
    /// describes: `true` returns the decoded values, `false` has leftover
    /// data reported as an error.
    pub allow_partial: bool,
}

/// The address, borrowed, where there is one.
pub open spec fn borrowed(address: &Option<MessageAddress>) -> Option<&MessageAddress> {
    match address {
        Some(address) => Some(address),
        None => None,
    }
}

/// The first move of decoding a message: a message without a body fails,
/// any other is decoded from its body, its kind and its destination.
pub open spec fn message_step<T>(
    abi: AbiDescriptor,
    message: Message,
    responsible: Option<&ResponsibleCall>,
    allow_partial: bool,
) -> DecodeStep<T> {
    match message.body {
        Some(body) => start_step(
            abi,
            responsible,
            body,
            message.is_internal,
            borrowed(&message.dst),
            allow_partial,
        ),
        None => DecodeStep::Done(Err(DecodeError::EmptyBody)),
    }
}

impl DecodedMessageBody {
    /// Begins to decode the body of `message` against `abi`, with a
    /// responsible call that the message may answer.
    ///
    /// A message without a body fails with `EmptyBody`.
    pub fn decode_message<T>(
        params: &ParamsOfDecodeMessage,
        abi: AbiDescriptor,
        message: Message,
        responsible: Option<&ResponsibleCall>,
    ) -> (step: DecodeStep<T>)
        ensures
            step == message_step::<T>(abi, message, responsible, params.allow_partial),
            message.body is None ==> step == DecodeStep::<T>::Done(Err(DecodeError::EmptyBody)),
    {
        let Message { body, is_internal, dst } = message;
        match body {
            Some(body) => DecodedMessageBody::decode(
                abi,
                responsible,
                body,
                is_internal,
                dst.as_ref(),
                params.allow_partial,
            ),
            None => DecodeStep::Done(Err(DecodeError::EmptyBody)),
        }
    }
}

/// Begins to decode the body of `message` against `abi`.
///
/// A message without a body fails with `EmptyBody`.
pub fn decode_message<T>(params: &ParamsOfDecodeMessage, abi: AbiDescriptor, message: Message) -> (step:
    DecodeStep<T>)
    ensures
        step == message_step::<T>(abi, message, None, params.allow_partial),
        message.body is None ==> step == DecodeStep::<T>::Done(Err(DecodeError::EmptyBody)),
{
    DecodedMessageBody::decode_message(params, abi, message, None)
}

/// Begins to decode a body that stands alone against `abi`. Such a body has
/// no destination address, so it is never taken for the answer to a
/// responsible call.
pub fn decode_message_body<T>(
    params: &ParamsOfDecodeMessageBody,
    abi: AbiDescriptor,
    body: MessageBody,
) -> (step: DecodeStep<T>)
    ensures
        step == start_step::<T>(abi, None, body, params.is_internal, None, params.allow_partial),
        step == classify_step::<T>(
            DecodeContext {
                abi,
                body,
                is_internal: params.is_internal,
                allow_partial: params.allow_partial,
            },
        ),
{
    DecodedMessageBody::decode(abi, None, body, params.is_internal, None, params.allow_partial)
}

} // verus!
