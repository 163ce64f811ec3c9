use crate::address::MessageAddress;
use crate::body::{selector_at, MessageBody};
use crate::body_type::MessageBodyType;
use crate::codec::{FunctionHeader, HeaderDecode, HeaderRequest, ParamsRequest};
use crate::descriptor::{AbiDescriptor, FunctionEntry, Schema};
use crate::error::{CodecError, DecodeError};
use vstd::prelude::*;

verus! {

/// A responsible call that a message may be the answer to.
#[derive(Clone, Debug, PartialEq, Eq)]
pub struct ResponsibleCall {
    /// The function that was called.
    pub function: FunctionEntry,
    /// The address the call was sent from.
    pub src: MessageAddress,
    /// The selector that the answer starts with.
    pub answer_id: u32,
}

/// A decoded message body.
#[derive(Clone, Debug, PartialEq)]
pub struct DecodedMessageBody {
    /// Type of the message body content.
    pub body_type: MessageBodyType,
    /// Function or event name.
    pub name: String,
    /// Parameters or result value.
    pub value: Option<serde_json::Value>,
    /// Function header.
    pub header: Option<FunctionHeader>,
}

/// What stays the same through one decoding: the dispatch tables, the body
/// and the two flags.
#[derive(Clone, Debug, PartialEq, Eq)]
pub struct DecodeContext {
    pub abi: AbiDescriptor,
    pub body: MessageBody,
    pub is_internal: bool,
    pub allow_partial: bool,
}

/// What a pending decoding of parameters is tried for.
#[derive(Clone, Copy, Debug, PartialEq, Eq, Structural)]
pub enum Trial {
    /// The body is taken for the answer to a responsible call.
    Responsible,
    /// The body is tried as a function output or an event.
    Output,
    /// The body is tried as a function input.
    Input,
}

/// A decoding that waits for the codec to decode parameters.
#[derive(Clone, Debug, PartialEq, Eq)]
pub struct AwaitingParams {
    pub context: DecodeContext,
    pub trial: Trial,
    /// The name of the function or event whose schema is tried.
    pub name: String,
    /// What the codec is to decode.
    pub request: ParamsRequest,
}

/// What a pending decoding of the header is for.
#[derive(Clone, Debug, PartialEq, Eq)]
pub enum HeaderPurpose<T> {
    /// To find where the input selector stands.
    Locate,
    /// To attach the header to an input whose parameters are decoded.
    Attach { name: String, tokens: T },
}

/// A decoding that waits for the codec to decode the header.
#[derive(Clone, Debug, PartialEq, Eq)]
pub struct AwaitingHeader<T> {
    pub context: DecodeContext,
    pub purpose: HeaderPurpose<T>,
}

/// A decoding that waits for the codec to turn tokens into a value.
#[derive(Clone, Debug, PartialEq, Eq)]
pub struct AwaitingValue<T> {
    /// The tokens that the codec is to turn into a value.
    pub tokens: T,
    pub body_type: MessageBodyType,
    pub name: String,
    pub header: Option<FunctionHeader>,
}

/// Where a decoding stands: what it needs from the codec next, or how it
/// ended.
#[derive(Debug, PartialEq)]
pub enum DecodeStep<T> {
    /// The codec is to decode parameters as `request` of the state says.
    NeedParams(AwaitingParams),
    /// The codec is to decode the header from the start of the body.
    NeedHeader(AwaitingHeader<T>),
    /// The codec is to turn `tokens` of the state into a value.
    NeedValue(AwaitingValue<T>),
    /// The decoding is over.
    Done(Result<DecodedMessageBody, DecodeError>),
}

/// Whether a message is checked for being the answer to a responsible call:
/// it is internal, and it was sent to the address that the call came from.
pub open spec fn responsible_applies(
    responsible: Option<&ResponsibleCall>,
    is_internal: bool,
    internal_dst: Option<&MessageAddress>,
) -> bool {
    &&& is_internal
    &&& responsible is Some
    &&& internal_dst is Some
    &&& internal_dst->0@ == responsible->0.src@
}

/// The request for the parameters that follow a selector at the start of
/// the body.
pub open spec fn leading_request(schema: Schema, allow_partial: bool) -> ParamsRequest {
    ParamsRequest { schema, offset_bits: 32, allow_partial }
}

/// The request for the parameters of an input whose header takes
/// `consumed_bits` bits: they follow the header and the selector.
pub open spec fn input_request(
    schema: Schema,
    consumed_bits: usize,
    allow_partial: bool,
) -> ParamsRequest {
    ParamsRequest { schema, offset_bits: (consumed_bits + 32) as usize, allow_partial }
}

/// The input trial begins by asking for the header.
pub open spec fn input_trial_step<T>(context: DecodeContext) -> DecodeStep<T> {
    DecodeStep::NeedHeader(AwaitingHeader { context, purpose: HeaderPurpose::Locate })
}

/// The first move of the classifier: the output trial where the leading
/// selector names a function output or an event, else the input trial.
pub open spec fn classify_step<T>(context: DecodeContext) -> DecodeStep<T> {
    match selector_at(context.body@, 0) {
        Some(id) => match context.abi.output_schema(id) {
            Some(schema) => DecodeStep::NeedParams(
                AwaitingParams {
                    context,
                    trial: Trial::Output,
                    name: context.abi.name_of(schema),
                    request: leading_request(schema, context.allow_partial),
                },
            ),
            None => input_trial_step(context),
        },
        None => input_trial_step(context),
    }
}

/// The first move of a decoding.
pub open spec fn start_step<T>(
    abi: AbiDescriptor,
    responsible: Option<&ResponsibleCall>,
    body: MessageBody,
    is_internal: bool,
    internal_dst: Option<&MessageAddress>,
    allow_partial: bool,
) -> DecodeStep<T> {
    let context = DecodeContext { abi, body, is_internal, allow_partial };
    if responsible_applies(responsible, is_internal, internal_dst) {
        match selector_at(body@, 0) {
            None => DecodeStep::Done(Err(DecodeError::MalformedSelector)),
            Some(id) => if id == responsible->0.answer_id {
                DecodeStep::NeedParams(
                    AwaitingParams {
                        context,
                        trial: Trial::Responsible,
                        name: responsible->0.function.name,
                        request: leading_request(Schema::ResponsibleOutput, allow_partial),
                    },
                )
            } else {
                classify_step(context)
            },
        }
    } else {
        classify_step(context)
    }
}

/// The body type of a body that decoded in the output trial under `name`.
pub open spec fn output_type(abi: AbiDescriptor, name: String) -> MessageBodyType {
    if abi.has_event_named(name@) {
        MessageBodyType::Event
    } else {
        MessageBodyType::Output
    }
}

impl DecodedMessageBody {
    /// The result that is assembled from the parts of a decoding and the
    /// codec's attempt to turn the tokens into a value.
    pub open spec fn assembled(
        body_type: MessageBodyType,
        name: String,
        value: Result<serde_json::Value, CodecError>,
        header: Option<FunctionHeader>,
    ) -> Result<DecodedMessageBody, DecodeError> {
        match value {
            Ok(value) => Ok(DecodedMessageBody { body_type, name, value: Some(value), header }),
            Err(cause) => Err(DecodeError::Detokenize(cause)),
        }
    }

    /// Assembles a decoded body. `value` is what the codec made of the
    /// decoded tokens: where it failed, so does the decoding.
    pub fn new(
        body_type: MessageBodyType,
        name: String,
        value: Result<serde_json::Value, CodecError>,
        header: Option<FunctionHeader>,
    ) -> (res: Result<DecodedMessageBody, DecodeError>)
        ensures
            res == Self::assembled(body_type, name, value, header),
    {
        match value {
            Ok(value) => Ok(DecodedMessageBody { body_type, name, value: Some(value), header }),
            Err(cause) => Err(DecodeError::Detokenize(cause)),
        }
    }

    /// Begins to decode `body` against `abi`.
    ///
    /// Where the message is internal and was sent to the address that a
    /// responsible call came from, the body is first checked for the answer
    /// selector of that call: a body too short for a selector ends the
    /// decoding, the answer selector has the body decoded as the output of
    /// the responsible function, and any other selector leaves the body to
    /// the classifier. The classifier tries the body as an output or event
    /// first and as an input second.
    pub fn decode<T>(
        abi: AbiDescriptor,
        responsible: Option<&ResponsibleCall>,
        body: MessageBody,
        is_internal: bool,
        internal_dst: Option<&MessageAddress>,
        allow_partial: bool,
    ) -> (step: DecodeStep<T>)
        ensures
            step == start_step::<T>(abi, responsible, body, is_internal, internal_dst, allow_partial),
            responsible_applies(responsible, is_internal, internal_dst) && body@.len() < 32 ==> step
                == DecodeStep::<T>::Done(Err(DecodeError::MalformedSelector)),
            !responsible_applies(responsible, is_internal, internal_dst) ==> step == classify_step::<T>(
                DecodeContext { abi, body, is_internal, allow_partial },
            ),
    {
        let context = DecodeContext { abi, body, is_internal, allow_partial };
        match (internal_dst, responsible) {
            (Some(internal_dst), Some(responsible)) => {
                if is_internal && internal_dst.same_as(&responsible.src) {
                    match context.body.read_selector(0) {
                        None => {
                            return DecodeStep::Done(Err(DecodeError::MalformedSelector));
                        },
                        Some(id) => {
                            if id == responsible.answer_id {
                                return DecodeStep::NeedParams(
                                    AwaitingParams {
                                        context,
                                        trial: Trial::Responsible,
                                        name: responsible.function.name.clone(),
                                        request: ParamsRequest {
                                            schema: Schema::ResponsibleOutput,
                                            offset_bits: 32,
                                            allow_partial,
                                        },
                                    },
                                );
                            }
                        },
                    }
                }
            },
            _ => {},
        }
        context.classify()
    }
}

impl DecodeContext {
    /// Starts the classifier on the whole body: the output trial where the
    /// leading selector names a function output or an event, else the input
    /// trial.
    pub fn classify<T>(self) -> (step: DecodeStep<T>)
        ensures
            step == classify_step::<T>(self),
    {
        match self.body.read_selector(0) {
            Some(id) => match self.abi.find_output_schema(id) {
                Some(schema) => {
                    let name = self.abi.entry_name(schema);
                    let request = ParamsRequest {
                        schema,
                        offset_bits: 32,
                        allow_partial: self.allow_partial,
                    };
                    DecodeStep::NeedParams(
                        AwaitingParams { context: self, trial: Trial::Output, name, request },
                    )
                },
                None => self.try_input(),
            },
            None => self.try_input(),
        }
    }

    /// Starts the input trial, which begins with the header.
    pub fn try_input<T>(self) -> (step: DecodeStep<T>)
        ensures
            step == input_trial_step::<T>(self),
    {
        DecodeStep::NeedHeader(AwaitingHeader { context: self, purpose: HeaderPurpose::Locate })
    }
}

impl AwaitingParams {
    /// Where the decoding stands once the codec has answered `reply` to the
    /// request for parameters.
    pub open spec fn resumed<T>(self, reply: Result<T, CodecError>) -> DecodeStep<T> {
        match self.trial {
            Trial::Responsible => match reply {
                Ok(tokens) => DecodeStep::NeedValue(
                    AwaitingValue {
                        tokens,
                        body_type: MessageBodyType::InternalOutput,
                        name: self.name,
                        header: None,
                    },
                ),
                Err(cause) => DecodeStep::Done(Err(DecodeError::ResponsibleOutput(cause))),
            },
            Trial::Output => match reply {
                Ok(tokens) => DecodeStep::NeedValue(
                    AwaitingValue {
                        tokens,
                        body_type: output_type(self.context.abi, self.name),
                        name: self.name,
                        header: None,
                    },
                ),
                Err(_) => input_trial_step(self.context),
            },
            Trial::Input => match reply {
                Ok(tokens) => DecodeStep::NeedHeader(
                    AwaitingHeader {
                        context: self.context,
                        purpose: HeaderPurpose::Attach { name: self.name, tokens },
                    },
                ),
                Err(_) => DecodeStep::Done(Err(DecodeError::SchemaMismatch)),
            },
        }
    }

    /// Goes on with what the codec made of the request for parameters.
    ///
    /// A failure ends the decoding only for a responsible reply. A failed
    /// output trial is followed by the input trial on the same body, a
    /// failed input trial by the verdict that the body does not match.
    pub fn resume<T>(self, reply: Result<T, CodecError>) -> (step: DecodeStep<T>)
        ensures
            step == self.resumed(reply),
    {
        match self.trial {
            Trial::Responsible => match reply {
                Ok(tokens) => DecodeStep::NeedValue(
                    AwaitingValue {
                        tokens,
                        body_type: MessageBodyType::InternalOutput,
                        name: self.name,
                        header: None,
                    },
                ),
                Err(cause) => DecodeStep::Done(Err(DecodeError::ResponsibleOutput(cause))),
            },
            Trial::Output => match reply {
                Ok(tokens) => {
                    let body_type = if self.context.abi.has_event(&self.name) {
                        MessageBodyType::Event
                    } else {
                        MessageBodyType::Output
                    };
                    DecodeStep::NeedValue(
                        AwaitingValue { tokens, body_type, name: self.name, header: None },
                    )
                },
                Err(_) => self.context.try_input(),
            },
            Trial::Input => match reply {
                Ok(tokens) => DecodeStep::NeedHeader(
                    AwaitingHeader {
                        context: self.context,
                        purpose: HeaderPurpose::Attach { name: self.name, tokens },
                    },
                ),
                Err(_) => DecodeStep::Done(Err(DecodeError::SchemaMismatch)),
            },
        }
    }
}

impl<T> AwaitingHeader<T> {
    /// The request that the codec is to answer.
    pub open spec fn request(self) -> HeaderRequest {
        HeaderRequest { is_internal: self.context.is_internal }
    }

    /// Where the decoding stands once the codec has answered `reply` to the
    /// request for the header.
    pub open spec fn resumed(self, reply: Result<HeaderDecode, CodecError>) -> DecodeStep<T> {
        match self.purpose {
            HeaderPurpose::Locate => match reply {
                Ok(found) => match selector_at(self.context.body@, found.consumed_bits as int) {
                    Some(id) => match self.context.abi.input_schema(id) {
                        Some(schema) => DecodeStep::NeedParams(
                            AwaitingParams {
                                context: self.context,
                                trial: Trial::Input,
                                name: self.context.abi.name_of(schema),
                                request: input_request(
                                    schema,
                                    found.consumed_bits,
                                    self.context.allow_partial,
                                ),
                            },
                        ),
                        None => DecodeStep::Done(Err(DecodeError::SchemaMismatch)),
                    },
                    None => DecodeStep::Done(Err(DecodeError::SchemaMismatch)),
                },
                Err(_) => DecodeStep::Done(Err(DecodeError::SchemaMismatch)),
            },
            HeaderPurpose::Attach { name, tokens } => match reply {
                Ok(found) => DecodeStep::NeedValue(
                    AwaitingValue {
                        tokens,
                        body_type: MessageBodyType::Input,
                        name,
                        header: found.header,
                    },
                ),
                Err(cause) => DecodeStep::Done(Err(DecodeError::Header(cause))),
            },
        }
    }

    /// What the codec is asked: to decode the header from the start of the
    /// body, for an internal or an external message.
    pub fn header_request(&self) -> (request: HeaderRequest)
        ensures
            request == self.request(),
    {
        HeaderRequest { is_internal: self.context.is_internal }
    }

    /// Goes on with what the codec made of the request for the header.
    ///
    /// In the input trial the selector is read behind the header and looked
    /// up among the input selectors; without a header, a selector or a
    /// function of that selector the body does not match. Once the
    /// parameters of an input are decoded, the header is attached to them,
    /// and a failure of the codec ends the decoding.
    pub fn resume(self, reply: Result<HeaderDecode, CodecError>) -> (step: DecodeStep<T>)
        ensures
            step == self.resumed(reply),
    {
        match self.purpose {
            HeaderPurpose::Locate => match reply {
                Ok(found) => match self.context.body.read_selector(found.consumed_bits) {
                    Some(id) => match self.context.abi.find_input_schema(id) {
                        Some(schema) => {
                            let name = self.context.abi.entry_name(schema);
                            let request = ParamsRequest {
                                schema,
                                offset_bits: found.consumed_bits + 32,
                                allow_partial: self.context.allow_partial,
                            };
                            DecodeStep::NeedParams(
                                AwaitingParams {
                                    context: self.context,
                                    trial: Trial::Input,
                                    name,
                                    request,
                                },
                            )
                        },
                        None => DecodeStep::Done(Err(DecodeError::SchemaMismatch)),
                    },
                    None => DecodeStep::Done(Err(DecodeError::SchemaMismatch)),
                },
                Err(_) => DecodeStep::Done(Err(DecodeError::SchemaMismatch)),
            },
            HeaderPurpose::Attach { name, tokens } => match reply {
                Ok(found) => DecodeStep::NeedValue(
                    AwaitingValue {
                        tokens,
                        body_type: MessageBodyType::Input,
                        name,
                        header: found.header,
                    },
                ),
                Err(cause) => DecodeStep::Done(Err(DecodeError::Header(cause))),
            },
        }
    }
}

impl<T> AwaitingValue<T> {
    /// How the decoding ends once the codec has answered `reply` to the
    /// request for a value.
    pub open spec fn resumed(self, reply: Result<serde_json::Value, CodecError>) -> DecodeStep<T> {
        DecodeStep::Done(
            DecodedMessageBody::assembled(self.body_type, self.name, reply, self.header),
        )
    }

    /// Ends the decoding with the value that the codec made of the tokens,
    /// or with the codec's failure.
    pub fn resume(self, reply: Result<serde_json::Value, CodecError>) -> (step: DecodeStep<T>)
        ensures
            step == self.resumed(reply),
    {
        DecodeStep::Done(DecodedMessageBody::new(self.body_type, self.name, reply, self.header))
    }
}

} // verus!
