use crate::address::MessageAddress;
use crate::body::selector_at;
use crate::body_type::MessageBodyType;
use crate::codec::{Codec, FunctionHeader, HeaderRequest};
use crate::decode::{
    input_request, leading_request, output_type, responsible_applies, start_step, DecodeContext,
    DecodeStep, DecodedMessageBody, ResponsibleCall,
};
use crate::descriptor::Schema;
use crate::error::DecodeError;
use vstd::prelude::*;

verus! {

/// The result for tokens that decoded under `name`: the value that the
/// codec makes of them, or the codec's failure to make one.
pub open spec fn assembled_with<T>(
    codec: Codec<T>,
    body_type: MessageBodyType,
    name: String,
    tokens: T,
    header: Option<FunctionHeader>,
) -> Result<DecodedMessageBody, DecodeError> {
    DecodedMessageBody::assembled(body_type, name, (codec.value)(tokens), header)
}

/// The output trial: the leading selector names a function output or an
/// event, and the codec decodes what follows it under that schema. Gives
/// the name and the tokens, or nothing where the trial fails.
pub open spec fn output_trial<T>(codec: Codec<T>, context: DecodeContext) -> Option<(String, T)> {
    match selector_at(context.body@, 0) {
        Some(id) => match context.abi.output_schema(id) {
            Some(schema) => match (codec.params)(leading_request(schema, context.allow_partial)) {
                Ok(tokens) => Some((context.abi.name_of(schema), tokens)),
                Err(_) => None,
            },
            None => None,
        },
        None => None,
    }
}

/// The input trial: the codec decodes the header, the selector behind it
/// names a function input, and the codec decodes what follows the selector
/// under that schema. Gives the name and the tokens, or nothing where the
/// trial fails.
pub open spec fn input_trial<T>(codec: Codec<T>, context: DecodeContext) -> Option<(String, T)> {
    match (codec.header)(HeaderRequest { is_internal: context.is_internal }) {
        Ok(found) => match selector_at(context.body@, found.consumed_bits as int) {
            Some(id) => match context.abi.input_schema(id) {
                Some(schema) => match (codec.params)(
                    input_request(schema, found.consumed_bits, context.allow_partial),
                ) {
                    Ok(tokens) => Some((context.abi.name_of(schema), tokens)),
                    Err(_) => None,
                },
                None => None,
            },
            None => None,
        },
        Err(_) => None,
    }
}

/// What the classifier makes of a body: an output or event where the
/// output trial succeeds, else an input with its header where the input
/// trial succeeds, else a mismatch.
pub open spec fn classified<T>(codec: Codec<T>, context: DecodeContext) -> Result<
    DecodedMessageBody,
    DecodeError,
> {
    match output_trial(codec, context) {
        Some((name, tokens)) => assembled_with(
            codec,
            output_type(context.abi, name),
            name,
            tokens,
            None,
        ),
        None => match input_trial(codec, context) {
            Some((name, tokens)) => match (codec.header)(
                HeaderRequest { is_internal: context.is_internal },
            ) {
                Ok(found) => assembled_with(
                    codec,
                    MessageBodyType::Input,
                    name,
                    tokens,
                    found.header,
                ),
                Err(cause) => Err(DecodeError::Header(cause)),
            },
            None => Err(DecodeError::SchemaMismatch),
        },
    }
}

/// What decoding a body gives, for a codec that answers as `codec` does.
pub open spec fn decoded<T>(
    codec: Codec<T>,
    context: DecodeContext,
    responsible: Option<&ResponsibleCall>,
    internal_dst: Option<&MessageAddress>,
) -> Result<DecodedMessageBody, DecodeError> {
    if responsible_applies(responsible, context.is_internal, internal_dst) {
        match selector_at(context.body@, 0) {
            None => Err(DecodeError::MalformedSelector),
            Some(id) => if id == responsible->0.answer_id {
                match (codec.params)(
                    leading_request(Schema::ResponsibleOutput, context.allow_partial),
                ) {
                    Ok(tokens) => assembled_with(
                        codec,
                        MessageBodyType::InternalOutput,
                        responsible->0.function.name,
                        tokens,
                        None,
                    ),
                    Err(cause) => Err(DecodeError::ResponsibleOutput(cause)),
                }
            } else {
                classified(codec, context)
            },
        }
    } else {
        classified(codec, context)
    }
}

/// Where a decoding stands after the codec has answered its pending
/// request. A decoding that is over stays as it is.
pub open spec fn answered<T>(codec: Codec<T>, step: DecodeStep<T>) -> DecodeStep<T> {
    match step {
        DecodeStep::NeedParams(state) => state.resumed((codec.params)(state.request)),
        DecodeStep::NeedHeader(state) => state.resumed((codec.header)(state.request())),
        DecodeStep::NeedValue(state) => state.resumed((codec.value)(state.tokens)),
        DecodeStep::Done(result) => DecodeStep::Done(result),
    }
}

/// Where a decoding stands after `rounds` answers of the codec.
pub open spec fn run<T>(codec: Codec<T>, step: DecodeStep<T>, rounds: nat) -> DecodeStep<T>
    decreases rounds,
{
    if rounds == 0 {
        step
    } else {
        run(codec, answered(codec, step), (rounds - 1) as nat)
    }
}

/// The first move of a decoding in the given context.
pub open spec fn started<T>(
    context: DecodeContext,
    responsible: Option<&ResponsibleCall>,
    internal_dst: Option<&MessageAddress>,
) -> DecodeStep<T> {
    start_step(
        context.abi,
        responsible,
        context.body,
        context.is_internal,
        internal_dst,
        context.allow_partial,
    )
}

/// A decoding that is over stays over, whatever the number of rounds.
pub proof fn run_keeps_result<T>(
    codec: Codec<T>,
    result: Result<DecodedMessageBody, DecodeError>,
    rounds: nat,
)
    ensures
        run(codec, DecodeStep::Done(result), rounds) == DecodeStep::<T>::Done(result),
    decreases rounds,
{
    if rounds > 0 {
        run_keeps_result(codec, result, (rounds - 1) as nat);
    }
}

/// The rounds of a run add up.
pub proof fn run_in_two_parts<T>(codec: Codec<T>, step: DecodeStep<T>, first: nat, second: nat)
    ensures
        run(codec, step, first + second) == run(codec, run(codec, step, first), second),
    decreases first,
{
    if first > 0 {
        run_in_two_parts(codec, answered(codec, step), (first - 1) as nat, second);
    }
}

/// A decoding is over after at most five answers of the codec, and it ends
/// with the result that `decoded` describes.
pub proof fn run_ends_decoded<T>(
    codec: Codec<T>,
    context: DecodeContext,
    responsible: Option<&ResponsibleCall>,
    internal_dst: Option<&MessageAddress>,
    rounds: nat,
)
    requires
        rounds >= 5,
    ensures
        run(codec, started(context, responsible, internal_dst), rounds) == DecodeStep::<T>::Done(
            decoded(codec, context, responsible, internal_dst),
        ),
{
    let first = started::<T>(context, responsible, internal_dst);
    assert(run(codec, first, 5) == DecodeStep::<T>::Done(
        decoded(codec, context, responsible, internal_dst),
    )) by {
        reveal_with_fuel(run, 6);
    }
    run_in_two_parts(codec, first, 5, (rounds - 5) as nat);
    run_keeps_result(codec, decoded(codec, context, responsible, internal_dst), (rounds - 5) as nat);
}

} // verus!
