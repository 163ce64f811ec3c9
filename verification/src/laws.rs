use crate::address::MessageAddress;
use crate::body::selector_at;
use crate::body_type::MessageBodyType;
use crate::codec::{Codec, HeaderDecode, HeaderRequest};
use crate::decode::{
    input_request, leading_request, output_type, responsible_applies, DecodeContext, DecodeStep,
    DecodedMessageBody, ResponsibleCall,
};
use crate::descriptor::{distinct_found_in_place, first_index_of_is_least, Schema};
use crate::error::{CodecError, CodecErrorKind, DecodeError};
use crate::model::{
    answered, classified, decoded, input_trial, output_trial, run, run_ends_decoded, started,
};
use vstd::prelude::*;

verus! {

/// Whether the body is taken for the answer to the responsible call: the
/// call applies to the message and the body starts with its answer selector.
pub open spec fn answers_call(
    context: DecodeContext,
    responsible: Option<&ResponsibleCall>,
    internal_dst: Option<&MessageAddress>,
) -> bool {
    &&& responsible_applies(responsible, context.is_internal, internal_dst)
    &&& selector_at(context.body@, 0) == Some(responsible->0.answer_id)
}

/// A valid input of a function decodes as `Input`, under the name of that
/// function and with the header that the codec read.
///
/// The body is a valid input of function `function` where the codec reads a
/// header, the selector behind the header is the function's input selector,
/// and the codec decodes what follows under the function's input schema and
/// turns the tokens into a value. The output trial comes first, so the law
/// holds of bodies on which it fails, and of bodies that are not taken for
/// the answer to a responsible call.
pub proof fn input_decodes_as_input<T>(
    codec: Codec<T>,
    context: DecodeContext,
    responsible: Option<&ResponsibleCall>,
    internal_dst: Option<&MessageAddress>,
    function: usize,
    found: HeaderDecode,
    tokens: T,
    value: serde_json::Value,
)
    requires
        context.abi.well_formed(),
        function < context.abi.functions@.len(),
        (codec.header)(HeaderRequest { is_internal: context.is_internal }) == Ok::<
            HeaderDecode,
            CodecError,
        >(found),
        selector_at(context.body@, found.consumed_bits as int) == Some(
            context.abi.functions@[function as int].input_id,
        ),
        (codec.params)(
            input_request(
                Schema::FunctionInput(function),
                found.consumed_bits,
                context.allow_partial,
            ),
        ) == Ok::<T, CodecError>(tokens),
        (codec.value)(tokens) == Ok::<serde_json::Value, CodecError>(value),
        output_trial(codec, context) is None,
        !answers_call(context, responsible, internal_dst),
    ensures
        decoded(codec, context, responsible, internal_dst) == Ok::<
            DecodedMessageBody,
            DecodeError,
        >(
            DecodedMessageBody {
                body_type: MessageBodyType::Input,
                name: context.abi.functions@[function as int].name,
                value: Some(value),
                header: found.header,
            },
        ),
{
    distinct_found_in_place(context.abi.input_ids(), function as int);
}

/// A valid output of a function decodes as `Output`, or as `Event` where
/// an event bears the function's name, under the name of that function and
/// without a header.
///
/// The body is a valid output of function `function` where it starts with
/// the function's output selector and the codec decodes what follows under
/// the function's output schema and turns the tokens into a value. The law
/// holds of bodies that are not taken for the answer to a responsible call.
pub proof fn output_decodes_as_output<T>(
    codec: Codec<T>,
    context: DecodeContext,
    responsible: Option<&ResponsibleCall>,
    internal_dst: Option<&MessageAddress>,
    function: usize,
    tokens: T,
    value: serde_json::Value,
)
    requires
        context.abi.well_formed(),
        function < context.abi.functions@.len(),
        selector_at(context.body@, 0) == Some(context.abi.functions@[function as int].output_id),
        (codec.params)(
            leading_request(Schema::FunctionOutput(function), context.allow_partial),
        ) == Ok::<T, CodecError>(tokens),
        (codec.value)(tokens) == Ok::<serde_json::Value, CodecError>(value),
        !answers_call(context, responsible, internal_dst),
    ensures
        decoded(codec, context, responsible, internal_dst) == Ok::<
            DecodedMessageBody,
            DecodeError,
        >(
            DecodedMessageBody {
                body_type: if context.abi.has_event_named(
                    context.abi.functions@[function as int].name@,
                ) {
                    MessageBodyType::Event
                } else {
                    MessageBodyType::Output
                },
                name: context.abi.functions@[function as int].name,
                value: Some(value),
                header: None,
            },
        ),
{
    distinct_found_in_place(context.abi.output_ids(), function as int);
}

/// A valid body of an event decodes as `Event`, under the name of that
/// event and without a header.
///
/// The body is a valid body of event `event` where it starts with the
/// event's selector, no function has that selector for its output, and the
/// codec decodes what follows under the event's schema and turns the tokens
/// into a value. The law holds of bodies that are not taken for the answer
/// to a responsible call.
pub proof fn event_decodes_as_event<T>(
    codec: Codec<T>,
    context: DecodeContext,
    responsible: Option<&ResponsibleCall>,
    internal_dst: Option<&MessageAddress>,
    event: usize,
    tokens: T,
    value: serde_json::Value,
)
    requires
        context.abi.well_formed(),
        event < context.abi.events@.len(),
        selector_at(context.body@, 0) == Some(context.abi.events@[event as int].id),
        forall|i: int|
            0 <= i < context.abi.functions@.len() ==> (#[trigger] context.abi.functions@[i]).output_id
                != context.abi.events@[event as int].id,
        (codec.params)(leading_request(Schema::EventInput(event), context.allow_partial)) == Ok::<
            T,
            CodecError,
        >(tokens),
        (codec.value)(tokens) == Ok::<serde_json::Value, CodecError>(value),
        !answers_call(context, responsible, internal_dst),
    ensures
        decoded(codec, context, responsible, internal_dst) == Ok::<
            DecodedMessageBody,
            DecodeError,
        >(
            DecodedMessageBody {
                body_type: MessageBodyType::Event,
                name: context.abi.events@[event as int].name,
                value: Some(value),
                header: None,
            },
        ),
{
    let id = context.abi.events@[event as int].id;
    first_index_of_is_least(context.abi.output_ids(), id);
    distinct_found_in_place(context.abi.event_ids(), event as int);
    assert(context.abi.has_event_named(context.abi.events@[event as int].name@));
}

/// The answer to a responsible call comes first: a body that starts with
/// the answer selector of a call that applies to the message decodes as
/// `InternalOutput`, under the name of the called function, from the
/// function's output schema and without a header, whatever the tables of
/// the ABI hold. Where the codec cannot decode the output, the decoding
/// fails with the codec's reason and the classifier is not tried.
pub proof fn responsible_reply_comes_first<T>(
    codec: Codec<T>,
    context: DecodeContext,
    responsible: Option<&ResponsibleCall>,
    internal_dst: Option<&MessageAddress>,
)
    requires
        answers_call(context, responsible, internal_dst),
    ensures
        decoded(codec, context, responsible, internal_dst) == match (codec.params)(
            leading_request(Schema::ResponsibleOutput, context.allow_partial),
        ) {
            Ok(tokens) => match (codec.value)(tokens) {
                Ok(value) => Ok(
                    DecodedMessageBody {
                        body_type: MessageBodyType::InternalOutput,
                        name: responsible->0.function.name,
                        value: Some(value),
                        header: None,
                    },
                ),
                Err(cause) => Err(DecodeError::Detokenize(cause)),
            },
            Err(cause) => Err(DecodeError::ResponsibleOutput(cause)),
        },
{
}

/// A body that starts with another selector than the answer selector is
/// classified as if no responsible call had been named, from its first bit
/// on.
pub proof fn other_selector_falls_through<T>(
    codec: Codec<T>,
    context: DecodeContext,
    responsible: Option<&ResponsibleCall>,
    internal_dst: Option<&MessageAddress>,
    id: u32,
)
    requires
        responsible_applies(responsible, context.is_internal, internal_dst),
        selector_at(context.body@, 0) == Some(id),
        id != responsible->0.answer_id,
    ensures
        decoded(codec, context, responsible, internal_dst) == classified(codec, context),
        decoded(codec, context, responsible, internal_dst) == decoded(
            codec,
            context,
            None,
            internal_dst,
        ),
{
}

/// The context of a decoding that differs from `context` in the policy on
/// leftover data alone.
pub open spec fn with_policy(context: DecodeContext, allow_partial: bool) -> DecodeContext {
    DecodeContext { allow_partial, ..context }
}

/// Leftover data behind the answer to a responsible call: where the codec
/// decodes the output when leftover data is allowed and reports leftover
/// data when it is not, the decoding succeeds with the policy on and fails
/// with the codec's report with the policy off.
pub proof fn leftover_in_responsible_reply<T>(
    codec: Codec<T>,
    context: DecodeContext,
    responsible: Option<&ResponsibleCall>,
    internal_dst: Option<&MessageAddress>,
    tokens: T,
    value: serde_json::Value,
    cause: CodecError,
)
    requires
        answers_call(context, responsible, internal_dst),
        (codec.params)(leading_request(Schema::ResponsibleOutput, true)) == Ok::<T, CodecError>(
            tokens,
        ),
        (codec.params)(leading_request(Schema::ResponsibleOutput, false)) == Err::<T, CodecError>(
            cause,
        ),
        cause.kind == CodecErrorKind::IncompleteDeserialization,
        (codec.value)(tokens) == Ok::<serde_json::Value, CodecError>(value),
    ensures
        decoded(codec, with_policy(context, true), responsible, internal_dst) == Ok::<
            DecodedMessageBody,
            DecodeError,
        >(
            DecodedMessageBody {
                body_type: MessageBodyType::InternalOutput,
                name: responsible->0.function.name,
                value: Some(value),
                header: None,
            },
        ),
        decoded(codec, with_policy(context, false), responsible, internal_dst) == Err::<
            DecodedMessageBody,
            DecodeError,
        >(DecodeError::ResponsibleOutput(cause)),
        DecodeError::ResponsibleOutput(cause).caused_by_leftover(),
{
}

/// Leftover data behind the output of a function: where the codec decodes
/// the output when leftover data is allowed and fails when it is not, the
/// body is classified with the policy on; with the policy off the output
/// trial fails, and the body does not match unless it decodes as an input.
pub proof fn leftover_in_output<T>(
    codec: Codec<T>,
    context: DecodeContext,
    function: usize,
    tokens: T,
    value: serde_json::Value,
    cause: CodecError,
)
    requires
        context.abi.well_formed(),
        function < context.abi.functions@.len(),
        selector_at(context.body@, 0) == Some(context.abi.functions@[function as int].output_id),
        (codec.params)(leading_request(Schema::FunctionOutput(function), true)) == Ok::<
            T,
            CodecError,
        >(tokens),
        (codec.params)(leading_request(Schema::FunctionOutput(function), false)) == Err::<
            T,
            CodecError,
        >(cause),
        (codec.value)(tokens) == Ok::<serde_json::Value, CodecError>(value),
    ensures
        classified(codec, with_policy(context, true)) == Ok::<DecodedMessageBody, DecodeError>(
            DecodedMessageBody {
                body_type: output_type(
                    context.abi,
                    context.abi.functions@[function as int].name,
                ),
                name: context.abi.functions@[function as int].name,
                value: Some(value),
                header: None,
            },
        ),
        output_trial(codec, with_policy(context, false)) is None,
        input_trial(codec, with_policy(context, false)) is None ==> classified(
            codec,
            with_policy(context, false),
        ) == Err::<DecodedMessageBody, DecodeError>(DecodeError::SchemaMismatch),
{
    distinct_found_in_place(context.abi.output_ids(), function as int);
}

/// Every request for parameters carries the caller's policy on leftover
/// data, at whatever point of the decoding it is made.
pub proof fn policy_reaches_codec<T>(
    codec: Codec<T>,
    context: DecodeContext,
    responsible: Option<&ResponsibleCall>,
    internal_dst: Option<&MessageAddress>,
    rounds: nat,
)
    ensures
        run(codec, started(context, responsible, internal_dst), rounds) matches DecodeStep::NeedParams(
            state,
        ) ==> state.request.allow_partial == context.allow_partial,
{
    let first = started::<T>(context, responsible, internal_dst);
    assert(keeps_context(first, context));
    run_keeps_context(codec, first, context, rounds);
}

/// A decoding that is not over works on `context`, and a pending request
/// for parameters carries the policy of `context`.
pub open spec fn keeps_context<T>(step: DecodeStep<T>, context: DecodeContext) -> bool {
    match step {
        DecodeStep::NeedParams(state) => state.context == context && state.request.allow_partial
            == context.allow_partial,
        DecodeStep::NeedHeader(state) => state.purpose is Locate ==> state.context == context,
        DecodeStep::NeedValue(_) => true,
        DecodeStep::Done(_) => true,
    }
}

/// The codec's answers never change the body, the tables or the flags that
/// a decoding works on.
pub proof fn run_keeps_context<T>(
    codec: Codec<T>,
    step: DecodeStep<T>,
    context: DecodeContext,
    rounds: nat,
)
    requires
        keeps_context(step, context),
    ensures
        keeps_context(run(codec, step, rounds), context),
    decreases rounds,
{
    if rounds > 0 {
        run_keeps_context(codec, answered(codec, step), context, (rounds - 1) as nat);
    }
}

/// Decoding is a function of what it is given: two decodings of one body
/// against one ABI, answered by one codec, stand at the same point after
/// every round and end with the same result.
pub proof fn decoding_repeats<T>(
    codec: Codec<T>,
    context: DecodeContext,
    responsible: Option<&ResponsibleCall>,
    internal_dst: Option<&MessageAddress>,
    first: DecodeStep<T>,
    second: DecodeStep<T>,
    rounds: nat,
)
    requires
        first == started::<T>(context, responsible, internal_dst),
        second == started::<T>(context, responsible, internal_dst),
    ensures
        run(codec, first, rounds) == run(codec, second, rounds),
        run(codec, first, 5) == DecodeStep::<T>::Done(
            decoded(codec, context, responsible, internal_dst),
        ),
        run(codec, second, 5) == run(codec, first, 5),
{
    run_ends_decoded(codec, context, responsible, internal_dst, 5);
}

/// A body too short for a selector, under a responsible call that applies
/// to the message, fails as malformed and is not classified.
pub proof fn short_reply_is_malformed<T>(
    codec: Codec<T>,
    context: DecodeContext,
    responsible: Option<&ResponsibleCall>,
    internal_dst: Option<&MessageAddress>,
)
    requires
        responsible_applies(responsible, context.is_internal, internal_dst),
        context.body@.len() < 32,
    ensures
        decoded(codec, context, responsible, internal_dst) == Err::<
            DecodedMessageBody,
            DecodeError,
        >(DecodeError::MalformedSelector),
        started::<T>(context, responsible, internal_dst) == DecodeStep::<T>::Done(
            Err(DecodeError::MalformedSelector),
        ),
{
}

/// Without a destination address, or without a responsible call, no body
/// is taken for the answer to one: the classifier decides.
pub proof fn no_reply_without_address<T>(
    codec: Codec<T>,
    context: DecodeContext,
    responsible: Option<&ResponsibleCall>,
    internal_dst: Option<&MessageAddress>,
)
    requires
        responsible is None || internal_dst is None || !context.is_internal,
    ensures
        decoded(codec, context, responsible, internal_dst) == classified(codec, context),
{
}

/// The output trial comes before the input trial: a body on which the
/// output trial succeeds is never classified as an input.
pub proof fn output_trial_wins<T>(codec: Codec<T>, context: DecodeContext)
    requires
        output_trial(codec, context) is Some,
    ensures
        classified(codec, context) matches Ok(body) ==> body.body_type
            == MessageBodyType::Output || body.body_type == MessageBodyType::Event,
        classified(codec, context) matches Ok(body) ==> body.header is None,
{
}

} // verus!
