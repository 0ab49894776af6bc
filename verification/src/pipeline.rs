//! The per-request glue around the user function: bind the decoded batch to
//! the declared parameters in strict left-to-right order, and fold the
//! returned value back into a batch for the response assembler. A failure
//! on the request side is reported before the function would run; the
//! function never observes a malformed or incomplete event set.

use vstd::prelude::*;
use crate::codec::{decode_request, read_cloud_event};
use crate::errors::{BindError, EncodeError, PipelineError};
use crate::event::{Encoding, Event, EventView};
use crate::message::{HttpRequest, HttpResponse};
use crate::response::{accepted_response, binary_response, structured_response,
    effective_encoding, write_cloud_event};
use crate::signature::ParameterSpec;

verus! {

/// Whether a batch of the given length satisfies every required parameter.
pub open spec fn bind_ok(params: Seq<ParameterSpec>, n: int) -> bool {
    forall|i: int|
        0 <= i < params.len() && params[i] == ParameterSpec::RequiredEvent ==> i < n
}

/// What parameter `i` receives from a batch: the event at its own position,
/// nothing when the batch is exhausted.
pub open spec fn bound_arg<T>(batch: Seq<T>, i: int) -> Option<T> {
    if 0 <= i < batch.len() {
        Some(batch[i])
    } else {
        None
    }
}

/// Binds a decoded batch to the declared parameters: the first event to the
/// first parameter and so on, consuming one event per parameter; an
/// exhausted batch binds nothing to an optional parameter and fails on a
/// required one, naming its 1-based position.
#[verifier::loop_isolation(false)]
pub fn bind_events(batch: Vec<Event>, params: &Vec<ParameterSpec>) -> (r: Result<
    Vec<Option<Event>>,
    BindError,
>)
    ensures
        r is Ok <==> bind_ok(params@, batch@.len() as int),
        r matches Ok(args) ==> args@.len() == params@.len() && (forall|i: int|
            0 <= i < params@.len() ==> args@[i] == bound_arg(batch@, i)),
        r matches Err(BindError::MissingRequiredEvent(pos)) ==> 1 <= pos <= params@.len()
            && params@[pos - 1] == ParameterSpec::RequiredEvent && pos - 1 >= batch@.len() && (
        forall|j: int|
            0 <= j < pos - 1 && params@[j] == ParameterSpec::RequiredEvent ==> j
                < batch@.len()),
{
    let ghost orig = batch@;
    let mut events = batch;
    let mut args: Vec<Option<Event>> = Vec::new();
    let mut i: usize = 0;
    while i < params.len()
        invariant
            i <= params@.len(),
            args@.len() == i,
            events@ =~= orig.skip(if i <= orig.len() {
                i as int
            } else {
                orig.len() as int
            }),
            forall|j: int| 0 <= j < i ==> args@[j] == bound_arg(orig, j),
            forall|j: int|
                0 <= j < i && params@[j] == ParameterSpec::RequiredEvent ==> j < orig.len(),
        decreases params@.len() - i,
    {
        let required = match params[i] {
            ParameterSpec::RequiredEvent => true,
            ParameterSpec::OptionalEvent => false,
        };
        if events.len() == 0 {
            proof {
                if (i as int) < orig.len() {
                    assert(events@ =~= orig.skip(i as int));
                    assert(events@.len() > 0);
                }
                assert(i as int >= orig.len());
            }
            if required {
                proof {
                    assert(params@[i as int] == ParameterSpec::RequiredEvent);
                    assert(!bind_ok(params@, orig.len() as int));
                }
                return Err(BindError::MissingRequiredEvent(i + 1));
            }
            args.push(None);
        } else {
            proof {
                assert(i < orig.len());
                assert(events@[0] == orig[i as int]);
                assert(events@.remove(0) =~= orig.skip(i as int + 1));
            }
            let ev = events.remove(0);
            args.push(Some(ev));
        }
        i = i + 1;
    }
    Ok(args)
}

/// A value the user function returned, in one of the accepted shapes.
pub enum FunctionOutput {
    Single(Event),
    Optional(Option<Event>),
    Sequence(Vec<Event>),
}

/// The batch a returned value folds into: one event for a single event,
/// none or one for an optional, the sequence itself unmodified and in
/// order.
pub open spec fn normalized(o: FunctionOutput) -> Seq<Event> {
    match o {
        FunctionOutput::Single(e) => seq![e],
        FunctionOutput::Optional(Some(e)) => seq![e],
        FunctionOutput::Optional(None) => Seq::<Event>::empty(),
        FunctionOutput::Sequence(v) => v@,
    }
}

/// Folds a returned value into a uniform batch of outbound events.
pub fn normalize_output(out: FunctionOutput) -> (r: Vec<Event>)
    ensures
        r@ == normalized(out),
{
    match out {
        FunctionOutput::Single(e) => {
            let mut v: Vec<Event> = Vec::new();
            v.push(e);
            proof {
                assert(v@ =~= normalized(out));
            }
            v
        },
        FunctionOutput::Optional(Some(e)) => {
            let mut v: Vec<Event> = Vec::new();
            v.push(e);
            proof {
                assert(v@ =~= normalized(out));
            }
            v
        },
        FunctionOutput::Optional(None) => {
            let v: Vec<Event> = Vec::new();
            proof {
                assert(v@ =~= normalized(out));
            }
            v
        },
        FunctionOutput::Sequence(v) => v,
    }
}

/// The views of a decoded single-event batch.
pub open spec fn decoded_views(d: Option<(Encoding, EventView)>) -> Seq<EventView> {
    match d {
        Some((_enc, ev)) => seq![ev],
        None => Seq::<EventView>::empty(),
    }
}

/// The encoding a decoded request fixes for the response, none for a
/// zero-event request.
pub open spec fn decoded_encoding(d: Option<(Encoding, EventView)>) -> Option<Encoding> {
    match d {
        Some((enc, _ev)) => Some(enc),
        None => None,
    }
}

pub open spec fn opt_event_view(o: Option<Event>) -> Option<EventView> {
    match o {
        Some(e) => Some(e@),
        None => None,
    }
}

/// The request side of one invocation: decode the request, then bind the
/// batch to the declared parameters. On success the function's arguments
/// and the encoding the request arrived in; otherwise the decode or bind
/// error, and the function is never reached.
pub fn prepare_invocation(req: &HttpRequest, params: &Vec<ParameterSpec>) -> (r: Result<
    (Option<Encoding>, Vec<Option<Event>>),
    PipelineError,
>)
    ensures
        match decode_request(req@) {
            Err(d) => (r matches Err(pe) && pe == PipelineError::Decode(d)),
            Ok(dec) => {
                &&& (bind_ok(params@, decoded_views(dec).len() as int) ==> (r matches Ok(
                    (enc, args),
                ) && enc == decoded_encoding(dec) && args@.len() == params@.len() && (forall|
                    i: int,
                |
                    0 <= i < params@.len() ==> opt_event_view(args@[i]) == bound_arg(
                        decoded_views(dec),
                        i,
                    ))))
                &&& (!bind_ok(params@, decoded_views(dec).len() as int) ==> (r matches Err(pe)
                    && pe matches PipelineError::Bind(BindError::MissingRequiredEvent(pos))
                    && 1 <= pos <= params@.len() && params@[pos - 1]
                    == ParameterSpec::RequiredEvent && pos - 1 >= decoded_views(dec).len() && (
                forall|j: int|
                    0 <= j < pos - 1 && params@[j] == ParameterSpec::RequiredEvent ==> j
                        < decoded_views(dec).len())))
            },
        },
{
    let decoded = match read_cloud_event(req) {
        Ok(d) => d,
        Err(e) => {
            return Err(PipelineError::Decode(e));
        },
    };
    let (enc, batch) = match decoded {
        Some((enc, evs)) => (Some(enc), evs),
        None => (None, Vec::new()),
    };
    let ghost batch_views = decoded_views(match decode_request(req@) {
        Ok(d) => d,
        Err(_) => None,
    });
    proof {
        assert(batch@.len() == batch_views.len());
        assert(forall|i: int| 0 <= i < batch@.len() ==> batch@[i]@ == batch_views[i]);
    }
    match bind_events(batch, params) {
        Ok(args) => Ok((enc, args)),
        Err(e) => Err(PipelineError::Bind(e)),
    }
}

/// Encoding default: the encoding a decoded request fixes is the one the
/// response is assembled in, and a request that fixed none — a zero-event
/// request — falls back to the binary encoding.
pub proof fn lemma_encoding_propagation(d: Option<(Encoding, EventView)>)
    ensures
        d matches Some((enc, ev)) ==> effective_encoding(decoded_encoding(d)) == enc,
        d is None ==> effective_encoding(decoded_encoding(d)) == Encoding::Binary,
{
}

/// The response side of one invocation: fold the returned value into a
/// batch and assemble the response in the encoding the request fixed,
/// binary when it fixed none.
pub fn assemble_response(out: FunctionOutput, enc: Option<Encoding>) -> (r: Result<
    HttpResponse,
    EncodeError,
>)
    ensures
        normalized(out).len() == 0 ==> (r matches Ok(resp) && resp@ == accepted_response()),
        normalized(out).len() == 1 && effective_encoding(enc) == Encoding::Binary ==> (r matches
            Ok(resp) && resp@ == binary_response(normalized(out)[0]@)),
        normalized(out).len() == 1 && effective_encoding(enc) == Encoding::Structured ==> (
        r matches Ok(resp) && resp@ == structured_response(normalized(out)[0]@)),
        normalized(out).len() >= 2 ==> r == Err::<HttpResponse, _>(
            EncodeError::UnsupportedMultiEventResponse,
        ),
{
    let batch = normalize_output(out);
    write_cloud_event(batch, enc)
}

} // verus!
