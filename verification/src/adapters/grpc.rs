//! Parsing and replies for the user-command gRPC service.
//!
//! Device identifiers are parsed as `DEVICE#Source`; malformed keys, refused transitions and a
//! missing snooze wake time are invalid arguments; a full user queue is resource exhaustion; a
//! stopped coordinator and failed publishes are internal errors.

use std::time::Duration;

use vstd::prelude::*;

use crate::engine::ingress::ChannelSendError;
use crate::metrics::{observed, saturated_millis, Metrics, MetricsView};
use crate::model::errors::{update_error_text, UpdateError};
use crate::model::key::{key_string, parse_key_spec, Key, KeyView};
use crate::model::status::Timestamp;
use crate::model::user_action::UserAction;
use crate::text::{join, join_spec, string_views};

verus! {

/// A gRPC error reply: its status code and message.
#[derive(Debug)]
pub enum GrpcError {
    InvalidArgument(String),
    Internal(String),
    ResourceExhausted(String),
}

/// The parse errors among `devices`, in order.
pub open spec fn key_errors(devices: Seq<String>) -> Seq<Seq<char>>
    decreases devices.len(),
{
    if devices.len() == 0 {
        Seq::empty()
    } else {
        let rest = key_errors(devices.drop_last());
        match parse_key_spec(devices.last()@) {
            Ok(_) => rest,
            Err(e) => rest.push(e),
        }
    }
}

/// Parses every device identifier; if any fails, the reply is an invalid argument listing every
/// parse error, joined by `"; "`.
pub fn build_keys(devices: &Vec<String>) -> (r: Result<Vec<Key>, GrpcError>)
    ensures
        match r {
            Ok(keys) => key_errors(devices@).len() == 0 && keys@.len() == devices@.len() && forall|i: int|
                0 <= i < devices@.len() ==> Ok::<KeyView, Seq<char>>(#[trigger] keys@[i]@) == parse_key_spec(devices@[i]@),
            Err(e) => e matches GrpcError::InvalidArgument(msg) && msg@ == join_spec(key_errors(devices@), "; "@)
                && key_errors(devices@).len() > 0,
        },
{
    let mut keys: Vec<Key> = Vec::new();
    let mut errs: Vec<String> = Vec::new();
    let mut i: usize = 0;
    while i < devices.len()
        invariant
            i <= devices@.len(),
            string_views(errs@) == key_errors(devices@.subrange(0, i as int)),
            key_errors(devices@.subrange(0, i as int)).len() == 0 ==> keys@.len() == i && forall|j: int|
                0 <= j < i ==> Ok::<KeyView, Seq<char>>(#[trigger] keys@[j]@) == parse_key_spec(devices@[j]@),
        decreases devices@.len() - i,
    {
        proof {
            assert(devices@.subrange(0, i + 1).drop_last() =~= devices@.subrange(0, i as int));
            assert(devices@.subrange(0, i + 1).last() == devices@[i as int]);
        }
        match Key::try_from(devices[i].as_str()) {
            Ok(key) => {
                keys.push(key);
            },
            Err(text) => {
                errs.push(text);
                proof {
                    assert(string_views(errs@) =~= key_errors(devices@.subrange(0, i as int)).push(errs@.last()@));
                }
            },
        }
        i = i + 1;
    }
    assert(devices@.subrange(0, devices@.len() as int) =~= devices@);
    if errs.len() == 0 {
        Ok(keys)
    } else {
        Err(GrpcError::InvalidArgument(join(&errs, "; ")))
    }
}

/// What came back on a confirmation channel.
pub enum ConfirmationResult {
    /// The coordinator dropped the channel without answering.
    Dropped,
    /// The coordinator answered.
    Answered(Result<(), UpdateError>),
}

/// The message for a confirmation the coordinator never answered.
pub open spec fn dropped_text(k: KeyView) -> Seq<char> {
    "State machine is down. Did not process "@ + key_string(k) + "."@
}

/// The refused transitions among the answers, as messages, in order.
pub open spec fn bad_request_texts(results: Seq<ConfirmationResult>) -> Seq<Seq<char>>
    decreases results.len(),
{
    if results.len() == 0 {
        Seq::empty()
    } else {
        let rest = bad_request_texts(results.drop_last());
        match results.last() {
            ConfirmationResult::Answered(Err(e)) => match e {
                UpdateError::StateNotAllowed(_) => rest.push(update_error_text(e)),
                UpdateError::Internal(_) => rest,
            },
            _ => rest,
        }
    }
}

/// The internal failures among the answers, as messages, in order: a dropped channel names the
/// key it was for.
pub open spec fn internal_texts(results: Seq<ConfirmationResult>, keys: Seq<Key>) -> Seq<Seq<char>>
    decreases results.len(),
{
    if results.len() == 0 {
        Seq::empty()
    } else {
        let rest = internal_texts(results.drop_last(), keys);
        match results.last() {
            ConfirmationResult::Dropped => rest.push(dropped_text(keys[results.len() - 1]@)),
            ConfirmationResult::Answered(Err(e)) => match e {
                UpdateError::Internal(_) => rest.push(update_error_text(e)),
                UpdateError::StateNotAllowed(_) => rest,
            },
            ConfirmationResult::Answered(Ok(_)) => rest,
        }
    }
}

/// The reply for collected bad requests and internal failures.
pub open spec fn grpc_result_spec(bad: Seq<Seq<char>>, internal: Seq<Seq<char>>) -> Result<(), (u8, Seq<char>)> {
    if bad.len() == 0 && internal.len() == 0 {
        Ok(())
    } else if internal.len() == 0 {
        Err((0u8, join_spec(bad, "; "@)))
    } else {
        let extra = if bad.len() == 0 {
            Seq::<char>::empty()
        } else {
            "\n - \nAdditionally, some requests were malformed: "@ + join_spec(bad, "; "@)
        };
        Err((1u8, "Failed processing requests: "@ + join_spec(internal, ";"@) + extra))
    }
}

/// The code and message of an error reply: 0 for invalid argument, 1 for internal, 2 for
/// resource exhaustion.
pub open spec fn grpc_error_parts(e: GrpcError) -> (u8, Seq<char>) {
    match e {
        GrpcError::InvalidArgument(m) => (0u8, m@),
        GrpcError::Internal(m) => (1u8, m@),
        GrpcError::ResourceExhausted(m) => (2u8, m@),
    }
}

/// A reply matches its specification.
pub open spec fn reply_is(r: Result<(), GrpcError>, expected: Result<(), (u8, Seq<char>)>) -> bool {
    match (r, expected) {
        (Ok(_), Ok(_)) => true,
        (Err(e), Err(p)) => grpc_error_parts(e) == p,
        _ => false,
    }
}

/// Builds the reply: success when nothing went wrong; an invalid argument listing the bad
/// requests when only requests were bad; otherwise an internal error listing the internal
/// failures, with any bad requests appended.
pub fn build_grpc_result(bad_requests: Vec<String>, internal_errs: Vec<String>) -> (r: Result<(), GrpcError>)
    ensures
        reply_is(r, grpc_result_spec(string_views(bad_requests@), string_views(internal_errs@))),
{
    if bad_requests.len() == 0 && internal_errs.len() == 0 {
        Ok(())
    } else if internal_errs.len() == 0 {
        Err(GrpcError::InvalidArgument(join(&bad_requests, "; ")))
    } else {
        let bad_request_msg = if bad_requests.len() == 0 {
            String::new()
        } else {
            let joined = join(&bad_requests, "; ");
            String::from_str("\n - \nAdditionally, some requests were malformed: ").concat(joined.as_str())
        };
        let internal = join(&internal_errs, ";");
        let mut msg = String::from_str("Failed processing requests: ");
        msg.append(internal.as_str());
        msg.append(bad_request_msg.as_str());
        Err(GrpcError::Internal(msg))
    }
}

/// Sorts the confirmations of a command into bad requests and internal failures, records how
/// long the command took, and builds the reply.
pub fn handle_confirmation(
    results: Vec<ConfirmationResult>,
    keys: &Vec<Key>,
    metrics: &mut Metrics,
    latency: Duration,
) -> (r: Result<(), GrpcError>)
    requires
        results@.len() <= keys@.len(),
        old(metrics).wf(),
        old(metrics)@.confirmation_latency_ms.samples < u64::MAX,
    ensures
        final(metrics).wf(),
        final(metrics)@ == (MetricsView {
            confirmation_latency_ms: observed(old(metrics)@.confirmation_latency_ms, saturated_millis(latency)),
            ..old(metrics)@
        }),
        reply_is(r, grpc_result_spec(bad_request_texts(results@), internal_texts(results@, keys@))),
{
    let mut bad_requests: Vec<String> = Vec::new();
    let mut internal_errs: Vec<String> = Vec::new();
    let ghost all = results@;
    let total: usize = results.len();
    let mut index: usize = 0;
    let mut rest = results;
    while rest.len() > 0
        invariant
            index + rest@.len() == all.len(),
            all.len() == total,
            all.len() <= keys@.len(),
            rest@ == all.subrange(index as int, all.len() as int),
            string_views(bad_requests@) == bad_request_texts(all.subrange(0, index as int)),
            string_views(internal_errs@) == internal_texts(all.subrange(0, index as int), keys@),
        decreases rest@.len(),
    {
        let result = rest.remove(0);
        proof {
            let pre = all.subrange(0, index as int);
            let post = all.subrange(0, index + 1);
            assert(post.drop_last() =~= pre);
            assert(post.last() == result);
            assert(post.len() - 1 == index);
        }
        match result {
            ConfirmationResult::Dropped => {
                let key_text = keys[index].to_string();
                let mut msg = String::from_str("State machine is down. Did not process ");
                msg.append(key_text.as_str());
                msg.append(".");
                internal_errs.push(msg);
                proof {
                    assert(string_views(internal_errs@) =~= string_views(internal_errs@.drop_last()).push(internal_errs@.last()@));
                }
            },
            ConfirmationResult::Answered(Err(e)) => {
                let text = e.to_message();
                match e {
                    UpdateError::Internal(_) => {
                        internal_errs.push(text);
                        proof {
                            assert(string_views(internal_errs@) =~= string_views(internal_errs@.drop_last()).push(internal_errs@.last()@));
                        }
                    },
                    UpdateError::StateNotAllowed(_) => {
                        bad_requests.push(text);
                        proof {
                            assert(string_views(bad_requests@) =~= string_views(bad_requests@.drop_last()).push(bad_requests@.last()@));
                        }
                    },
                }
            },
            ConfirmationResult::Answered(Ok(())) => {},
        }
        index = index + 1;
    }
    assert(all.subrange(0, all.len() as int) =~= all);
    metrics.record_confirmation_latency(latency);
    build_grpc_result(bad_requests, internal_errs)
}

/// The reply for a user command the queue refused: a full queue is resource exhaustion; a
/// closed queue means the coordinator has stopped.
pub fn map_user_send_error(error: ChannelSendError) -> (e: GrpcError)
    ensures
        error == ChannelSendError::Full ==> grpc_error_parts(e) == (2u8,
        "Alarm command queue is full; rejecting request instead of waiting behind backlog"@),
        error == ChannelSendError::Closed ==> grpc_error_parts(e) == (1u8, "The alarms state machine has shut down!"@),
{
    match error {
        ChannelSendError::Full => GrpcError::ResourceExhausted(
            String::from_str("Alarm command queue is full; rejecting request instead of waiting behind backlog"),
        ),
        ChannelSendError::Closed => GrpcError::Internal(String::from_str("The alarms state machine has shut down!")),
    }
}

/// The reply when the coordinator stops before answering a snapshot request.
pub fn snapshot_unavailable() -> (e: GrpcError)
    ensures
        grpc_error_parts(e) == (1u8, "The alarms state machine has shut down!"@),
{
    GrpcError::Internal(String::from_str("The alarms state machine has shut down!"))
}

/// The user action a snooze request asks for: a bypass until the wake time, which is required.
pub fn snooze_action(wake: Option<Timestamp>) -> (r: Result<UserAction, GrpcError>)
    ensures
        match wake {
            Some(w) => r matches Ok(UserAction::Bypass(Some(x))) && x == w,
            None => r matches Err(e) && grpc_error_parts(e) == (0u8, "wake timestamp is required"@),
        },
{
    match wake {
        Some(w) => Ok(UserAction::Bypass(Some(w))),
        None => Err(GrpcError::InvalidArgument(String::from_str("wake timestamp is required"))),
    }
}

} // verus!
