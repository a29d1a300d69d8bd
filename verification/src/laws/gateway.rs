//! Laws of the gateway.

use vstd::prelude::*;
use vstd::string::*;

use super::auth::{
    has_no_payload, is_payload, missing_payloads_are_missing, suits, the_algorithm_is_spelt,
};
use crate::auth::{AuthConfig, AuthError, TokenClaims};
use crate::gateway::{
    bearer_token, first_failure, fit_in_memory, stream_after, streams_are_published_whole,
    Authentication, IngressAction, IngressEvent, IngressPhase, IngressStream, PublishPlan, Status,
    TelemetryGatewayService,
};
use crate::proto::{samples_of, BatchModel, TelemetryBatch, TelemetryEnvelope, TelemetryFrame};

verus! {

/// The token of an authorization header is what follows `Bearer` and a blank, to the letter;
/// other headers have none.
pub proof fn tokens_follow_the_word_bearer(header: Option<&str>, r: String)
    requires
        call_ensures(bearer_token, (header,), r),
    ensures
        match header {
            Some(value) => {
                let word = seq!['B', 'e', 'a', 'r', 'e', 'r', ' '];
                if value@.len() >= 7 && value@.take(7) == word {
                    value@ == word + r@
                } else {
                    r@.len() == 0
                }
            },
            None => r@.len() == 0,
        },
{
    reveal_strlit("Bearer ");
    assert("Bearer "@ =~= seq!['B', 'e', 'a', 'r', 'e', 'r', ' ']);
    if let Some(value) = header {
        if value@.len() >= 7 && value@.take(7) == "Bearer "@ {
            assert(value@ =~= "Bearer "@ + r@);
        }
    }
}

/// A service has its topic and settings, and holds no keys; keys are fetched beforehand
/// unless authentication is bypassed.
pub proof fn services_begin_without_keys(
    topic: &str,
    config: AuthConfig,
    service: TelemetryGatewayService,
    prefetches: bool,
)
    requires
        call_ensures(TelemetryGatewayService::new, (topic, config), service),
        call_ensures(TelemetryGatewayService::prefetches_keys, (&service,), prefetches),
    ensures
        service.topic@ == topic@,
        service.validator.config == config,
        forall|kid: Seq<char>| !(#[trigger] service.validator.keys@.contains_key(kid)),
        prefetches <==> !config.disabled,
{
}

/// The broker connection is made to the brokers handed in, with a timeout of five seconds and
/// snappy compression.
pub proof fn brokers_are_connected_to(brokers: &str, r: Vec<(String, String)>)
    requires
        call_ensures(TelemetryGatewayService::producer_settings, (brokers,), r),
    ensures
        r@.len() == 3,
        r@[0].0@ == "bootstrap.servers"@ && r@[0].1@ == brokers@,
        r@[1].0@ == "message.timeout.ms"@ && r@[1].1@ == "5000"@,
        r@[2].0@ == "compression.type"@ && r@[2].1@ == "snappy"@,
{
}

/// A token is required unless authentication is bypassed, and its absence is told.
pub proof fn tokens_are_required(
    service: &TelemetryGatewayService,
    token: &str,
    r: Result<(), Status>,
)
    requires
        call_ensures(TelemetryGatewayService::require_token, (service, token), r),
    ensures
        r is Err <==> token@.len() == 0 && !service.validator.config.disabled,
        r matches Err(status) ==> {
            &&& status.code is Unauthenticated
            &&& status.message@ == "Missing authorization header"@
        },
{
}

/// The user of a stream is the subject of its claims, and `anonymous` where there is none; a
/// token that is not accepted is answered with the reason.
pub proof fn users_are_subjects(
    validated: Result<TokenClaims, AuthError>,
    r: Result<String, Status>,
    e: &AuthError,
    reason: String,
)
    requires
        call_ensures(TelemetryGatewayService::validate_token, (validated,), r),
        validated matches Err(refused) ==> *e == refused,
        call_ensures(AuthError::message, (e,), reason),
    ensures
        match validated {
            Ok(claims) => r matches Ok(user) && user@ == (if claims.sub is Some {
                claims.sub->0@
            } else {
                "anonymous"@
            }),
            Err(_) => r matches Err(status) && status.code is Unauthenticated && status.message@
                == "Invalid token: "@ + reason@,
        },
{
}

/// Whether an envelope carries a frame under a user, a source and a rate.
pub open spec fn carries(
    envelope: TelemetryEnvelope,
    user: Seq<char>,
    source: Seq<char>,
    rate: u32,
    frame: TelemetryFrame,
) -> bool {
    &&& envelope.user_id@ == user
    &&& envelope.source@ == source
    &&& envelope.source_rate_hz == rate
    &&& envelope.frame == Some(frame)
}

/// Whether a plan publishes a frame per sample of a batch, in order, under a user and source
/// and the rate of the batch, with user, colon and source as key.
pub open spec fn publishes(
    plan: PublishPlan,
    user: Seq<char>,
    source: Seq<char>,
    rate: u32,
    samples: Seq<TelemetryFrame>,
) -> bool {
    &&& plan.key@ == user + seq![':'] + source
    &&& plan.envelopes@.len() == samples.len()
    &&& forall|i: int|
        0 <= i < samples.len() ==> carries(
            #[trigger] plan.envelopes@[i],
            user,
            source,
            rate,
            samples[i],
        )
}

/// A batch is published as a record per sample, in order, under the user, source and rate of
/// the batch.
pub proof fn batches_are_unnested(batch: &TelemetryBatch, r: PublishPlan)
    requires
        call_ensures(TelemetryGatewayService::publish_frames_at_rate, (batch,), r),
    ensures
        publishes(r, batch.user_id@, batch.source@, batch.source_rate_hz, batch.samples@),
{
    reveal_strlit(":");
    assert(":"@ =~= seq![':']);
    let payloads = r.payloads();
    assert(payloads.len() == r.envelopes@.len());
    assert forall|i: int| 0 <= i < batch.samples@.len() implies carries(
        #[trigger] r.envelopes@[i],
        batch.user_id@,
        batch.source@,
        batch.source_rate_hz,
        batch.samples@[i],
    ) by {
        assert(payloads[i] == r.envelopes@[i]@);
    }
}

/// Where a failure stands among what the broker said.
proof fn first_failures_are_first(failures: Seq<Option<String>>)
    ensures
        match first_failure(failures) {
            None => forall|i: int| 0 <= i < failures.len() ==> (#[trigger] failures[i]) is None,
            Some(reason) => exists|i: int|
                {
                    &&& 0 <= i < failures.len()
                    &&& (#[trigger] failures[i]) is Some
                    &&& failures[i]->0@ == reason
                    &&& forall|j: int| 0 <= j < i ==> (#[trigger] failures[j]) is None
                },
        },
    decreases failures.len(),
{
    if failures.len() > 0 {
        let rest = failures.drop_first();
        first_failures_are_first(rest);
        if failures[0] is None {
            match first_failure(rest) {
                None => {
                    assert forall|i: int| 0 <= i < failures.len() implies (
                    #[trigger] failures[i]) is None by {
                        if i > 0 {
                            assert(rest[i - 1] is None);
                        }
                    }
                },
                Some(reason) => {
                    let i = choose|i: int|
                        {
                            &&& 0 <= i < rest.len()
                            &&& (#[trigger] rest[i]) is Some
                            &&& rest[i]->0@ == reason
                            &&& forall|j: int| 0 <= j < i ==> (#[trigger] rest[j]) is None
                        };
                    assert(failures[i + 1] == rest[i]);
                    assert forall|j: int| 0 <= j < i + 1 implies (
                    #[trigger] failures[j]) is None by {
                        if j > 0 {
                            assert(rest[j - 1] is None);
                        }
                    }
                },
            }
        } else {
            assert(failures[0]->0@ == first_failure(failures)->0);
        }
    }
}

/// Whether the broker took everything, or else gave this reason before any other.
pub open spec fn is_first_reason(failures: Seq<Option<String>>, reason: Option<Seq<char>>) -> bool {
    match reason {
        None => forall|i: int| 0 <= i < failures.len() ==> (#[trigger] failures[i]) is None,
        Some(reason) => exists|i: int|
            {
                &&& 0 <= i < failures.len()
                &&& (#[trigger] failures[i]) is Some
                &&& failures[i]->0@ == reason
                &&& forall|j: int| 0 <= j < i ==> (#[trigger] failures[j]) is None
            },
    }
}

/// A batch is published if the broker took every record; otherwise the first reason counts.
pub proof fn the_first_failure_counts(failures: &Vec<Option<String>>, r: Result<(), String>)
    requires
        call_ensures(TelemetryGatewayService::published, (failures,), r),
    ensures
        match r {
            Ok(_) => is_first_reason(failures@, None),
            Err(text) => exists|reason: Seq<char>|
                #![trigger is_first_reason(failures@, Some(reason))]
                is_first_reason(failures@, Some(reason)) && text@ == "Kafka publish failed: "@
                    + reason,
        },
{
    first_failures_are_first(failures@);
    if let Some(reason) = first_failure(failures@) {
        assert(is_first_reason(failures@, Some(reason)));
    }
}

/// The source that a stream publishes under.
pub open spec fn published_source(sent: Seq<char>) -> Seq<char> {
    if sent == seq!['d', 'e', 'm', 'o'] {
        seq!['d', 'e', 'm', 'o']
    } else {
        seq!['l', 'i', 'v', 'e']
    }
}

/// The letters of both sources.
proof fn sources_are_spelt()
    ensures
        "demo"@ == seq!['d', 'e', 'm', 'o'],
        "live"@ == seq!['l', 'i', 'v', 'e'],
{
    reveal_strlit("demo");
    reveal_strlit("live");
    assert("demo"@ =~= seq!['d', 'e', 'm', 'o']);
    assert("live"@ =~= seq!['l', 'i', 'v', 'e']);
}

/// A stream begins with nothing received.
pub proof fn streams_begin_empty(user: String, r: IngressStream)
    requires
        call_ensures(IngressStream::new, (user,), r),
    ensures
        r.user_id@ == user@,
        r.batches_received == 0,
        r.frames_published == 0,
        r.phase is Receiving,
{
}

/// What a stream does. A batch is counted and published, a frame per sample, under the user of
/// the stream, its own source as demo or live, and its own rate. When the broker has taken
/// everything, its frames are counted and the next message is received; otherwise the client
/// is told the first reason. A stream that breaks off is answered with the reason, and one
/// that ends with both counts. What it does not wait for changes nothing.
pub proof fn streams_attribute_and_count(
    stream: &mut IngressStream,
    event: IngressEvent,
    r: IngressAction,
)
    requires
        old(stream).phase is Receiving && event is Batch ==> old(stream).batches_received
            < u64::MAX,
        old(stream).phase is Publishing && event is Published ==> old(stream).frames_published
            + old(stream).phase->frames <= u64::MAX,
        call_ensures(IngressStream::step, (stream, event), r),
    ensures
        final(stream).user_id@ == old(stream).user_id@,
        match (old(stream).phase, event) {
            (IngressPhase::Receiving, IngressEvent::Batch(batch)) => {
                &&& final(stream).batches_received == old(stream).batches_received + 1
                &&& final(stream).frames_published == old(stream).frames_published
                &&& final(stream).phase matches IngressPhase::Publishing { frames } && frames
                    == batch.samples@.len()
                &&& r matches IngressAction::Publish(plan) && publishes(
                    plan,
                    old(stream).user_id@,
                    published_source(batch.source@),
                    batch.source_rate_hz,
                    batch.samples@,
                )
            },
            (IngressPhase::Receiving, IngressEvent::Broken(reason)) => {
                &&& final(stream).batches_received == old(stream).batches_received
                &&& final(stream).frames_published == old(stream).frames_published
                &&& final(stream).phase is Answered
                &&& r matches IngressAction::Refuse(status) && status.code is Internal
                    && status.message@ == "Stream error: "@ + reason@
            },
            (IngressPhase::Receiving, IngressEvent::End) => {
                &&& final(stream).phase is Answered
                &&& r matches IngressAction::Acknowledge(ack) && ack.batches_received == old(
                    stream,
                ).batches_received && ack.samples_received == old(stream).frames_published
            },
            (IngressPhase::Publishing { frames }, IngressEvent::Published(failures)) => {
                &&& final(stream).batches_received == old(stream).batches_received
                &&& is_first_reason(failures@, None) ==> {
                    &&& final(stream).frames_published == old(stream).frames_published + frames
                    &&& final(stream).phase is Receiving
                    &&& r is Receive
                }
                &&& !is_first_reason(failures@, None) ==> {
                    &&& final(stream).frames_published == old(stream).frames_published
                    &&& final(stream).phase is Answered
                    &&& r matches IngressAction::Refuse(status) && status.code is Internal
                        && exists|reason: Seq<char>|
                        #![trigger is_first_reason(failures@, Some(reason))]
                        is_first_reason(failures@, Some(reason)) && status.message@
                            == "Failed to publish frames: "@ + ("Kafka publish failed: "@ + reason)
                }
            },
            _ => {
                &&& final(stream).batches_received == old(stream).batches_received
                &&& final(stream).frames_published == old(stream).frames_published
                &&& final(stream).phase == old(stream).phase
                &&& r is Nothing
            },
        },
{
    sources_are_spelt();
    reveal_strlit(":");
    assert(":"@ =~= seq![':']);
    match (old(stream).phase, event) {
        (IngressPhase::Receiving, IngressEvent::Batch(batch)) => {
            assert(batch.samples.len() <= usize::MAX);
            if let IngressAction::Publish(plan) = r {
                let payloads = plan.payloads();
                assert(payloads.len() == plan.envelopes@.len());
                assert forall|i: int| 0 <= i < batch.samples@.len() implies carries(
                    #[trigger] plan.envelopes@[i],
                    old(stream).user_id@,
                    published_source(batch.source@),
                    batch.source_rate_hz,
                    batch.samples@[i],
                ) by {
                    assert(payloads[i] == plan.envelopes@[i]@);
                }
            }
        },
        (IngressPhase::Publishing { .. }, IngressEvent::Published(failures)) => {
            first_failures_are_first(failures@);
            if let Some(reason) = first_failure(failures@) {
                assert(is_first_reason(failures@, Some(reason)));
                let i = choose|i: int|
                    0 <= i < failures@.len() && (#[trigger] failures@[i]) is Some;
                assert(!is_first_reason(failures@, None));
            } else {
                assert(is_first_reason(failures@, None));
            }
        },
        _ => {},
    }
}

/// Where the frames of the batch at position `k` begin among those of all.
proof fn batches_are_published_in_turn(user: Seq<char>, batches: Seq<BatchModel>, k: int, i: int)
    requires
        fit_in_memory(batches),
        0 <= k < batches.len(),
        0 <= i < batches[k].samples.len(),
    ensures
        ({
            let published = stream_after(user, batches).1;
            let at = samples_of(batches.take(k)).len() + i;
            &&& 0 <= at < published.len()
            &&& published[at].user_id == user
            &&& published[at].source == published_source(batches[k].source)
            &&& published[at].source_rate_hz == batches[k].source_rate_hz
            &&& published[at].frame == Some(batches[k].samples[i])
        }),
    decreases batches.len(),
{
    sources_are_spelt();
    let front = batches.drop_last();
    crate::gateway::streams_keep_count(user, front);
    streams_are_published_whole(user, front);
    streams_are_published_whole(user, batches);
    if k < batches.len() - 1 {
        assert(fit_in_memory(front)) by {
            assert(forall|j: int| 0 <= j < front.len() ==> #[trigger] front[j] == batches[j]);
        }
        batches_are_published_in_turn(user, front, k, i);
        assert(front.take(k) =~= batches.take(k));
    } else {
        assert(batches.take(k) =~= front);
    }
}

/// Everything that a stream publishes carries the user of the stream, its source as demo or
/// live, and the rate and the sample of the very batch that it came in, batch after batch and
/// sample after sample.
pub proof fn frames_carry_the_rate_of_their_batch(
    user: Seq<char>,
    batches: Seq<BatchModel>,
    k: int,
    i: int,
)
    requires
        fit_in_memory(batches),
        0 <= k < batches.len(),
        0 <= i < batches[k].samples.len(),
    ensures
        stream_after(user, batches).1.len() == samples_of(batches).len(),
        ({
            let published = stream_after(user, batches).1[samples_of(batches.take(k)).len() + i];
            &&& published.user_id == user
            &&& published.source == published_source(batches[k].source)
            &&& published.source_rate_hz == batches[k].source_rate_hz
            &&& published.frame == Some(batches[k].samples[i])
        }),
{
    batches_are_published_in_turn(user, batches, k, i);
    streams_are_published_whole(user, batches);
}

/// How a stream is authenticated. With authentication bypassed it belongs to the development
/// user. Otherwise it needs a token behind `Bearer` and a blank, with a header that names a
/// key; a key that is not held is fetched, and with one that is held the token is accepted
/// only if it holds up, and refused for good only if it does not.
pub proof fn streams_are_authenticated(
    service: &TelemetryGatewayService,
    header: Option<&str>,
    token: String,
    r: Authentication,
)
    requires
        call_ensures(bearer_token, (header,), token),
        call_ensures(TelemetryGatewayService::authenticate, (service, header), r),
    ensures
        ({
            let config = service.validator.config;
            let keys = service.validator.keys@;
            let kid = crate::auth::header_kid(token@);
            let known = kid is Some && kid->0 is Some && keys.contains_key(kid->0->0);
            let key = keys[kid->0->0];
            &&& config.disabled ==> (r matches Authentication::User(user) && user@ == (
            if config.dev_user_id is Some {
                config.dev_user_id->0@
            } else {
                "dev-user"@
            }))
            &&& !config.disabled ==> !(r is User)
            &&& r matches Authentication::Refused(status) ==> status.code is Unauthenticated
            &&& r matches Authentication::Expired(status) ==> status.code is Unauthenticated
                && status.message@ == "Invalid token: "@ + "JWT validation failed"@
            &&& !config.disabled && token@.len() == 0 ==> (r matches Authentication::Refused(status)
                && status.message@ == "Missing authorization header"@)
            &&& !config.disabled && token@.len() > 0 ==> {
                &&& kid is None ==> (r matches Authentication::Refused(status) && status.message@
                    == "Invalid token: "@ + "Invalid JWT header"@)
                &&& kid == Some(None::<Seq<char>>) ==> (r matches Authentication::Refused(status)
                    && status.message@ == "Invalid token: "@ + "JWT missing kid header"@)
                &&& kid is Some && kid->0 is Some && !keys.contains_key(kid->0->0) ==> (
                r matches Authentication::Refresh { token: t, kid: k } && t@ == token@ && k@
                    == kid->0->0)
                &&& known ==> (r is Payload || r is Expired || r is Refused)
                &&& known && r is Payload ==> {
                    &&& suits(config, token@, key)
                    &&& is_payload(token@, r->Payload_0@)
                }
                &&& known && r is Refused ==> {
                    &&& !suits(config, token@, key) || has_no_payload(token@)
                    &&& r->Refused_0.message@ == "Invalid token: "@ + "JWT validation failed"@
                }
            }
        }),
{
    the_algorithm_is_spelt();
    missing_payloads_are_missing(token@);
}

/// Every header, batch and event is taken, as far as the counts of a stream go.
pub proof fn gateways_take_everything(
    header: Option<&str>,
    text: &str,
    config: AuthConfig,
    service: &TelemetryGatewayService,
    validated: Result<TokenClaims, AuthError>,
    batch: &TelemetryBatch,
    failures: &Vec<Option<String>>,
    user: String,
    stream: &mut IngressStream,
    event: IngressEvent,
)
    ensures
        call_requires(bearer_token, (header,)),
        call_requires(TelemetryGatewayService::new, (text, config)),
        call_requires(TelemetryGatewayService::producer_settings, (text,)),
        call_requires(TelemetryGatewayService::prefetches_keys, (service,)),
        call_requires(TelemetryGatewayService::require_token, (service, text)),
        call_requires(TelemetryGatewayService::validate_token, (validated,)),
        call_requires(TelemetryGatewayService::authenticate, (service, header)),
        call_requires(TelemetryGatewayService::publish_frames_at_rate, (batch,)),
        call_requires(TelemetryGatewayService::published, (failures,)),
        call_requires(IngressStream::new, (user,)),
        (old(stream).phase is Receiving && event is Batch ==> old(stream).batches_received
            < u64::MAX) && (old(stream).phase is Publishing && event is Published ==> old(
            stream,
        ).frames_published + old(stream).phase->frames <= u64::MAX) ==> call_requires(
            IngressStream::step,
            (stream, event),
        ),
{
}

} // verus!
