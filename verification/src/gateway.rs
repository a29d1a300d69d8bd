//! Decisions of the ingress gateway.
//!
//! The gateway receives streams of batches from sim rigs, authenticates them, unnests the
//! batches into frames and publishes each frame to the broker.

use vstd::prelude::*;
use vstd::string::*;

use crate::auth::{
    dev_user, header_kid, AuthConfig, AuthError, JwtValidator, RsaKey, TokenClaims, Validation,
};
use crate::proto::{
    samples_of, BatchModel, EnvelopeModel, IngressAck, TelemetryBatch, TelemetryEnvelope,
};
use crate::text::{begins_with, joined, same_text, strip_prefix};

verus! {

/// The kinds of refusal that a client is told.
#[derive(Debug, Clone, Copy, PartialEq, Eq, Structural)]
pub enum StatusCode {
    /// The client has not proved who it is.
    Unauthenticated,
    /// The gateway failed.
    Internal,
}

/// The answer to a refused stream.
#[derive(Debug, Clone, PartialEq, Eq)]
pub struct Status {
    pub code: StatusCode,
    pub message: String,
}

/// Whether an answer has this code and message.
pub open spec fn is_status(status: Status, code: StatusCode, message: Seq<char>) -> bool {
    status.code == code && status.message@ == message
}

/// The token in an authorization header: what follows `Bearer `, and nothing where there
/// is no such header.
pub open spec fn bearer(header: Option<Seq<char>>) -> Seq<char> {
    match header {
        Some(value) if begins_with(value, "Bearer "@) => value.skip("Bearer "@.len() as int),
        _ => Seq::<char>::empty(),
    }
}

/// Takes the token out of an authorization header.
pub fn bearer_token(header: Option<&str>) -> (r: String)
    ensures
        r@ == bearer(
            match header {
                Some(value) => Some(value@),
                None => None,
            },
        ),
{
    match header {
        Some(value) => match strip_prefix(value, "Bearer ") {
            Some(token) => token.to_owned(),
            None => String::new(),
        },
        None => String::new(),
    }
}

/// The identity of a stream whose token has been looked at.
pub open spec fn identity(claims: TokenClaims) -> Seq<char> {
    match claims.sub {
        Some(user) => user@,
        None => "anonymous"@,
    }
}

/// The source that frames are published under: demo data stays demo data, and everything
/// else is live.
pub open spec fn normalized_source(source: Seq<char>) -> Seq<char> {
    if source == "demo"@ {
        source
    } else {
        "live"@
    }
}

/// A received batch as it is published: under the authenticated identity and the
/// normalized source.
pub open spec fn attributed(user_id: Seq<char>, batch: BatchModel) -> BatchModel {
    BatchModel { user_id, source: normalized_source(batch.source), ..batch }
}

/// The broker key of a batch: user and source, with a colon between.
pub open spec fn record_key(batch: BatchModel) -> Seq<char> {
    batch.user_id + ":"@ + batch.source
}

/// One envelope per sample of a batch, in order.
pub open spec fn envelopes_of(batch: BatchModel) -> Seq<EnvelopeModel> {
    Seq::new(
        batch.samples.len(),
        |i: int|
            EnvelopeModel {
                user_id: batch.user_id,
                source: batch.source,
                source_rate_hz: batch.source_rate_hz,
                frame: Some(batch.samples[i]),
            },
    )
}

/// The records that a batch is published as.
#[derive(Debug, Clone, PartialEq, Eq)]
pub struct PublishPlan {
    /// The key of every record.
    pub key: String,
    /// The payload of each record, before encoding.
    pub envelopes: Vec<TelemetryEnvelope>,
}

impl PublishPlan {
    /// The payloads, as mathematical values.
    pub open spec fn payloads(&self) -> Seq<EnvelopeModel> {
        Seq::new(self.envelopes@.len(), |i: int| self.envelopes@[i]@)
    }
}

/// What the authorization header of a stream comes to.
pub enum Authentication {
    /// The stream is accepted for this user.
    User(String),
    /// The stream is accepted if the payload of its token, JSON, can be read as claims.
    Payload(Vec<u8>),
    /// Fetch the keys anew, then look at the token again with the key of this id.
    Refresh { token: String, kid: String },
    /// The stream is refused with this answer, because the time of its token is over.
    Expired(Status),
    /// The stream is refused with this answer, for another reason.
    Refused(Status),
}

/// The gateway service, apart from its broker connection.
pub struct TelemetryGatewayService {
    /// The topic that frames are published to.
    pub topic: String,
    pub validator: JwtValidator,
}

impl TelemetryGatewayService {
    /// A service that holds no keys yet.
    pub fn new(kafka_topic: &str, auth_config: AuthConfig) -> (r: TelemetryGatewayService)
        ensures
            r.topic@ == kafka_topic@,
            r.validator.config == auth_config,
            r.validator.keys@ == Map::<Seq<char>, RsaKey>::empty(),
    {
        TelemetryGatewayService {
            topic: kafka_topic.to_owned(),
            validator: JwtValidator::new(auth_config),
        }
    }

    /// The settings of the broker connection, as names and values.
    pub fn producer_settings(kafka_brokers: &str) -> (r: Vec<(String, String)>)
        ensures
            r@.len() == 3,
            r@[0].0@ == "bootstrap.servers"@ && r@[0].1@ == kafka_brokers@,
            r@[1].0@ == "message.timeout.ms"@ && r@[1].1@ == "5000"@,
            r@[2].0@ == "compression.type"@ && r@[2].1@ == "snappy"@,
    {
        let mut r: Vec<(String, String)> = Vec::new();
        r.push(("bootstrap.servers".to_owned(), kafka_brokers.to_owned()));
        r.push(("message.timeout.ms".to_owned(), "5000".to_owned()));
        r.push(("compression.type".to_owned(), "snappy".to_owned()));
        r
    }

    /// Whether the keys are fetched before the first stream.
    pub fn prefetches_keys(&self) -> (r: bool)
        ensures
            r == !self.validator.config.disabled,
    {
        !self.validator.config.disabled
    }

    /// Refuses a stream without a token, unless authentication is bypassed.
    pub fn require_token(&self, token: &str) -> (r: Result<(), Status>)
        ensures
            match r {
                Ok(_) => token@.len() > 0 || self.validator.config.disabled,
                Err(status) => {
                    &&& token@.len() == 0 && !self.validator.config.disabled
                    &&& is_status(
                        status,
                        StatusCode::Unauthenticated,
                        "Missing authorization header"@,
                    )
                },
            },
    {
        if token.is_empty() && !self.validator.config.disabled {
            Err(
                Status {
                    code: StatusCode::Unauthenticated,
                    message: "Missing authorization header".to_owned(),
                },
            )
        } else {
            Ok(())
        }
    }

    /// Turns the outcome of token validation into the user of the stream, or into the
    /// answer that refuses it.
    pub fn validate_token(validated: Result<TokenClaims, AuthError>) -> (r: Result<String, Status>)
        ensures
            match validated {
                Ok(claims) => r matches Ok(user) && user@ == identity(claims),
                Err(e) => r matches Err(status) && is_status(
                    status,
                    StatusCode::Unauthenticated,
                    "Invalid token: "@ + e.described(),
                ),
            },
    {
        match validated {
            Ok(claims) => match claims.sub {
                Some(user) => Ok(user),
                None => Ok("anonymous".to_owned()),
            },
            Err(e) => Err(
                Status {
                    code: StatusCode::Unauthenticated,
                    message: joined("Invalid token: ", e.message().as_str()),
                },
            ),
        }
    }

    /// Authenticates a stream by its authorization header, with the keys that are held.
    ///
    /// With authentication bypassed everybody is the development user. Otherwise a stream
    /// without a token is refused, and so is one whose token is refused. A token that holds
    /// up is refused only if its time is over.
    pub fn authenticate(&self, header: Option<&str>) -> (r: Authentication)
        ensures
            self.validator.config.disabled ==> r is User && r->User_0@ == dev_user(
                self.validator.config,
            ),
            !self.validator.config.disabled ==> {
                let token = bearer(
                    match header {
                        Some(value) => Some(value@),
                        None => None,
                    },
                );
                if token.len() == 0 {
                    r is Refused && is_status(
                        r->Refused_0,
                        StatusCode::Unauthenticated,
                        "Missing authorization header"@,
                    )
                } else {
                    match header_kid(token) {
                        None => r is Refused && is_status(
                            r->Refused_0,
                            StatusCode::Unauthenticated,
                            "Invalid token: "@ + "Invalid JWT header"@,
                        ),
                        Some(None) => r is Refused && is_status(
                            r->Refused_0,
                            StatusCode::Unauthenticated,
                            "Invalid token: "@ + "JWT missing kid header"@,
                        ),
                        Some(Some(kid)) => if self.validator.keys@.contains_key(kid) {
                            match r {
                                Authentication::Payload(payload) => self.validator.accepts_payload(
                                    token,
                                    self.validator.keys@[kid],
                                    payload@,
                                ),
                                Authentication::Expired(status) => is_status(
                                    status,
                                    StatusCode::Unauthenticated,
                                    "Invalid token: "@ + "JWT validation failed"@,
                                ),
                                Authentication::Refused(status) => {
                                    &&& self.validator.refuses(
                                        token,
                                        self.validator.keys@[kid],
                                        AuthError::ValidationFailed,
                                    )
                                    &&& is_status(
                                        status,
                                        StatusCode::Unauthenticated,
                                        "Invalid token: "@ + "JWT validation failed"@,
                                    )
                                },
                                _ => false,
                            }
                        } else {
                            r matches Authentication::Refresh { token: t, kid: k } && t@ == token
                                && k@ == kid
                        },
                    }
                }
            },
    {
        let token = bearer_token(header);
        if let Err(status) = self.require_token(token.as_str()) {
            return Authentication::Refused(status);
        }
        match self.validator.validate(token.as_str()) {
            Validation::Claims(claims) => match Self::validate_token(Ok(claims)) {
                Ok(user) => Authentication::User(user),
                Err(status) => Authentication::Refused(status),
            },
            Validation::Payload(payload) => Authentication::Payload(payload),
            Validation::Refresh(kid) => Authentication::Refresh { token, kid },
            Validation::Refuse(e) => {
                let expired = matches!(e, AuthError::Expired);
                match Self::validate_token(Err(e)) {
                    Ok(user) => Authentication::User(user),
                    Err(status) => if expired {
                        Authentication::Expired(status)
                    } else {
                        Authentication::Refused(status)
                    },
                }
            },
        }
    }

    /// Unnests a batch into the records that it is published as.
    pub fn publish_frames_at_rate(batch: &TelemetryBatch) -> (r: PublishPlan)
        ensures
            r.key@ == record_key(batch@),
            r.payloads() == envelopes_of(batch@),
    {
        let mut key = joined(batch.user_id.as_str(), ":");
        key.append(batch.source.as_str());
        let mut envelopes: Vec<TelemetryEnvelope> = Vec::new();
        let mut i: usize = 0;
        while i < batch.samples.len()
            invariant
                i <= batch.samples@.len(),
                envelopes@.len() == i,
                forall|j: int|
                    0 <= j < i ==> (#[trigger] envelopes@[j])@ == envelopes_of(batch@)[j],
            decreases batch.samples@.len() - i,
        {
            envelopes.push(
                TelemetryEnvelope {
                    user_id: batch.user_id.clone(),
                    source: batch.source.clone(),
                    source_rate_hz: batch.source_rate_hz,
                    frame: Some(batch.samples[i]),
                },
            );
            i = i + 1;
        }
        let plan = PublishPlan { key, envelopes };
        proof {
            assert(plan.payloads() =~= envelopes_of(batch@));
        }
        plan
    }

    /// Whether a batch has been published, given for each of its records nothing, or the
    /// reason why the broker did not take it. The first such reason counts.
    pub fn published(failures: &Vec<Option<String>>) -> (r: Result<(), String>)
        ensures
            match first_failure(failures@) {
                Some(reason) => r matches Err(text) && text@ == publish_failure(reason),
                None => r is Ok,
            },
    {
        let mut i: usize = 0;
        proof {
            assert(failures@.skip(0) =~= failures@);
        }
        while i < failures.len()
            invariant
                i <= failures@.len(),
                first_failure(failures@.skip(i as int)) == first_failure(failures@),
            decreases failures@.len() - i,
        {
            if let Some(reason) = &failures[i] {
                return Err(joined("Kafka publish failed: ", reason.as_str()));
            }
            proof {
                assert(failures@.skip(i as int).drop_first() =~= failures@.skip(i + 1));
            }
            i = i + 1;
        }
        Ok(())
    }
}

/// The first reason why the broker did not take a record, if there is one.
pub open spec fn first_failure(failures: Seq<Option<String>>) -> Option<Seq<char>>
    decreases failures.len(),
{
    if failures.len() == 0 {
        None
    } else {
        match failures.first() {
            Some(reason) => Some(reason@),
            None => first_failure(failures.drop_first()),
        }
    }
}

/// The failure to publish a batch, in words.
pub open spec fn publish_failure(reason: Seq<char>) -> Seq<char> {
    "Kafka publish failed: "@ + reason
}

/// What an authenticated stream waits for.
#[derive(Debug, Clone, Copy, PartialEq, Eq, Structural)]
pub enum IngressPhase {
    /// For the next message of the client.
    Receiving,
    /// For the broker to take the frames of a batch.
    Publishing { frames: usize },
    /// For nothing more: the stream has been answered.
    Answered,
}

/// An authenticated stream.
pub struct IngressStream {
    /// The authenticated user.
    pub user_id: String,
    pub batches_received: u64,
    pub frames_published: u64,
    pub phase: IngressPhase,
}

/// What an [`IngressStream`] holds, as mathematical values.
pub struct IngressModel {
    pub user_id: Seq<char>,
    pub batches_received: nat,
    pub frames_published: nat,
    pub phase: IngressPhase,
}

impl View for IngressStream {
    type V = IngressModel;

    open spec fn view(&self) -> IngressModel {
        IngressModel {
            user_id: self.user_id@,
            batches_received: self.batches_received as nat,
            frames_published: self.frames_published as nat,
            phase: self.phase,
        }
    }
}

/// What happens to a stream.
#[derive(Debug, Clone, PartialEq, Eq)]
pub enum IngressEvent {
    /// The client sent a batch.
    Batch(TelemetryBatch),
    /// The broker has dealt with the records of a batch: for each nothing, or the reason
    /// why it did not take the record.
    Published(Vec<Option<String>>),
    /// The stream broke off, for the reason given.
    Broken(String),
    /// The client has sent everything.
    End,
}

/// What a stream does next.
#[derive(Debug, Clone, PartialEq, Eq)]
pub enum IngressAction {
    /// Publish these records.
    Publish(PublishPlan),
    /// Receive the next message.
    Receive,
    /// Answer the client with success.
    Acknowledge(IngressAck),
    /// Answer the client with a refusal.
    Refuse(Status),
    /// Nothing: the event is not one that the stream waits for.
    Nothing,
}

/// What an [`IngressEvent`] comes to, as mathematical values.
pub enum IngressEventModel {
    Batch(BatchModel),
    /// The broker has taken everything, or has not, for the first reason that it gave.
    Published(Option<Seq<char>>),
    Broken(Seq<char>),
    End,
}

/// What an [`IngressAction`] holds, as mathematical values.
pub enum IngressActionModel {
    Publish { key: Seq<char>, payloads: Seq<EnvelopeModel> },
    Receive,
    Acknowledge { batches_received: nat, samples_received: nat },
    Refuse { code: StatusCode, message: Seq<char> },
    Nothing,
}

impl View for IngressEvent {
    type V = IngressEventModel;

    open spec fn view(&self) -> IngressEventModel {
        match *self {
            IngressEvent::Batch(batch) => IngressEventModel::Batch(batch@),
            IngressEvent::Published(failures) => IngressEventModel::Published(
                first_failure(failures@),
            ),
            IngressEvent::Broken(reason) => IngressEventModel::Broken(reason@),
            IngressEvent::End => IngressEventModel::End,
        }
    }
}

impl View for IngressAction {
    type V = IngressActionModel;

    open spec fn view(&self) -> IngressActionModel {
        match *self {
            IngressAction::Publish(plan) => IngressActionModel::Publish {
                key: plan.key@,
                payloads: plan.payloads(),
            },
            IngressAction::Receive => IngressActionModel::Receive,
            IngressAction::Acknowledge(ack) => IngressActionModel::Acknowledge {
                batches_received: ack.batches_received as nat,
                samples_received: ack.samples_received as nat,
            },
            IngressAction::Refuse(status) => IngressActionModel::Refuse {
                code: status.code,
                message: status.message@,
            },
            IngressAction::Nothing => IngressActionModel::Nothing,
        }
    }
}

/// Where a stream stands after an event, and what it does then.
///
/// A batch is counted, attributed to the authenticated user and published. Its frames
/// count once the broker has taken all of them, and only then is the next message
/// received; otherwise the stream is refused. At its end it is acknowledged.
pub open spec fn ingress_step(stream: IngressModel, event: IngressEventModel) -> (
    IngressModel,
    IngressActionModel,
) {
    match (stream.phase, event) {
        (IngressPhase::Receiving, IngressEventModel::Batch(batch)) => {
            let published = attributed(stream.user_id, batch);
            (
                IngressModel {
                    batches_received: stream.batches_received + 1,
                    phase: IngressPhase::Publishing { frames: batch.samples.len() as usize },
                    ..stream
                },
                IngressActionModel::Publish {
                    key: record_key(published),
                    payloads: envelopes_of(published),
                },
            )
        },
        (IngressPhase::Receiving, IngressEventModel::Broken(reason)) => (
            IngressModel { phase: IngressPhase::Answered, ..stream },
            IngressActionModel::Refuse {
                code: StatusCode::Internal,
                message: "Stream error: "@ + reason,
            },
        ),
        (IngressPhase::Receiving, IngressEventModel::End) => (
            IngressModel { phase: IngressPhase::Answered, ..stream },
            IngressActionModel::Acknowledge {
                batches_received: stream.batches_received,
                samples_received: stream.frames_published,
            },
        ),
        (IngressPhase::Publishing { frames }, IngressEventModel::Published(None)) => (
            IngressModel {
                frames_published: stream.frames_published + frames as nat,
                phase: IngressPhase::Receiving,
                ..stream
            },
            IngressActionModel::Receive,
        ),
        (IngressPhase::Publishing { .. }, IngressEventModel::Published(Some(reason))) => (
            IngressModel { phase: IngressPhase::Answered, ..stream },
            IngressActionModel::Refuse {
                code: StatusCode::Internal,
                message: "Failed to publish frames: "@ + publish_failure(reason),
            },
        ),
        _ => (stream, IngressActionModel::Nothing),
    }
}

impl IngressStream {
    /// A stream that has received nothing.
    pub fn new(user_id: String) -> (r: IngressStream)
        ensures
            r@ == new_stream(user_id@),
    {
        IngressStream {
            user_id,
            batches_received: 0,
            frames_published: 0,
            phase: IngressPhase::Receiving,
        }
    }

    /// Attributes a batch to the authenticated user.
    fn attribute(&self, batch: TelemetryBatch) -> (r: TelemetryBatch)
        ensures
            r@ == attributed(self.user_id@, batch@),
    {
        let mut batch = batch;
        batch.user_id = self.user_id.clone();
        if !same_text(batch.source.as_str(), "demo") {
            batch.source = "live".to_owned();
        }
        batch
    }

    /// Advances the stream by one event and says what it does next.
    pub fn step(&mut self, event: IngressEvent) -> (r: IngressAction)
        requires
            old(self).phase is Receiving && event is Batch ==> old(self).batches_received
                < u64::MAX,
            old(self).phase is Publishing && event is Published ==> old(self).frames_published
                + old(self).phase->frames <= u64::MAX,
        ensures
            (final(self)@, r@) == ingress_step(old(self)@, event@),
    {
        match (self.phase, event) {
            (IngressPhase::Receiving, IngressEvent::Batch(batch)) => {
                let batch = self.attribute(batch);
                self.batches_received = self.batches_received + 1;
                self.phase = IngressPhase::Publishing { frames: batch.samples.len() };
                IngressAction::Publish(TelemetryGatewayService::publish_frames_at_rate(&batch))
            },
            (IngressPhase::Receiving, IngressEvent::Broken(reason)) => {
                self.phase = IngressPhase::Answered;
                IngressAction::Refuse(
                    Status {
                        code: StatusCode::Internal,
                        message: joined("Stream error: ", reason.as_str()),
                    },
                )
            },
            (IngressPhase::Receiving, IngressEvent::End) => {
                self.phase = IngressPhase::Answered;
                IngressAction::Acknowledge(
                    IngressAck {
                        batches_received: self.batches_received,
                        samples_received: self.frames_published,
                    },
                )
            },
            (IngressPhase::Publishing { frames }, IngressEvent::Published(failures)) => {
                match TelemetryGatewayService::published(&failures) {
                    Ok(_) => {
                        self.frames_published = self.frames_published + frames as u64;
                        self.phase = IngressPhase::Receiving;
                        IngressAction::Receive
                    },
                    Err(reason) => {
                        self.phase = IngressPhase::Answered;
                        IngressAction::Refuse(
                            Status {
                                code: StatusCode::Internal,
                                message: joined("Failed to publish frames: ", reason.as_str()),
                            },
                        )
                    },
                }
            },
            _ => IngressAction::Nothing,
        }
    }
}

/// A stream of a user that has received nothing.
pub open spec fn new_stream(user_id: Seq<char>) -> IngressModel {
    IngressModel {
        user_id,
        batches_received: 0,
        frames_published: 0,
        phase: IngressPhase::Receiving,
    }
}

/// Where a new stream stands after batches that the broker has taken one after the other,
/// and everything that has been published until then.
pub open spec fn stream_after(user_id: Seq<char>, batches: Seq<BatchModel>) -> (
    IngressModel,
    Seq<EnvelopeModel>,
)
    decreases batches.len(),
{
    if batches.len() == 0 {
        (new_stream(user_id), seq![])
    } else {
        let (before, published) = stream_after(user_id, batches.drop_last());
        let (sending, action) = ingress_step(before, IngressEventModel::Batch(batches.last()));
        let payloads = match action {
            IngressActionModel::Publish { payloads, .. } => payloads,
            _ => seq![],
        };
        (ingress_step(sending, IngressEventModel::Published(None)).0, published + payloads)
    }
}

/// Whether the samples of each batch can be held in memory.
pub open spec fn fit_in_memory(batches: Seq<BatchModel>) -> bool {
    forall|i: int| 0 <= i < batches.len() ==> (#[trigger] batches[i]).samples.len() <= usize::MAX
}

/// The source of what is published is "demo" or "live", and normalizing it again changes
/// nothing.
pub proof fn sources_are_demo_or_live(source: Seq<char>)
    ensures
        normalized_source(source) == "demo"@ || normalized_source(source) == "live"@,
        normalized_source(normalized_source(source)) == normalized_source(source),
{
}

/// Where a stream stands after batches that the broker has taken: it has counted them and
/// their samples, and waits for the next message.
pub(crate) proof fn streams_keep_count(user_id: Seq<char>, batches: Seq<BatchModel>)
    requires
        fit_in_memory(batches),
    ensures
        stream_after(user_id, batches).0 == (IngressModel {
            user_id,
            batches_received: batches.len(),
            frames_published: samples_of(batches).len(),
            phase: IngressPhase::Receiving,
        }),
    decreases batches.len(),
{
    if batches.len() > 0 {
        streams_keep_count(user_id, batches.drop_last());
    }
}

/// Whatever user a client writes into its batches, everything it publishes carries the
/// authenticated user, and "demo" or "live" as source.
pub proof fn published_frames_carry_the_authenticated_user(
    user_id: Seq<char>,
    batches: Seq<BatchModel>,
)
    requires
        fit_in_memory(batches),
    ensures
        forall|i: int|
            0 <= i < stream_after(user_id, batches).1.len() ==> {
                let envelope = #[trigger] stream_after(user_id, batches).1[i];
                &&& envelope.user_id == user_id
                &&& envelope.source == "demo"@ || envelope.source == "live"@
            },
    decreases batches.len(),
{
    if batches.len() > 0 {
        streams_keep_count(user_id, batches.drop_last());
        published_frames_carry_the_authenticated_user(user_id, batches.drop_last());
    }
}

/// Every sample of a stream is published exactly once and in order.
pub proof fn streams_are_published_whole(user_id: Seq<char>, batches: Seq<BatchModel>)
    requires
        fit_in_memory(batches),
    ensures
        stream_after(user_id, batches).1.len() == samples_of(batches).len(),
        forall|i: int|
            0 <= i < samples_of(batches).len() ==> (#[trigger] stream_after(
                user_id,
                batches,
            ).1[i]).frame == Some(samples_of(batches)[i]),
    decreases batches.len(),
{
    if batches.len() > 0 {
        streams_keep_count(user_id, batches.drop_last());
        streams_are_published_whole(user_id, batches.drop_last());
    }
}

/// A stream whose batches the broker has taken is acknowledged with the number of its
/// batches and samples.
pub proof fn streams_are_acknowledged_by_their_counts(
    user_id: Seq<char>,
    batches: Seq<BatchModel>,
)
    requires
        fit_in_memory(batches),
    ensures
        ingress_step(stream_after(user_id, batches).0, IngressEventModel::End).1 == (
        IngressActionModel::Acknowledge {
            batches_received: batches.len(),
            samples_received: samples_of(batches).len(),
        }),
{
    streams_keep_count(user_id, batches);
}

/// A batch that the broker does not take whole is answered with a refusal that gives the
/// broker's reason, and after an answer nothing more is published.
pub proof fn failures_end_the_stream(
    stream: IngressModel,
    reason: Seq<char>,
    event: IngressEventModel,
)
    requires
        stream.phase is Publishing,
    ensures
        ({
            let (answered, action) = ingress_step(
                stream,
                IngressEventModel::Published(Some(reason)),
            );
            &&& action == (IngressActionModel::Refuse {
                code: StatusCode::Internal,
                message: "Failed to publish frames: "@ + ("Kafka publish failed: "@ + reason),
            })
            &&& answered.frames_published == stream.frames_published
            &&& ingress_step(answered, event) == (answered, IngressActionModel::Nothing)
        }),
{
}

} // verus!
