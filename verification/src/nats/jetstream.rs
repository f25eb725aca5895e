//! Publishing jobs to the JetStream job queues: connection settings, the
//! stream's subjects, and the subject of each job.

use crate::domain::id::{format_uuid, uuid_text};
use crate::domain::job::Job;
use crate::domain::job_queue::HasSubject;
use crate::nats::config::Config;
use crate::nats::error::NatsError;
use vstd::prelude::*;

verus! {

/// What `str::to_uppercase` returns for a text.
pub uninterp spec fn uppercase_text(s: Seq<char>) -> Seq<char>;

/// Calls `str::to_uppercase` (the Unicode uppercase mapping of each
/// character); the result is named, not restated.
#[verifier::external_body]
fn to_uppercase(s: &str) -> (r: String)
    ensures
        r@ == uppercase_text(s@),
{
    s.to_uppercase()
}

/// The application named in the `X-Source-App` header of each message.
pub const SOURCE_APP: &'static str = "repeatrs";

/// Whether the UUID with bits `bits` is a random one (RFC 9562 version 4):
/// version nibble 4, variant bits `10`.
pub open spec fn is_random_uuid(bits: u128) -> bool {
    &&& (bits >> 76u128) & 0xfu128 == 4
    &&& (bits >> 62u128) & 3u128 == 2
}

/// Calls `uuid::Uuid::new_v4` and gives the bits of the random UUID: random
/// but for the version and variant bits that it sets.
#[verifier::external_body]
fn random_uuid_bits() -> (r: u128)
    ensures
        is_random_uuid(r),
{
    uuid::Uuid::new_v4().as_u128()
}

/// What a message is published with: its full subject, its `Nats-Msg-Id`
/// header and its `X-Source-App` header.
pub struct OutgoingMessage {
    pub subject: String,
    pub message_id: String,
    pub source_app: String,
}

/// The message for job queue `name` under `<environment>.<prefix>`, whose id
/// is the UUID with bits `id`.
pub fn outgoing_message(environment: &str, prefix: &str, name: &str, id: u128) -> (r: OutgoingMessage)
    ensures
        r.subject@ == environment@ + "."@ + prefix@ + "."@ + name@,
        r.message_id@ == uuid_text(id),
        r.source_app@ == SOURCE_APP@,
{
    OutgoingMessage {
        subject: environment.to_owned().concat(".").concat(prefix).concat(".").concat(name),
        message_id: format_uuid(id),
        source_app: SOURCE_APP.to_owned(),
    }
}

/// How the job queue stream keeps its messages.
#[derive(Debug, Clone, Copy, PartialEq, Eq, Structural)]
pub enum StreamRetention {
    /// Each message is kept until one consumer acknowledges it.
    WorkQueue,
}

/// What the job queue stream does with a message once it is full.
#[derive(Debug, Clone, Copy, PartialEq, Eq, Structural)]
pub enum StreamDiscard {
    /// New messages are refused.
    New,
}

/// The description of the job queue stream.
pub const STREAM_DESCRIPTION: &'static str = "job queues";

/// The settings of the job queue stream.
pub struct StreamSettings {
    pub name: String,
    pub subjects: Vec<String>,
    pub description: String,
    pub retention: StreamRetention,
    pub allow_direct: bool,
    pub max_consumers: i32,
    pub max_messages: i64,
    pub max_bytes: i64,
    pub discard: StreamDiscard,
    pub duplicate_window_seconds: u64,
}

/// The settings for connecting to NATS and creating the job queue stream.
pub struct JetstreamContextBuilder {
    config: Config,
    user: Option<String>,
    password: Option<String>,
    client: Option<async_nats::Client>,
}

impl JetstreamContextBuilder {
    /// Settings with the given configuration, no credentials and no client.
    pub fn with_config(config: Config) -> (r: Result<Self, NatsError>)
        ensures
            r matches Ok(b) && b.config()@ == config@ && b.user_spec() is None && b.password_spec() is None
                && !b.has_client(),
    {
        Ok(JetstreamContextBuilder { config, user: None, password: None, client: None })
    }

    /// The user name given, if any.
    pub closed spec fn user_spec(&self) -> Option<Seq<char>> {
        self.user.deep_view()
    }

    /// The password given, if any.
    pub closed spec fn password_spec(&self) -> Option<Seq<char>> {
        self.password.deep_view()
    }

    /// Whether a client was given.
    pub closed spec fn has_client(&self) -> bool {
        self.client is Some
    }

    /// Sets the user name and password.
    pub fn with_user_and_password(self, user: String, password: String) -> (r: Self)
        ensures
            r.config()@ == self.config()@,
            r.user_spec() == Some(user@),
            r.password_spec() == Some(password@),
            r.has_client() == self.has_client(),
    {
        let mut b = self;
        b.password = Some(password);
        b.user = Some(user);
        b
    }

    /// The configuration.
    pub closed spec fn config(&self) -> &Config {
        &self.config
    }

    /// The configuration.
    pub fn configuration(&self) -> (r: &Config)
        ensures
            r@ == self.config()@,
    {
        &self.config
    }

    /// The user name and password to connect with: only when both were given.
    pub fn credentials(&self) -> (r: Option<(String, String)>)
        ensures
            r is Some <==> (self.user_spec() is Some && self.password_spec() is Some),
            r matches Some(p) ==> Some(p.0@) == self.user_spec() && Some(p.1@) == self.password_spec(),
    {
        match (&self.user, &self.password) {
            (Some(u), Some(p)) => Some((u.clone(), p.clone())),
            _ => None,
        }
    }

    /// The client to use, if one was given; the builder keeps none after.
    pub fn take_client(&mut self) -> (r: Option<async_nats::Client>)
        ensures
            r is Some == old(self).has_client(),
            !final(self).has_client(),
            final(self).config()@ == old(self).config()@,
            final(self).user_spec() == old(self).user_spec(),
            final(self).password_spec() == old(self).password_spec(),
    {
        let mut c: Option<async_nats::Client> = None;
        std::mem::swap(&mut c, &mut self.client);
        c
    }

    /// The name of the job queue stream: the configured prefix.
    pub fn stream_name(&self) -> (r: String)
        ensures
            r@ == self.config()@.job_queues_prefix,
    {
        self.config.job_queues_prefix().to_owned()
    }

    /// The subjects of the job queue stream: `<ENVIRONMENT>.<prefix>.>`,
    /// with the environment in upper case.
    pub fn stream_subject(&self) -> (r: String)
        ensures
            r@ == uppercase_text(self.config()@.environment) + "."@ + self.config()@.job_queues_prefix + ".>"@,
    {
        let env = to_uppercase(self.config.environment());
        env.concat(".").concat(self.config.job_queues_prefix()).concat(".>")
    }

    /// The settings the job queue stream is created with: named after the
    /// prefix, on the one subject of `stream_subject`, a work queue with
    /// direct reads, the configured limits, refusing new messages when full,
    /// and the configured duplicate window.
    pub fn stream_settings(&self) -> (r: StreamSettings)
        ensures
            r.name@ == self.config()@.job_queues_prefix,
            r.subjects@.len() == 1,
            r.subjects@[0]@ == uppercase_text(self.config()@.environment) + "."@ + self.config()@.job_queues_prefix
                + ".>"@,
            r.description@ == STREAM_DESCRIPTION@,
            r.retention == StreamRetention::WorkQueue,
            r.allow_direct,
            r.max_consumers == self.config()@.max_consumers,
            r.max_messages == self.config()@.max_messages,
            r.max_bytes == self.config()@.max_bytes,
            r.discard == StreamDiscard::New,
            r.duplicate_window_seconds == self.config()@.duplicate_window_seconds,
    {
        let mut subjects: Vec<String> = Vec::new();
        subjects.push(self.stream_subject());
        StreamSettings {
            name: self.stream_name(),
            subjects,
            description: STREAM_DESCRIPTION.to_owned(),
            retention: StreamRetention::WorkQueue,
            allow_direct: true,
            max_consumers: self.config.max_consumers(),
            max_messages: self.config.max_messages(),
            max_bytes: self.config.max_bytes(),
            discard: StreamDiscard::New,
            duplicate_window_seconds: self.config.duplicate_window_seconds(),
        }
    }
}

/// Handle to a NATS context with associated streams.
#[derive(Debug)]
pub struct NatsJobQueueRepository<'a> {
    context: async_nats::jetstream::Context,
    environment: &'a str,
    prefix: &'a str,
}

impl<'a> NatsJobQueueRepository<'a> {
    /// A handle that publishes under `<environment>.<prefix>`.
    pub fn new(context: async_nats::jetstream::Context, environment: &'a str, prefix: &'a str) -> (r: Self)
        ensures
            r.context_spec() == context,
            r.environment_spec() == environment@,
            r.prefix_spec() == prefix@,
    {
        NatsJobQueueRepository { context, environment, prefix }
    }

    /// The environment subjects are published under.
    pub closed spec fn environment_spec(&self) -> Seq<char> {
        self.environment@
    }

    /// The prefix subjects are published under.
    pub closed spec fn prefix_spec(&self) -> Seq<char> {
        self.prefix@
    }

    /// The JetStream context jobs are published with.
    pub closed spec fn context_spec(&self) -> async_nats::jetstream::Context {
        self.context
    }

    /// The JetStream context jobs are published with.
    pub fn context(&self) -> (r: &async_nats::jetstream::Context)
        ensures
            *r == self.context_spec(),
    {
        &self.context
    }

    /// The full subject of a job queue: `<environment>.<prefix>.<name>`.
    pub fn get_subject(&self, name: &str) -> (r: String)
        ensures
            r@ == self.environment_spec() + "."@ + self.prefix_spec() + "."@ + name@,
    {
        self.environment.to_owned().concat(".").concat(self.prefix).concat(".").concat(name)
    }

    /// The message that publishes `job`: under the job's subject, with a
    /// fresh random UUID as its id.
    pub fn message_for<T: HasSubject>(&self, job: &T) -> (r: OutgoingMessage)
        ensures
            r.subject@ == self.environment_spec() + "."@ + self.prefix_spec() + "."@ + job.subject(),
            exists|id: u128| is_random_uuid(id) && r.message_id@ == #[trigger] uuid_text(id),
            r.source_app@ == SOURCE_APP@,
    {
        let id = random_uuid_bits();
        outgoing_message(self.environment, self.prefix, job.get_subject(), id)
    }
}

/// A job with the subject it is published under.
pub struct PublishableJob {
    payload: Job,
    subject: String,
}

impl PublishableJob {
    pub fn new(job: Job, subject: &str) -> (r: Self)
        ensures
            r.payload_spec() == job@,
            r.subject() == subject@,
    {
        PublishableJob { payload: job, subject: subject.to_owned() }
    }

    /// The job.
    pub closed spec fn payload_spec(&self) -> crate::domain::job::JobView {
        self.payload@
    }

    /// The job.
    pub fn payload(&self) -> (r: &Job)
        ensures
            r@ == self.payload_spec(),
    {
        &self.payload
    }
}

impl HasSubject for PublishableJob {
    closed spec fn subject(&self) -> Seq<char> {
        self.subject@
    }

    fn get_subject(&self) -> (r: &str) {
        self.subject.as_str()
    }
}

} // verus!
