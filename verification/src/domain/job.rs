//! Jobs: their identity, how their container is run, and how they are
//! scheduled.

use crate::cron::{cron_next_occurrence, cron_text, CronSchedule};
use crate::domain::error::ValidationError;
use crate::domain::id::{uuid_text, JobId, QueueId};
use crate::domain::options::{options_outcome, render_options, same_options, try_string_to_hashmap, Entry, OptionMap};
use crate::domain::sanitized::SanitizedString;
use crate::proto::JobItem;
use crate::text::{char_is_whitespace, chars_of, is_whitespace};
use crate::time::{chrono_has_time, utc_now, UtcTime};
use vstd::prelude::*;

verus! {

/// The largest number of retries a job may ask for.
pub const MAX_RETRIES: i32 = 10;

/// The timeout of a job that sets none, in seconds.
pub const DEFAULT_TIMEOUT_SECONDS: i64 = 7200;

/// The largest number of seconds a timeout can hold (`i64::MAX / 1000`,
/// as a duration counts milliseconds in an `i64`).
pub const MAX_TIMEOUT_SECONDS: i64 = 9223372036854775;

/// Describes the status of the job.
#[derive(Debug, Clone, Copy, PartialEq, Eq, Structural)]
pub enum JobStatus {
    /// Job can be scheduled for execution
    Active,
    /// Job is not going to be scheduled for execution
    Inactive,
}

/// The text of a job status.
pub open spec fn job_status_text(s: JobStatus) -> Seq<char> {
    match s {
        JobStatus::Active => "ACTIVE"@,
        JobStatus::Inactive => "INACTIVE"@,
    }
}

/// The job status that a text names, if any.
pub open spec fn job_status_from_text(t: Seq<char>) -> Option<JobStatus> {
    if t == "ACTIVE"@ {
        Some(JobStatus::Active)
    } else if t == "INACTIVE"@ {
        Some(JobStatus::Inactive)
    } else {
        None
    }
}

impl JobStatus {
    /// The status of a new job: `Active`.
    pub fn default() -> (r: Self)
        ensures
            r == JobStatus::Active,
    {
        JobStatus::Active
    }

    /// The text of the status: `ACTIVE` or `INACTIVE`.
    pub fn to_string(&self) -> (r: String)
        ensures
            r@ == job_status_text(*self),
    {
        match self {
            JobStatus::Active => String::from_str("ACTIVE"),
            JobStatus::Inactive => String::from_str("INACTIVE"),
        }
    }

    /// Reads a status from its text.
    pub fn from_str(s: &str) -> (r: Result<Self, String>)
        ensures
            job_status_from_text(s@) matches Some(st) ==> r == Ok::<JobStatus, String>(st),
            job_status_from_text(s@) is None ==> (r matches Err(e) && e@ == "Job status not understood."@),
    {
        if crate::text::str_eq(s, "ACTIVE") {
            Ok(JobStatus::Active)
        } else if crate::text::str_eq(s, "INACTIVE") {
            Ok(JobStatus::Inactive)
        } else {
            Err(String::from_str("Job status not understood."))
        }
    }
}

/// Reading the text of a job status gives the status back.
pub proof fn lemma_job_status_text_roundtrip(s: JobStatus)
    ensures
        job_status_from_text(job_status_text(s)) == Some(s),
{
    reveal_strlit("ACTIVE");
    reveal_strlit("INACTIVE");
    assert("ACTIVE"@.len() != "INACTIVE"@.len());
}

/// Options written as `key=value` words.
pub trait ToOwnedString {
    /// The options.
    spec fn option_entries(&self) -> Seq<Entry>;

    /// The options as a map.
    fn as_map(&self) -> (r: &OptionMap)
        ensures
            r@ == self.option_entries(),
    ;

    /// The options written as `key=value` words joined by single spaces.
    fn to_owned_string(&self) -> (s: String)
        ensures
            s@ == render_options(self.option_entries()),
    {
        self.as_map().render()
    }
}

/// Whether an image name is accepted: not blank, and naming a repository
/// path (`/`) or a tag (`:`).
pub open spec fn image_name_accepted(s: Seq<char>) -> bool {
    !(forall|i: int| 0 <= i < s.len() ==> char_is_whitespace(#[trigger] s[i])) && (s.contains('/')
        || s.contains(':'))
}

/// Which image names are accepted: one that holds a character other than
/// whitespace is accepted as soon as it holds a `/` (a repository path), a
/// `:` (a tag) or both, as `<optional_registry>/<image_name>:tag` does; a
/// blank name, or one with neither `/` nor `:`, is refused.
pub proof fn lemma_image_name_acceptance(s: Seq<char>)
    ensures
        (exists|i: int| 0 <= i < s.len() && !char_is_whitespace(#[trigger] s[i])) && s.contains('/')
            ==> image_name_accepted(s),
        (exists|i: int| 0 <= i < s.len() && !char_is_whitespace(#[trigger] s[i])) && s.contains(':')
            ==> image_name_accepted(s),
        (exists|i: int| 0 <= i < s.len() && !char_is_whitespace(#[trigger] s[i])) && s.contains('/')
            && s.contains(':') ==> image_name_accepted(s),
        (forall|i: int| 0 <= i < s.len() ==> char_is_whitespace(#[trigger] s[i])) ==> !image_name_accepted(s),
        !s.contains('/') && !s.contains(':') ==> !image_name_accepted(s),
{
}

/// An image name as `<optional_registry>/<image_name>:tag`.
#[derive(Debug, Clone)]
pub struct ImageName(String);

impl View for ImageName {
    type V = Seq<char>;

    closed spec fn view(&self) -> Seq<char> {
        self.0@
    }
}

impl ImageName {
    /// An image name, taken as it is.
    pub fn new(name: &str) -> (r: Self)
        ensures
            r@ == name@,
    {
        ImageName(name.to_owned())
    }

    /// Returns the image name as string slice
    pub fn as_str(&self) -> (r: &str)
        ensures
            r@ == self@,
    {
        self.0.as_str()
    }

    /// Checks an image name (see `image_name_accepted`); a refused name
    /// comes back in `InvalidImageName`.
    pub fn try_from(value: String) -> (r: Result<Self, ValidationError>)
        ensures
            image_name_accepted(value@) ==> (r matches Ok(n) && n@ == value@),
            !image_name_accepted(value@) ==> (r matches Err(ValidationError::InvalidImageName(e))
                && e@ == value@),
    {
        let cs = chars_of(value.as_str());
        let n = cs.len();
        let mut blank = true;
        let mut slash = false;
        let mut colon = false;
        let mut i: usize = 0;
        while i < n
            invariant
                n == cs@.len(),
                cs@ == value@,
                i <= n,
                blank == (forall|j: int| 0 <= j < i ==> char_is_whitespace(#[trigger] cs@[j])),
                slash == (exists|j: int| 0 <= j < i && cs@[j] == '/'),
                colon == (exists|j: int| 0 <= j < i && cs@[j] == ':'),
            decreases n - i,
        {
            let c = cs[i];
            if !is_whitespace(c) {
                blank = false;
            }
            if c == '/' {
                slash = true;
            }
            if c == ':' {
                colon = true;
            }
            i = i + 1;
        }
        if blank || !slash && !colon {
            return Err(ValidationError::InvalidImageName(value));
        }
        Ok(ImageName(value))
    }
}

/// Options for running the container.
#[derive(Debug)]
pub struct ContainerOptions(OptionMap);

impl View for ContainerOptions {
    type V = Seq<Entry>;

    closed spec fn view(&self) -> Seq<Entry> {
        self.0@
    }
}

impl ContainerOptions {
    /// The given options.
    pub fn new(map: OptionMap) -> (r: Self)
        ensures
            r@ == map@,
    {
        ContainerOptions(map)
    }

    /// Reads options from text (see `parse_options`).
    pub fn try_from(value: String) -> (r: Result<Self, ValidationError>)
        ensures
            options_outcome(
                value@,
                match r {
                    Ok(o) => Ok(o@),
                    Err(e) => Err(e),
                },
            ),
    {
        match try_string_to_hashmap(value) {
            Ok(map) => Ok(ContainerOptions::new(map)),
            Err(e) => Err(e),
        }
    }
}

impl ToOwnedString for ContainerOptions {
    open spec fn option_entries(&self) -> Seq<Entry> {
        self@
    }

    fn as_map(&self) -> (r: &OptionMap) {
        &self.0
    }
}

impl Default for ContainerOptions {
    /// No options.
    fn default() -> (r: Self)
        ensures
            r@ == Seq::<Entry>::empty(),
    {
        ContainerOptions::new(OptionMap::new())
    }
}

impl Clone for ContainerOptions {
    fn clone(&self) -> (r: Self)
        ensures
            r@ == self@,
    {
        ContainerOptions::new(self.0.clone())
    }
}

impl PartialEq for ContainerOptions {
    /// Whether both hold the same options, whatever their order.
    fn eq(&self, other: &Self) -> (r: bool) {
        self.0.eq(&other.0)
    }
}

impl vstd::std_specs::cmp::PartialEqSpecImpl for ContainerOptions {
    open spec fn obeys_eq_spec() -> bool {
        true
    }

    open spec fn eq_spec(&self, other: &Self) -> bool {
        same_options(self@, other@)
    }
}

/// Represents the command given to the entrypoint of the container.
/// If `None`, it is assumed that the image already defines a `CMD`
#[derive(Debug, Clone, PartialEq)]
pub struct RunCmd(Option<String>);

impl View for RunCmd {
    type V = Option<Seq<char>>;

    closed spec fn view(&self) -> Option<Seq<char>> {
        self.0.deep_view()
    }
}

impl RunCmd {
    /// The given command, if any.
    pub fn new(command: Option<String>) -> (r: Self)
        ensures
            r@ == command.deep_view(),
    {
        RunCmd(command)
    }

    /// Returns the run command. The command can be `None` in which
    /// case it is assumed that the image already defines a `CMD`
    pub fn as_str(&self) -> (r: Option<&str>)
        ensures
            r is Some == self@ is Some,
            r matches Some(s) ==> self@ == Some(s@),
    {
        match &self.0 {
            Some(s) => Some(s.as_str()),
            None => None,
        }
    }
}

/// Arguments for the command.
#[derive(Debug)]
pub struct CommandArgs(OptionMap);

impl View for CommandArgs {
    type V = Seq<Entry>;

    closed spec fn view(&self) -> Seq<Entry> {
        self.0@
    }
}

impl CommandArgs {
    /// The given arguments.
    pub fn new(args: OptionMap) -> (r: Self)
        ensures
            r@ == args@,
    {
        CommandArgs(args)
    }

    /// Reads arguments from text (see `parse_options`).
    pub fn try_from(value: String) -> (r: Result<Self, ValidationError>)
        ensures
            options_outcome(
                value@,
                match r {
                    Ok(o) => Ok(o@),
                    Err(e) => Err(e),
                },
            ),
    {
        match try_string_to_hashmap(value) {
            Ok(map) => Ok(CommandArgs::new(map)),
            Err(e) => Err(e),
        }
    }
}

impl ToOwnedString for CommandArgs {
    open spec fn option_entries(&self) -> Seq<Entry> {
        self@
    }

    fn as_map(&self) -> (r: &OptionMap) {
        &self.0
    }
}

impl Default for CommandArgs {
    /// No options.
    fn default() -> (r: Self)
        ensures
            r@ == Seq::<Entry>::empty(),
    {
        CommandArgs::new(OptionMap::new())
    }
}

impl Clone for CommandArgs {
    fn clone(&self) -> (r: Self)
        ensures
            r@ == self@,
    {
        CommandArgs::new(self.0.clone())
    }
}

impl PartialEq for CommandArgs {
    /// Whether both hold the same options, whatever their order.
    fn eq(&self, other: &Self) -> (r: bool) {
        self.0.eq(&other.0)
    }
}

impl vstd::std_specs::cmp::PartialEqSpecImpl for CommandArgs {
    open spec fn obeys_eq_spec() -> bool {
        true
    }

    open spec fn eq_spec(&self, other: &Self) -> bool {
        same_options(self@, other@)
    }
}

/// The identity of a job, as a value.
pub struct JobIdentityView {
    pub job_name: Seq<char>,
    pub description: Option<Seq<char>>,
    pub queue_name: Seq<char>,
}

/// Informations related to the identity of the job
#[derive(Debug)]
pub struct JobIdentity {
    /// Unique job name
    job_name: SanitizedString,
    /// The job description
    description: Option<String>,
    /// Identifier of the queue this job belongs to
    queue_name: SanitizedString,
}

impl View for JobIdentity {
    type V = JobIdentityView;

    closed spec fn view(&self) -> JobIdentityView {
        JobIdentityView {
            job_name: self.job_name@,
            description: self.description.deep_view(),
            queue_name: self.queue_name@,
        }
    }
}

impl JobIdentity {
    /// The identity with these names and description.
    pub fn new(job_name: SanitizedString, description: Option<String>, queue_name: SanitizedString) -> (r: Self)
        ensures
            r@ == (JobIdentityView {
                job_name: job_name@,
                description: description.deep_view(),
                queue_name: queue_name@,
            }),
    {
        JobIdentity { job_name, description, queue_name }
    }
}

/// The execution options of a job, as a value.
pub struct JobOptionsView {
    pub schedule: Seq<char>,
    pub max_retries: i32,
    pub priority: i32,
    pub max_concurrency: i32,
    pub timeout_seconds: i64,
}

/// `v` brought into `lo..=hi`.
pub open spec fn clamp_i32(v: i32, lo: i32, hi: i32) -> i32 {
    if v < lo {
        lo
    } else if v > hi {
        hi
    } else {
        v
    }
}

/// The options that `JobOptions::new` makes of its arguments: retries
/// clamped to `0..=10` (none: 0), priority at least 1 (none: 1),
/// concurrency as given (none: 0), timeout as given (none: 7200 seconds).
pub open spec fn job_options_of(
    schedule: Seq<char>,
    max_retries: Option<i32>,
    priority: Option<i32>,
    max_concurrency: Option<i32>,
    timeout_seconds: Option<i64>,
) -> JobOptionsView {
    JobOptionsView {
        schedule,
        max_retries: match max_retries {
            Some(v) => clamp_i32(v, 0, MAX_RETRIES),
            None => 0,
        },
        priority: match priority {
            Some(v) => clamp_i32(v, 1, i32::MAX),
            None => 1,
        },
        max_concurrency: match max_concurrency {
            Some(v) => v,
            None => 0,
        },
        timeout_seconds: match timeout_seconds {
            Some(s) => s,
            None => DEFAULT_TIMEOUT_SECONDS,
        },
    }
}

/// Whatever is asked for, a job is retried between 0 and `MAX_RETRIES` times
/// and has a priority of at least 1.
pub proof fn lemma_job_options_bounds(
    schedule: Seq<char>,
    max_retries: Option<i32>,
    priority: Option<i32>,
    max_concurrency: Option<i32>,
    timeout_seconds: Option<i64>,
)
    ensures
        0 <= job_options_of(schedule, max_retries, priority, max_concurrency, timeout_seconds).max_retries
            <= MAX_RETRIES,
        job_options_of(schedule, max_retries, priority, max_concurrency, timeout_seconds).priority >= 1,
{
}

/// The options keep what is asked where it is in range and only clamp what
/// is not: retries in `0..=MAX_RETRIES` are kept, fewer give 0 and more give
/// `MAX_RETRIES` (none: 0); a priority of at least 1 is kept, a lower one
/// gives 1 (none: 1); the concurrency and timeout asked for are kept (none:
/// 0 and `DEFAULT_TIMEOUT_SECONDS`); the schedule is kept.
pub proof fn lemma_job_options_clamp_only(
    schedule: Seq<char>,
    max_retries: Option<i32>,
    priority: Option<i32>,
    max_concurrency: Option<i32>,
    timeout_seconds: Option<i64>,
)
    ensures
        ({
            let o = job_options_of(schedule, max_retries, priority, max_concurrency, timeout_seconds);
            &&& o.schedule == schedule
            &&& max_retries matches Some(v) ==> (0 <= v && v <= MAX_RETRIES ==> o.max_retries == v)
            &&& max_retries matches Some(v) ==> (v < 0 ==> o.max_retries == 0)
            &&& max_retries matches Some(v) ==> (v > MAX_RETRIES ==> o.max_retries == MAX_RETRIES)
            &&& max_retries is None ==> o.max_retries == 0
            &&& priority matches Some(v) ==> (v >= 1 ==> o.priority == v)
            &&& priority matches Some(v) ==> (v < 1 ==> o.priority == 1)
            &&& priority is None ==> o.priority == 1
            &&& max_concurrency matches Some(v) ==> o.max_concurrency == v
            &&& max_concurrency is None ==> o.max_concurrency == 0
            &&& timeout_seconds matches Some(v) ==> o.timeout_seconds == v
            &&& timeout_seconds is None ==> o.timeout_seconds == DEFAULT_TIMEOUT_SECONDS
        }),
{
}

/// `v` brought into `lo..=hi`, as `Ord::clamp` does.
fn clamp(v: i32, lo: i32, hi: i32) -> (r: i32)
    requires
        lo <= hi,
    ensures
        r == clamp_i32(v, lo, hi),
{
    if v < lo {
        lo
    } else if v > hi {
        hi
    } else {
        v
    }
}

/// Options regarding the job execution
pub struct JobOptions {
    /// schedule of the cronjob or execution time
    schedule: CronSchedule,
    /// Retry the job if last execution failed
    max_retries: i32,
    /// Job priority
    priority: i32,
    /// Maximum number of identical jobs running concurrently
    max_concurrency: i32,
    /// A hard limit on the duration of the job, in seconds, after which the job is terminated.
    timeout_seconds: i64,
}

impl View for JobOptions {
    type V = JobOptionsView;

    closed spec fn view(&self) -> JobOptionsView {
        JobOptionsView {
            schedule: self.schedule@,
            max_retries: self.max_retries,
            priority: self.priority,
            max_concurrency: self.max_concurrency,
            timeout_seconds: self.timeout_seconds,
        }
    }
}

impl JobOptions {
    /// The options of a job (see `job_options_of`). A timeout must fit in a
    /// duration: at most `i64::MAX / 1000` seconds either way.
    pub fn new(
        schedule: CronSchedule,
        max_retries: Option<i32>,
        priority: Option<i32>,
        max_concurrency: Option<i32>,
        timeout_seconds: Option<i64>,
    ) -> (r: Self)
        requires
            timeout_seconds matches Some(s) ==> -MAX_TIMEOUT_SECONDS <= s <= MAX_TIMEOUT_SECONDS,
        ensures
            r@ == job_options_of(schedule@, max_retries, priority, max_concurrency, timeout_seconds),
    {
        let max_retries = match max_retries {
            Some(val) => clamp(val, 0, MAX_RETRIES),
            None => 0,
        };
        let priority = match priority {
            Some(val) => clamp(val, 1, i32::MAX),
            None => 1,
        };
        let duration = match timeout_seconds {
            Some(secs) => secs,
            None => DEFAULT_TIMEOUT_SECONDS,
        };
        let max_concurrency = match max_concurrency {
            Some(v) => v,
            None => 0,
        };
        JobOptions { schedule, max_retries, priority, max_concurrency, timeout_seconds: duration }
    }
}

/// How a job's container is run, as a value.
pub struct ContainerRunCommandView {
    pub run_options: Seq<Entry>,
    pub image_name: Seq<char>,
    pub cmd: Option<Seq<char>>,
    pub command_args: Seq<Entry>,
}

/// How a job's container is run.
#[derive(Debug)]
pub struct ContainerRunCommand {
    /// Options for running the container
    run_options: ContainerOptions,
    /// Image name as <optional_registry>/<image_name>:tag
    image_name: ImageName,
    /// The command to run the container
    cmd: RunCmd,
    /// Arguments for the command
    command_args: CommandArgs,
}

impl View for ContainerRunCommand {
    type V = ContainerRunCommandView;

    closed spec fn view(&self) -> ContainerRunCommandView {
        ContainerRunCommandView {
            run_options: self.run_options@,
            image_name: self.image_name@,
            cmd: self.cmd@,
            command_args: self.command_args@,
        }
    }
}

impl ContainerRunCommand {
    /// The run command made of these parts.
    pub fn new(run_options: ContainerOptions, image_name: ImageName, cmd: RunCmd, command_args: CommandArgs) -> (r: Self)
        ensures
            r@ == (ContainerRunCommandView {
                run_options: run_options@,
                image_name: image_name@,
                cmd: cmd@,
                command_args: command_args@,
            }),
    {
        ContainerRunCommand { run_options, image_name, cmd, command_args }
    }
}

/// A job, as a value.
pub struct JobView {
    pub identity: JobIdentityView,
    pub run_command: ContainerRunCommandView,
    pub options: JobOptionsView,
}

/// Represents a job. This type has validation logic and methods to
/// enforce invariants before persisting the information in the database.
pub struct Job {
    /// Informations related to the identity of the job
    identity: JobIdentity,
    /// Informations needed to reconstruct the run command
    run_command: ContainerRunCommand,
    /// Informations related to how the job is run
    options: JobOptions,
}

impl View for Job {
    type V = JobView;

    closed spec fn view(&self) -> JobView {
        JobView { identity: self.identity@, run_command: self.run_command@, options: self.options@ }
    }
}

impl Job {
    /// The job made of these parts.
    pub fn new(identity: JobIdentity, run_command: ContainerRunCommand, options: JobOptions) -> (r: Self)
        ensures
            r@ == (JobView { identity: identity@, run_command: run_command@, options: options@ }),
    {
        Job { identity, run_command, options }
    }

    pub fn identity(&self) -> (r: &JobIdentity)
        ensures
            r@ == self@.identity,
    {
        &self.identity
    }

    pub fn run_command(&self) -> (r: &ContainerRunCommand)
        ensures
            r@ == self@.run_command,
    {
        &self.run_command
    }

    pub fn run_options(&self) -> (r: &ContainerOptions)
        ensures
            r@ == self@.run_command.run_options,
    {
        &self.run_command.run_options
    }

    pub fn image_name(&self) -> (r: &ImageName)
        ensures
            r@ == self@.run_command.image_name,
    {
        &self.run_command.image_name
    }

    pub fn command(&self) -> (r: &RunCmd)
        ensures
            r@ == self@.run_command.cmd,
    {
        &self.run_command.cmd
    }

    pub fn job_name(&self) -> (r: &SanitizedString)
        ensures
            r@ == self@.identity.job_name,
    {
        &self.identity.job_name
    }

    pub fn description(&self) -> (r: Option<&str>)
        ensures
            r is Some == self@.identity.description is Some,
            r matches Some(s) ==> self@.identity.description == Some(s@),
    {
        match &self.identity.description {
            Some(s) => Some(s.as_str()),
            None => None,
        }
    }

    pub fn schedule(&self) -> (r: &CronSchedule)
        ensures
            r@ == self@.options.schedule,
    {
        &self.options.schedule
    }

    pub fn command_args(&self) -> (r: &CommandArgs)
        ensures
            r@ == self@.run_command.command_args,
    {
        &self.run_command.command_args
    }

    pub fn options(&self) -> (r: &JobOptions)
        ensures
            r@ == self@.options,
    {
        &self.options
    }

    pub fn max_retries(&self) -> (r: i32)
        ensures
            r == self@.options.max_retries,
    {
        self.options.max_retries
    }

    pub fn priority(&self) -> (r: i32)
        ensures
            r == self@.options.priority,
    {
        self.options.priority
    }

    pub fn queue_name(&self) -> (r: &SanitizedString)
        ensures
            r@ == self@.identity.queue_name,
    {
        &self.identity.queue_name
    }

    pub fn max_concurrency(&self) -> (r: i32)
        ensures
            r == self@.options.max_concurrency,
    {
        self.options.max_concurrency
    }

    /// The timeout, in whole seconds.
    pub fn timeout_seconds(&self) -> (r: i64)
        ensures
            r == self@.options.timeout_seconds,
    {
        self.options.timeout_seconds
    }
}


/// A job as retrieved from the database, as a value.
pub struct JobResponseView {
    pub job_id: JobId,
    pub job_name: Seq<char>,
    pub description: Option<Seq<char>>,
    pub schedule: Seq<char>,
    pub image_options: Option<Seq<char>>,
    pub image_name: Seq<char>,
    pub command: Option<Seq<char>>,
    pub command_args: Option<Seq<char>>,
    pub max_retries: i32,
    pub status: JobStatus,
    pub priority: i32,
    pub queue_id: QueueId,
    pub queue_name: Seq<char>,
    pub max_concurrency: i32,
    pub timeout_seconds: Option<i64>,
    pub created_at: UtcTime,
    pub updated_at: UtcTime,
}

/// Represents a job as retrieved from the database.
pub struct JobResponse {
    job_id: JobId,
    job_name: String,
    description: Option<String>,
    schedule: CronSchedule,
    image_options: Option<String>,
    image_name: String,
    command: Option<String>,
    command_args: Option<String>,
    max_retries: i32,
    status: JobStatus,
    priority: i32,
    queue_id: QueueId,
    queue_name: String,
    max_concurrency: i32,
    timeout_seconds: Option<i64>,
    created_at: UtcTime,
    updated_at: UtcTime,
}

impl View for JobResponse {
    type V = JobResponseView;

    closed spec fn view(&self) -> JobResponseView {
        JobResponseView {
            job_id: self.job_id,
            job_name: self.job_name@,
            description: self.description.deep_view(),
            schedule: self.schedule@,
            image_options: self.image_options.deep_view(),
            image_name: self.image_name@,
            command: self.command.deep_view(),
            command_args: self.command_args.deep_view(),
            max_retries: self.max_retries,
            status: self.status,
            priority: self.priority,
            queue_id: self.queue_id,
            queue_name: self.queue_name@,
            max_concurrency: self.max_concurrency,
            timeout_seconds: self.timeout_seconds,
            created_at: self.created_at,
            updated_at: self.updated_at,
        }
    }
}

impl JobResponse {
    /// Builds a job response from database informations.
    pub fn from_row(
        job_id: JobId,
        job_name: String,
        description: Option<String>,
        schedule: CronSchedule,
        image_options: Option<String>,
        image_name: String,
        command: Option<String>,
        command_args: Option<String>,
        max_retries: i32,
        status: JobStatus,
        priority: i32,
        queue_id: QueueId,
        queue_name: String,
        max_concurrency: i32,
        timeout_seconds: Option<i64>,
        created_at: UtcTime,
        updated_at: UtcTime,
    ) -> (r: Self)
        ensures
            r@ == (JobResponseView {
                job_id: job_id,
                job_name: job_name@,
                description: description.deep_view(),
                schedule: schedule@,
                image_options: image_options.deep_view(),
                image_name: image_name@,
                command: command.deep_view(),
                command_args: command_args.deep_view(),
                max_retries: max_retries,
                status: status,
                priority: priority,
                queue_id: queue_id,
                queue_name: queue_name@,
                max_concurrency: max_concurrency,
                timeout_seconds: timeout_seconds,
                created_at: created_at,
                updated_at: updated_at,
            }),
    {
        JobResponse {
            job_id,
            job_name,
            description,
            schedule,
            image_options,
            image_name,
            command,
            command_args,
            max_retries,
            status,
            priority,
            queue_id,
            queue_name,
            max_concurrency,
            timeout_seconds,
            created_at,
            updated_at,
        }
    }

    pub fn job_id(&self) -> (r: &JobId)
        ensures
            *r == self@.job_id,
    {
        &self.job_id
    }

    pub fn job_name(&self) -> (r: &str)
        ensures
            r@ == self@.job_name,
    {
        self.job_name.as_str()
    }

    pub fn description(&self) -> (r: Option<&str>)
        ensures
            r is Some == self@.description is Some,
            r matches Some(s) ==> self@.description == Some(s@),
    {
        match &self.description {
            Some(s) => Some(s.as_str()),
            None => None,
        }
    }

    pub fn schedule(&self) -> (r: &CronSchedule)
        ensures
            r@ == self@.schedule,
    {
        &self.schedule
    }

    pub fn image_options(&self) -> (r: Option<&str>)
        ensures
            r is Some == self@.image_options is Some,
            r matches Some(s) ==> self@.image_options == Some(s@),
    {
        match &self.image_options {
            Some(s) => Some(s.as_str()),
            None => None,
        }
    }

    pub fn image_name(&self) -> (r: &str)
        ensures
            r@ == self@.image_name,
    {
        self.image_name.as_str()
    }

    pub fn command(&self) -> (r: Option<&str>)
        ensures
            r is Some == self@.command is Some,
            r matches Some(s) ==> self@.command == Some(s@),
    {
        match &self.command {
            Some(s) => Some(s.as_str()),
            None => None,
        }
    }

    pub fn command_args(&self) -> (r: Option<&str>)
        ensures
            r is Some == self@.command_args is Some,
            r matches Some(s) ==> self@.command_args == Some(s@),
    {
        match &self.command_args {
            Some(s) => Some(s.as_str()),
            None => None,
        }
    }

    pub fn max_retries(&self) -> (r: i32)
        ensures
            r == self@.max_retries,
    {
        self.max_retries
    }

    pub fn status(&self) -> (r: &JobStatus)
        ensures
            *r == self@.status,
    {
        &self.status
    }

    pub fn priority(&self) -> (r: i32)
        ensures
            r == self@.priority,
    {
        self.priority
    }

    pub fn queue_id(&self) -> (r: &QueueId)
        ensures
            *r == self@.queue_id,
    {
        &self.queue_id
    }

    pub fn queue_name(&self) -> (r: &str)
        ensures
            r@ == self@.queue_name,
    {
        self.queue_name.as_str()
    }

    pub fn max_concurrency(&self) -> (r: i32)
        ensures
            r == self@.max_concurrency,
    {
        self.max_concurrency
    }

    pub fn timeout_seconds(&self) -> (r: Option<i64>)
        ensures
            r == self@.timeout_seconds,
    {
        self.timeout_seconds
    }

    pub fn created_at(&self) -> (r: UtcTime)
        ensures
            r == self@.created_at,
    {
        self.created_at
    }

    pub fn updated_at(&self) -> (r: UtcTime)
        ensures
            r == self@.updated_at,
    {
        self.updated_at
    }

    /// The next time the job's schedule fires after now (or now, when
    /// `inclusive_now`). Whatever the clock read, the answer is what `croner`
    /// finds from that time.
    pub fn calculate_next_occurrence(&self, inclusive_now: bool) -> (r: Result<UtcTime, croner::errors::CronError>)
        ensures
            exists|now: UtcTime|
                {
                    &&& chrono_has_time(now.seconds, now.nanos)
                    &&& (r is Ok <==> #[trigger] cron_next_occurrence(
                        self@.schedule,
                        now.seconds,
                        now.nanos,
                        inclusive_now,
                    ) is Some)
                    &&& (r matches Ok(t) ==> cron_next_occurrence(self@.schedule, now.seconds, now.nanos, inclusive_now)
                        == Some((t.seconds, t.nanos)))
                },
    {
        let now = utc_now();
        let r = self.schedule.next_occurrence(now, inclusive_now);
        assert(cron_next_occurrence(self@.schedule, now.seconds, now.nanos, inclusive_now) is Some <==> r is Ok);
        r
    }

    /// The job as listed to a client, in the queue named `queue_name`.
    pub fn to_job_item(&self, queue_name: &str) -> (r: JobItem)
        ensures
            r.job_id@ == uuid_text(self@.job_id.0),
            r.job_name@ == self@.job_name,
            r.status@ == job_status_text(self@.status),
            r.schedule@ == cron_text(self@.schedule),
            r.image_name@ == self@.image_name,
            r.queue_name@ == queue_name@,
            r.max_retries == self@.max_retries,
            r.priority == self@.priority,
            !r.no_retry,
            r.next_occurrence_at is None,
    {
        JobItem {
            job_id: self.job_id.to_string(),
            job_name: self.job_name.clone(),
            status: self.status.to_string(),
            schedule: self.schedule.to_string(),
            image_name: self.image_name.clone(),
            queue_name: queue_name.to_owned(),
            max_retries: self.max_retries,
            priority: self.priority(),
            no_retry: false,
            next_occurrence_at: None,
        }
    }
}

} // verus!
