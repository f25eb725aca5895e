//! Job commands: the arguments of `job add` and how they become a request,
//! how a job is named in a request, and how a listed job is shown.

use crate::cli::error::CliError;
use crate::cron::{cron_accepts, CronSchedule};
use crate::domain::id::uuid_text;
use crate::proto::{AddJobRequest, JobIdentifier, JobIdentifierRequest, JobItem};
use crate::time::{display_time, display_time_text};
use vstd::prelude::*;

verus! {

/// The priority of a job that sets none.
pub const DEFAULT_PRIORITY: i32 = 1;

/// The concurrency limit of a job that sets none.
pub const DEFAULT_MAX_CONCURRENCY: i32 = 100;

/// The timeout of a job that sets none, in seconds.
pub const DEFAULT_TIMEOUT_SECONDS: i32 = 7200;

/// Parses a cron expression.
pub fn parse_cron(s: &str) -> (r: Result<CronSchedule, croner::errors::CronError>)
    ensures
        r is Ok <==> cron_accepts(s@),
        r matches Ok(c) ==> c@ == s@,
{
    CronSchedule::parse(s)
}

/// The arguments of `job add`, as values.
pub struct AddJobArgsView {
    pub has_file: bool,
    pub job_name: Option<Seq<char>>,
    pub description: Option<Seq<char>>,
    pub schedule: Option<Seq<char>>,
    pub options: Option<Seq<char>>,
    pub image_name: Option<Seq<char>>,
    pub command: Option<Seq<char>>,
    pub args: Option<Seq<Seq<char>>>,
    pub no_retry: Option<bool>,
    pub priority: Option<i32>,
    pub queue_name: Option<Seq<char>>,
    pub max_concurrency: Option<i32>,
    pub timeout_seconds: Option<i32>,
    pub dry_run: bool,
}

/// The arguments of `job add`, given on the command line or in a job
/// definition file.
#[derive(Debug)]
pub struct AddJobArgs {
    /// Path to a toml job configuration file
    pub file: Option<std::path::PathBuf>,
    /// Name of the job
    pub job_name: Option<String>,
    /// The description of the job
    pub description: Option<String>,
    /// A 5-7 fields cron schedule
    pub schedule: Option<String>,
    /// Space delimited option flags that configure how the container is run
    pub options: Option<String>,
    /// The image name as <optional_registry>/<repository>:<tag>
    pub image_name: Option<String>,
    /// Name of the executable that runs inside the container
    pub command: Option<String>,
    /// Arguments passed to the command
    pub args: Option<Vec<String>>,
    /// Retry on failure
    pub no_retry: Option<bool>,
    /// Job priority
    pub priority: Option<i32>,
    /// Name of the queue this job is assigned to
    pub queue_name: Option<String>,
    /// Maximum number of running jobs concurrently
    pub max_concurrency: Option<i32>,
    /// Time in seconds before the job is forcefully stopped
    pub timeout_seconds: Option<i32>,
    /// Print the arguments instead of sending the request
    pub dry_run: bool,
}

impl View for AddJobArgs {
    type V = AddJobArgsView;

    open spec fn view(&self) -> AddJobArgsView {
        AddJobArgsView {
            has_file: self.file is Some,
            job_name: self.job_name.deep_view(),
            description: self.description.deep_view(),
            schedule: self.schedule.deep_view(),
            options: self.options.deep_view(),
            image_name: self.image_name.deep_view(),
            command: self.command.deep_view(),
            args: self.args.deep_view(),
            no_retry: self.no_retry,
            priority: self.priority,
            queue_name: self.queue_name.deep_view(),
            max_concurrency: self.max_concurrency,
            timeout_seconds: self.timeout_seconds,
            dry_run: self.dry_run,
        }
    }
}

/// A request to add a job, as a value.
pub struct AddJobRequestView {
    pub job_name: Seq<char>,
    pub description: Option<Seq<char>>,
    pub schedule: Seq<char>,
    pub image_name: Seq<char>,
    pub queue_name: Seq<char>,
    pub no_retry: bool,
    pub options: Option<Seq<char>>,
    pub command: Option<Seq<char>>,
    pub args: Seq<Seq<char>>,
    pub priority: i32,
    pub max_concurrency: i32,
    pub timeout_seconds: i32,
}

impl View for AddJobRequest {
    type V = AddJobRequestView;

    open spec fn view(&self) -> AddJobRequestView {
        AddJobRequestView {
            job_name: self.job_name@,
            description: self.description.deep_view(),
            schedule: self.schedule@,
            image_name: self.image_name@,
            queue_name: self.queue_name@,
            no_retry: self.no_retry,
            options: self.options.deep_view(),
            command: self.command.deep_view(),
            args: self.args.deep_view(),
            priority: self.priority,
            max_concurrency: self.max_concurrency,
            timeout_seconds: self.timeout_seconds,
        }
    }
}

/// `a`, or else `b`.
pub open spec fn or_else<T>(a: Option<T>, b: Option<T>) -> Option<T> {
    match a {
        Some(x) => Some(x),
        None => b,
    }
}

/// The value held, or else `d`.
pub open spec fn unwrap_or<T>(a: Option<T>, d: T) -> T {
    match a {
        Some(x) => x,
        None => d,
    }
}

/// The request built from arguments whose name, schedule, image and queue
/// are known; the message of the first of them that is missing otherwise.
pub open spec fn request_of(
    job_name: Option<Seq<char>>,
    description: Option<Seq<char>>,
    schedule: Option<Seq<char>>,
    image_name: Option<Seq<char>>,
    queue_name: Option<Seq<char>>,
    no_retry: Option<bool>,
    options: Option<Seq<char>>,
    command: Option<Seq<char>>,
    args: Option<Seq<Seq<char>>>,
    priority: Option<i32>,
    max_concurrency: Option<i32>,
    timeout_seconds: Option<i32>,
) -> Result<AddJobRequestView, Seq<char>> {
    if job_name is None {
        Err("Missing job name"@)
    } else if schedule is None {
        Err("Missing job schedule"@)
    } else if image_name is None {
        Err("Missing image name"@)
    } else if queue_name is None {
        Err("Missing queue name"@)
    } else {
        Ok(
            AddJobRequestView {
                job_name: job_name->0,
                description,
                schedule: schedule->0,
                image_name: image_name->0,
                queue_name: queue_name->0,
                no_retry: unwrap_or(no_retry, false),
                options,
                command,
                args: unwrap_or(args, Seq::empty()),
                priority: unwrap_or(priority, DEFAULT_PRIORITY),
                max_concurrency: unwrap_or(max_concurrency, DEFAULT_MAX_CONCURRENCY),
                timeout_seconds: unwrap_or(timeout_seconds, DEFAULT_TIMEOUT_SECONDS),
            },
        )
    }
}

/// The request that the command line arguments alone describe.
pub open spec fn request_from_args(a: AddJobArgsView) -> Result<AddJobRequestView, Seq<char>> {
    request_of(
        a.job_name,
        a.description,
        a.schedule,
        a.image_name,
        a.queue_name,
        a.no_retry,
        a.options,
        a.command,
        a.args,
        a.priority,
        a.max_concurrency,
        a.timeout_seconds,
    )
}

/// The request that the command line arguments `c` and the arguments `p` of
/// a job definition file describe together: for every field, the command
/// line value when it is given, the file's otherwise.
pub open spec fn request_from_merge(c: AddJobArgsView, p: AddJobArgsView) -> Result<AddJobRequestView, Seq<char>> {
    request_of(
        or_else(c.job_name, p.job_name),
        or_else(c.description, p.description),
        or_else(c.schedule, p.schedule),
        or_else(c.image_name, p.image_name),
        or_else(c.queue_name, p.queue_name),
        or_else(c.no_retry, p.no_retry),
        or_else(c.options, p.options),
        or_else(c.command, p.command),
        or_else(c.args, p.args),
        or_else(c.priority, p.priority),
        or_else(c.max_concurrency, p.max_concurrency),
        or_else(c.timeout_seconds, p.timeout_seconds),
    )
}

/// The request that `job add` resolves: from the command line alone, or
/// merged with the parsed job definition file when there is one.
pub open spec fn resolved_request(c: AddJobArgsView, parsed: Option<AddJobArgsView>) -> Result<AddJobRequestView, Seq<char>> {
    match parsed {
        None => request_from_args(c),
        Some(p) => request_from_merge(c, p),
    }
}

/// Whether resolving would stop on an invalid schedule: a job is named,
/// and the schedule given on the command line is one that `croner` refuses.
pub open spec fn schedule_refused(c: AddJobArgsView, parsed: Option<AddJobArgsView>) -> bool {
    let name = match parsed {
        None => c.job_name,
        Some(p) => or_else(c.job_name, p.job_name),
    };
    &&& name is Some
    &&& c.schedule matches Some(s) && !cron_accepts(s)
}

/// Whether `r` is the result whose request or usage error `spec` describes.
pub open spec fn request_outcome(r: Result<AddJobRequest, CliError>, spec: Result<AddJobRequestView, Seq<char>>) -> bool {
    match spec {
        Ok(v) => r matches Ok(req) && req@ == v,
        Err(m) => r matches Err(CliError::Cli(msg)) && msg@ == m,
    }
}

fn clone_string_opt(s: &Option<String>) -> (r: Option<String>)
    ensures
        r.deep_view() == s.deep_view(),
{
    match s {
        Some(v) => Some(v.clone()),
        None => None,
    }
}

fn or_string(a: Option<String>, b: Option<String>) -> (r: Option<String>)
    ensures
        r.deep_view() == or_else(a.deep_view(), b.deep_view()),
{
    match a {
        Some(x) => Some(x),
        None => b,
    }
}

/// Requires that a schedule given is one that `croner` accepts, as the
/// command line stops on any other.
fn checked_schedule(s: Option<String>) -> (r: Option<String>)
    requires
        s matches Some(v) ==> cron_accepts(v@),
    ensures
        r.deep_view() == s.deep_view(),
{
    match s {
        Some(v) => {
            let _ = parse_cron(v.as_str());
            Some(v)
        },
        None => None,
    }
}

impl AddJobArgs {
    /// The arguments with the defaults of `job add`: the names, schedule,
    /// image, options and command kept, no file, no arguments, retries on,
    /// priority 1, no concurrency limit (-1), a timeout of 7200 seconds.
    pub fn default(&self) -> (r: Self)
        ensures
            r@ == (AddJobArgsView {
                has_file: false,
                args: None,
                no_retry: Some(false),
                priority: Some(1i32),
                max_concurrency: Some(-1i32),
                timeout_seconds: Some(7200i32),
                dry_run: false,
                ..self@
            }),
    {
        AddJobArgs {
            file: None,
            job_name: clone_string_opt(&self.job_name),
            description: clone_string_opt(&self.description),
            schedule: clone_string_opt(&self.schedule),
            image_name: clone_string_opt(&self.image_name),
            queue_name: clone_string_opt(&self.queue_name),
            no_retry: Some(false),
            options: clone_string_opt(&self.options),
            command: clone_string_opt(&self.command),
            args: None,
            priority: Some(1),
            max_concurrency: Some(-1),
            timeout_seconds: Some(7200),
            dry_run: false,
        }
    }

    /// Resolves the request of `job add`: from these command line arguments
    /// alone, or, when a job definition file was given and `parsed` holds
    /// its arguments, from both, the command line taking precedence.
    pub fn resolve(self, parsed: Option<AddJobArgs>) -> (r: Result<AddJobRequest, CliError>)
        requires
            !schedule_refused(self@, match parsed {
                Some(p) => Some(p@),
                None => None,
            }),
        ensures
            request_outcome(r, resolved_request(self@, match parsed {
                Some(p) => Some(p@),
                None => None,
            })),
    {
        let parsed = match parsed {
            None => {
                return AddJobRequest::try_from_args(self);
            },
            Some(p) => p,
        };
        let job_name = match or_string(self.job_name, parsed.job_name) {
            Some(n) => n,
            None => {
                return Err(CliError::Cli("Missing job name"));
            },
        };
        let schedule_str = checked_schedule(self.schedule);
        let schedule = match or_string(schedule_str, parsed.schedule) {
            Some(s) => s,
            None => {
                return Err(CliError::Cli("Missing job schedule"));
            },
        };
        let image_name = match or_string(self.image_name, parsed.image_name) {
            Some(s) => s,
            None => {
                return Err(CliError::Cli("Missing image name"));
            },
        };
        let queue_name = match or_string(self.queue_name, parsed.queue_name) {
            Some(s) => s,
            None => {
                return Err(CliError::Cli("Missing queue name"));
            },
        };
        let timeout_seconds = match self.timeout_seconds {
            Some(t) => t,
            None => match parsed.timeout_seconds {
                Some(t) => t,
                None => DEFAULT_TIMEOUT_SECONDS,
            },
        };
        let max_concurrency = match self.max_concurrency {
            Some(m) => m,
            None => match parsed.max_concurrency {
                Some(m) => m,
                None => DEFAULT_MAX_CONCURRENCY,
            },
        };
        let priority = match self.priority {
            Some(p) => p,
            None => match parsed.priority {
                Some(p) => p,
                None => DEFAULT_PRIORITY,
            },
        };
        let no_retry = match self.no_retry {
            Some(b) => b,
            None => match parsed.no_retry {
                Some(b) => b,
                None => false,
            },
        };
        let args = match self.args {
            Some(a) => a,
            None => match parsed.args {
                Some(a) => a,
                None => Vec::new(),
            },
        };
        let request = AddJobRequest {
            job_name,
            description: or_string(self.description, parsed.description),
            schedule,
            image_name,
            queue_name,
            max_concurrency,
            timeout_seconds,
            priority,
            no_retry,
            options: or_string(self.options, parsed.options),
            command: or_string(self.command, parsed.command),
            args,
        };
        proof {
            assert(request.args.deep_view() == unwrap_or(or_else(self@.args, parsed@.args), Seq::<Seq<char>>::empty()));
        }
        Ok(request)
    }

    /// `resolve`, unless the schedule given on the command line is refused
    /// (where the command line stops): then `None`.
    pub fn resolve_checked(self, parsed: Option<AddJobArgs>) -> (r: Option<Result<AddJobRequest, CliError>>)
        ensures
            r is None <==> schedule_refused(self@, match parsed {
                Some(p) => Some(p@),
                None => None,
            }),
            r matches Some(res) ==> request_outcome(res, resolved_request(self@, match parsed {
                Some(p) => Some(p@),
                None => None,
            })),
    {
        let named = self.job_name.is_some() || match &parsed {
            Some(p) => p.job_name.is_some(),
            None => false,
        };
        if named {
            if let Some(s) = &self.schedule {
                if parse_cron(s.as_str()).is_err() {
                    return None;
                }
            }
        }
        Some(self.resolve(parsed))
    }
}

impl AddJobRequest {
    /// The request that the command line arguments alone describe (see
    /// `request_from_args`).
    pub fn try_from_args(value: AddJobArgs) -> (r: Result<AddJobRequest, CliError>)
        requires
            !schedule_refused(value@, None),
        ensures
            request_outcome(r, request_from_args(value@)),
    {
        let name = match value.job_name {
            Some(n) => n,
            None => {
                return Err(CliError::Cli("Missing job name"));
            },
        };
        let schedule = match checked_schedule(value.schedule) {
            Some(s) => s,
            None => {
                return Err(CliError::Cli("Missing job schedule"));
            },
        };
        let image_name = match value.image_name {
            Some(s) => s,
            None => {
                return Err(CliError::Cli("Missing image name"));
            },
        };
        let queue_name = match value.queue_name {
            Some(s) => s,
            None => {
                return Err(CliError::Cli("Missing queue name"));
            },
        };
        let no_retry = match value.no_retry {
            Some(b) => b,
            None => false,
        };
        let args = match value.args {
            Some(a) => a,
            None => Vec::new(),
        };
        let priority = match value.priority {
            Some(p) => p,
            None => DEFAULT_PRIORITY,
        };
        let max_concurrency = match value.max_concurrency {
            Some(m) => m,
            None => DEFAULT_MAX_CONCURRENCY,
        };
        let timeout_seconds = match value.timeout_seconds {
            Some(t) => t,
            None => DEFAULT_TIMEOUT_SECONDS,
        };
        let req = AddJobRequest {
            job_name: name,
            description: value.description,
            schedule,
            image_name,
            queue_name,
            no_retry,
            options: value.options,
            command: value.command,
            args,
            priority,
            max_concurrency,
            timeout_seconds,
        };
        proof {
            assert(req.args.deep_view() == unwrap_or(value@.args, Seq::<Seq<char>>::empty()));
        }
        Ok(req)
    }

    /// `try_from_args`, unless the schedule is refused (where the command
    /// line stops): then `None`.
    pub fn try_from_args_checked(value: AddJobArgs) -> (r: Option<Result<AddJobRequest, CliError>>)
        ensures
            r is None <==> schedule_refused(value@, None),
            r matches Some(res) ==> request_outcome(res, request_from_args(value@)),
    {
        if value.job_name.is_some() {
            if let Some(s) = &value.schedule {
                if parse_cron(s.as_str()).is_err() {
                    return None;
                }
            }
        }
        Some(AddJobRequest::try_from_args(value))
    }
}

/// Command line arguments take precedence over a job definition file: in a
/// request resolved from both, every field given on the command line holds
/// the command line value.
pub proof fn lemma_cli_precedence(c: AddJobArgsView, p: AddJobArgsView)
    requires
        request_from_merge(c, p) is Ok,
    ensures
        ({
            let r = request_from_merge(c, p)->Ok_0;
            &&& c.job_name matches Some(v) ==> r.job_name == v
            &&& c.description matches Some(v) ==> r.description == Some(v)
            &&& c.schedule matches Some(v) ==> r.schedule == v
            &&& c.image_name matches Some(v) ==> r.image_name == v
            &&& c.queue_name matches Some(v) ==> r.queue_name == v
            &&& c.no_retry matches Some(v) ==> r.no_retry == v
            &&& c.options matches Some(v) ==> r.options == Some(v)
            &&& c.command matches Some(v) ==> r.command == Some(v)
            &&& c.args matches Some(v) ==> r.args == v
            &&& c.priority matches Some(v) ==> r.priority == v
            &&& c.max_concurrency matches Some(v) ==> r.max_concurrency == v
            &&& c.timeout_seconds matches Some(v) ==> r.timeout_seconds == v
        }),
{
}

/// The job definition file fills in what the command line leaves out: a
/// request is resolved exactly when the name, schedule, image and queue are
/// each given by one side or the other, and every field that the command line
/// leaves out holds the file's value (its default where the file gives none
/// either).
pub proof fn lemma_file_fills_gaps(c: AddJobArgsView, p: AddJobArgsView)
    ensures
        request_from_merge(c, p) is Ok <==> {
            &&& (c.job_name is Some || p.job_name is Some)
            &&& (c.schedule is Some || p.schedule is Some)
            &&& (c.image_name is Some || p.image_name is Some)
            &&& (c.queue_name is Some || p.queue_name is Some)
        },
        request_from_merge(c, p) is Ok ==> ({
            let r = request_from_merge(c, p)->Ok_0;
            &&& c.job_name is None ==> Some(r.job_name) == p.job_name
            &&& c.description is None ==> r.description == p.description
            &&& c.schedule is None ==> Some(r.schedule) == p.schedule
            &&& c.image_name is None ==> Some(r.image_name) == p.image_name
            &&& c.queue_name is None ==> Some(r.queue_name) == p.queue_name
            &&& c.no_retry is None ==> r.no_retry == (match p.no_retry {
                Some(v) => v,
                None => false,
            })
            &&& c.options is None ==> r.options == p.options
            &&& c.command is None ==> r.command == p.command
            &&& c.args is None ==> r.args == (match p.args {
                Some(v) => v,
                None => Seq::<Seq<char>>::empty(),
            })
            &&& c.priority is None ==> r.priority == (match p.priority {
                Some(v) => v,
                None => DEFAULT_PRIORITY,
            })
            &&& c.max_concurrency is None ==> r.max_concurrency == (match p.max_concurrency {
                Some(v) => v,
                None => DEFAULT_MAX_CONCURRENCY,
            })
            &&& c.timeout_seconds is None ==> r.timeout_seconds == (match p.timeout_seconds {
                Some(v) => v,
                None => DEFAULT_TIMEOUT_SECONDS,
            })
        }),
{
}

/// A job definition file fills in exactly what the command line leaves out:
/// merged with a file that gives nothing, the command line arguments
/// resolve to the request they describe alone.
pub proof fn lemma_empty_file_changes_nothing(c: AddJobArgsView, p: AddJobArgsView)
    requires
        p.job_name is None,
        p.description is None,
        p.schedule is None,
        p.image_name is None,
        p.queue_name is None,
        p.no_retry is None,
        p.options is None,
        p.command is None,
        p.args is None,
        p.priority is None,
        p.max_concurrency is None,
        p.timeout_seconds is None,
    ensures
        request_from_merge(c, p) == request_from_args(c),
{
}

/// How a job is named on the command line: by UUID or by name.
#[derive(Debug)]
pub struct JobIdentifierArgs {
    /// UUID of the job
    pub job_id: Option<u128>,
    /// Name of the job
    pub job_name: Option<String>,
}

/// The job identifier that a request carries for the arguments: the UUID
/// when one is given, the name otherwise.
pub open spec fn job_identifier_of(id: Option<u128>, name: Option<Seq<char>>) -> Option<(bool, Seq<char>)> {
    match id {
        Some(i) => Some((true, uuid_text(i))),
        None => match name {
            Some(n) => Some((false, n)),
            None => None,
        },
    }
}

/// The identifier of a request, as (is a UUID, text).
pub open spec fn job_identifier_view(r: JobIdentifierRequest) -> Option<(bool, Seq<char>)> {
    match r.job_identifier {
        Some(JobIdentifier::JobId(s)) => Some((true, s@)),
        Some(JobIdentifier::JobName(s)) => Some((false, s@)),
        None => None,
    }
}

impl JobIdentifierArgs {
    /// The request that names the job.
    pub fn into_request(self) -> (r: JobIdentifierRequest)
        ensures
            job_identifier_view(r) == job_identifier_of(self.job_id, self.job_name.deep_view()),
    {
        match self.job_id {
            Some(id) => JobIdentifierRequest {
                job_identifier: Some(JobIdentifier::JobId(crate::domain::id::JobId::new(id).to_string())),
            },
            None => match self.job_name {
                Some(name) => JobIdentifierRequest { job_identifier: Some(JobIdentifier::JobName(name)) },
                None => JobIdentifierRequest { job_identifier: None },
            },
        }
    }

    /// How the identifier is shown: `id: <uuid>`, `name: <name>`, or
    /// `unspecified identifier`.
    pub fn to_string(&self) -> (s: String)
        ensures
            s@ == match self.job_id {
                Some(i) => "id: "@ + uuid_text(i),
                None => match self.job_name {
                    Some(n) => "name: "@ + n@,
                    None => "unspecified identifier"@,
                },
            },
    {
        match self.job_id {
            Some(id) => {
                let text = crate::domain::id::JobId::new(id).to_string();
                String::from_str("id: ").concat(text.as_str())
            },
            None => match &self.job_name {
                Some(n) => String::from_str("name: ").concat(n.as_str()),
                None => String::from_str("unspecified identifier"),
            },
        }
    }
}

/// A listed job, as shown in a table.
#[derive(Debug)]
pub struct JobDisplay {
    pub job_id: String,
    pub job_name: String,
    pub schedule: String,
    pub image_name: String,
    pub queue_name: String,
    pub priority: i32,
    pub no_retry: bool,
    pub next_occurrence_at: String,
}

impl JobDisplay {
    /// The row shown for a listed job.
    pub fn from_item(value: JobItem) -> (r: JobDisplay)
        ensures
            r.job_id@ == value.job_id@,
            r.job_name@ == value.job_name@,
            r.schedule@ == value.schedule@,
            r.image_name@ == value.image_name@,
            r.queue_name@ == value.queue_name@,
            r.priority == value.priority,
            r.no_retry == value.no_retry,
            r.next_occurrence_at@ == display_time_text(value.next_occurrence_at),
    {
        let deadline = display_time(&value.next_occurrence_at);
        JobDisplay {
            job_id: value.job_id,
            job_name: value.job_name,
            schedule: value.schedule,
            image_name: value.image_name,
            queue_name: value.queue_name,
            priority: value.priority,
            no_retry: value.no_retry,
            next_occurrence_at: deadline,
        }
    }
}

} // verus!
