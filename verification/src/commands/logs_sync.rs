//! The sync of the newest logs into the directory `apexlogs`.
//!
//! A sync is a run of a state machine. A [`SyncState`] names the one action
//! it waits for ([`SyncState::action`]); whoever drives the run performs that
//! action and hands its outcome to [`SyncState::advance`]. Everything before
//! the log list is known ends the run with an [`ErrorOutput`]; after that
//! every log is fetched and written by itself, and a log that fails is
//! recorded and passed over.

use crate::auth::{AuthError, AuthErrorView, OrgAuth, OrgAuthView};
use crate::http::{
    body_of_reply, body_url, build_body_url, build_logs_query, build_query_url, clamp_limit,
    clamped_limit, fetch_log_body, logs_of_reply, logs_query, query_apex_logs, query_url, HttpError,
    HttpErrorView, HttpReply, HttpReplyView,
};
use crate::json::{copy_optional_text, json_printing, optional_text, write_value};
use crate::output::{
    error_views, log_views, outcome_view, saved_views, skipped_views, ApexLogSummary,
    ApexLogSummaryView, ErrorOutput, ErrorOutputView, OrgSummary, OrgSummaryView, SavedLog,
    SavedLogView, SkippedLog, SkippedLogView, SyncError, SyncErrorView, SyncOutput, SyncOutputView,
};
use crate::sfdx_project::{api_version_of, read_source_api_version, ProjectError};
use crate::text::{chars_of, copy_text, join, text_of};
use vstd::multiset::Multiset;
use vstd::prelude::*;
use vstd::utf8::encode_utf8;

verus! {

/// The number of logs asked for where the caller names none.
pub const DEFAULT_LIMIT: u32 = 100;

/// The directory, below the working directory, that the logs are written to.
pub const SAVED_DIR: &'static str = "apexlogs";

/// What a sync is asked to do.
#[derive(Debug, Clone)]
pub struct LogsSyncArgs {
    pub limit: u32,
    pub target: Option<String>,
}

pub struct LogsSyncArgsView {
    pub limit: u32,
    pub target: Option<Seq<char>>,
}

impl View for LogsSyncArgs {
    type V = LogsSyncArgsView;

    open spec fn view(&self) -> LogsSyncArgsView {
        LogsSyncArgsView { limit: self.limit, target: optional_text(self.target) }
    }
}

impl LogsSyncArgs {
    /// The arguments of a call that may leave the limit out.
    pub fn new(limit: Option<u32>, target: Option<String>) -> (args: LogsSyncArgs)
        ensures
            args.limit == match limit {
                Some(limit) => limit,
                None => DEFAULT_LIMIT,
            },
            args.target == target,
    {
        let limit = match limit {
            Some(limit) => limit,
            None => DEFAULT_LIMIT,
        };
        LogsSyncArgs { limit, target }
    }
}

/// The characters that a file name keeps.
pub open spec fn is_safe_char(c: char) -> bool {
    ('a' <= c <= 'z') || ('A' <= c <= 'Z') || ('0' <= c <= '9') || c == '_' || c == '.' || c == '@'
        || c == '-'
}

/// `text` with every character that a file name does not keep replaced by
/// `_`.
pub open spec fn sanitized(text: Seq<char>) -> Seq<char> {
    Seq::new(
        text.len(),
        |i: int|
            if is_safe_char(text[i]) {
                text[i]
            } else {
                '_'
            },
    )
}

/// The part of a file name that stands for the user: the name, character
/// by character, with every character that a file name does not keep
/// replaced by `_`; `default` where no name is given, that is for the empty
/// name.
pub open spec fn file_stem(username: Seq<char>) -> Seq<char> {
    if username.len() == 0 {
        "default"@
    } else {
        sanitized(username)
    }
}

/// The name of the file that holds the log `log_id` of the user.
pub open spec fn log_filename(username: Seq<char>, log_id: Seq<char>) -> Seq<char> {
    file_stem(username) + "_"@ + log_id + ".log"@
}

/// The name of the file for the log `log_id` of the user `username`.
pub fn make_log_filename(username: &str, log_id: &str) -> (name: String)
    ensures
        name@ == log_filename(username@, log_id@),
{
    let base = if username.unicode_len() == 0 {
        proof {
            reveal_strlit("default");
            assert(sanitized("default"@) =~= "default"@);
        }
        chars_of("default")
    } else {
        chars_of(username)
    };
    let mut safe: Vec<char> = Vec::new();
    let mut i: usize = 0;
    while i < base.len()
        invariant
            i <= base.len(),
            safe@ == sanitized(base@).take(i as int),
        decreases base.len() - i,
    {
        let c = base[i];
        let keep = ('a' <= c && c <= 'z') || ('A' <= c && c <= 'Z') || ('0' <= c && c <= '9') || c
            == '_' || c == '.' || c == '@' || c == '-';
        safe.push(
            if keep {
                c
            } else {
                '_'
            },
        );
        assert(safe@ =~= sanitized(base@).take(i + 1));
        i += 1;
    }
    assert(safe@ =~= sanitized(base@));
    let mut name = text_of(&safe, 0, safe.len());
    assert(name@ =~= safe@);
    name.append("_");
    name.append(log_id);
    name.append(".log");
    name
}

/// A file name holds, for the user, nothing but characters that it keeps.
pub proof fn lemma_file_stem_is_safe(username: Seq<char>)
    ensures
        forall|i: int| 0 <= i < file_stem(username).len() ==> is_safe_char(file_stem(username)[i]),
        file_stem(username).len() > 0,
{
    reveal_strlit("default");
}

/// For a user name that is given, the file name has one character for each
/// of the name's: the character itself where a file name keeps it, `_`
/// where it does not. Nothing is dropped, white space at the edges neither.
pub proof fn lemma_file_stem_replaces_in_place(username: Seq<char>)
    requires
        username.len() > 0,
    ensures
        file_stem(username).len() == username.len(),
        forall|i: int|
            0 <= i < username.len() ==> file_stem(username)[i] == if is_safe_char(username[i]) {
                username[i]
            } else {
                '_'
            },
{
}

/// For one user, two logs have the same file name only if they have the
/// same id.
pub proof fn lemma_log_filename_tells_ids_apart(
    username: Seq<char>,
    first_id: Seq<char>,
    second_id: Seq<char>,
)
    requires
        log_filename(username, first_id) == log_filename(username, second_id),
    ensures
        first_id == second_id,
{
    let head = file_stem(username) + "_"@;
    let tail = ".log"@;
    let first = log_filename(username, first_id);
    let second = log_filename(username, second_id);
    assert(first.len() == head.len() + first_id.len() + tail.len());
    assert(second.len() == head.len() + second_id.len() + tail.len());
    assert forall|i: int| 0 <= i < first_id.len() implies first_id[i] == second_id[i] by {
        assert(first[head.len() + i] == first_id[i]);
        assert(second[head.len() + i] == second_id[i]);
    }
    assert(first_id =~= second_id);
}

/// The report of a failure: `ok` is false.
pub open spec fn error_report(
    code: Seq<char>,
    message: Seq<char>,
    details: Option<Seq<char>>,
) -> ErrorOutputView {
    ErrorOutputView { ok: false, error_code: code, message, details }
}

/// The report of a failure with the given code, message and details.
pub fn error_output(code: &str, message: &str, details: Option<String>) -> (report: ErrorOutput)
    ensures
        report@ == error_report(code@, message@, optional_text(details)),
{
    ErrorOutput {
        ok: false,
        error_code: copy_text(code),
        message: copy_text(message),
        details,
    }
}

/// The report of a project that gave no API version.
pub open spec fn project_error_report(error: ProjectError) -> ErrorOutputView {
    match error {
        ProjectError::MissingProject => error_report(
            "NO_SFDX_PROJECT"@,
            "sfdx-project.json not found. Run inside a valid SFDX project."@,
            None,
        ),
        ProjectError::InvalidJson => error_report(
            "INVALID_SFDX_PROJECT"@,
            "Invalid sfdx-project.json."@,
            None,
        ),
        ProjectError::MissingApiVersion => error_report(
            "MISSING_API_VERSION"@,
            "sfdx-project.json is missing sourceApiVersion."@,
            None,
        ),
    }
}

/// The report of a project that gave no API version.
pub fn map_project_error(error: ProjectError) -> (report: ErrorOutput)
    ensures
        report@ == project_error_report(error),
{
    match error {
        ProjectError::MissingProject => error_output(
            "NO_SFDX_PROJECT",
            "sfdx-project.json not found. Run inside a valid SFDX project.",
            None,
        ),
        ProjectError::InvalidJson => error_output(
            "INVALID_SFDX_PROJECT",
            "Invalid sfdx-project.json.",
            None,
        ),
        ProjectError::MissingApiVersion => error_output(
            "MISSING_API_VERSION",
            "sfdx-project.json is missing sourceApiVersion.",
            None,
        ),
    }
}

/// The three failures of a project have three codes.
pub proof fn lemma_project_codes_differ(first: ProjectError, second: ProjectError)
    requires
        project_error_report(first).error_code == project_error_report(second).error_code,
    ensures
        first == second,
{
    reveal_strlit("NO_SFDX_PROJECT");
    reveal_strlit("INVALID_SFDX_PROJECT");
    reveal_strlit("MISSING_API_VERSION");
    assert("NO_SFDX_PROJECT"@[0] == 'N');
    assert("INVALID_SFDX_PROJECT"@[0] == 'I');
    assert("MISSING_API_VERSION"@[0] == 'M');
}

/// The report of credentials that were not found: the error in words is its
/// detail.
pub open spec fn auth_error_report(error: AuthErrorView) -> ErrorOutputView {
    error_report("AUTH_FAILED"@, "Failed to retrieve Salesforce auth."@, Some(error.message()))
}

/// The report of credentials that were not found.
pub fn map_auth_error(error: AuthError) -> (report: ErrorOutput)
    ensures
        report@ == auth_error_report(error@),
{
    error_output("AUTH_FAILED", "Failed to retrieve Salesforce auth.", Some(error.message()))
}

/// The report of a log query that failed: the error in words is its detail.
pub open spec fn http_error_report(error: HttpErrorView) -> ErrorOutputView {
    error_report("LOGS_QUERY_FAILED"@, "Failed to query Apex logs."@, Some(error.message()))
}

/// The report of a log query that failed.
pub fn map_http_error(error: HttpError) -> (report: ErrorOutput)
    ensures
        report@ == http_error_report(error@),
{
    error_output("LOGS_QUERY_FAILED", "Failed to query Apex logs.", Some(error.message()))
}

/// The report of a directory that could not be made; `detail` is the
/// system's message.
pub open spec fn io_error_report(detail: Seq<char>) -> ErrorOutputView {
    error_report("IO_ERROR"@, "Failed to write log file."@, Some(detail))
}

/// The report of a directory that could not be made.
pub fn map_io_error(detail: String) -> (report: ErrorOutput)
    ensures
        report@ == io_error_report(detail@),
{
    error_output("IO_ERROR", "Failed to write log file.", Some(detail))
}

/// The report of a working directory that could not be told; `detail` is
/// the system's message.
pub open spec fn cwd_error_report(detail: Seq<char>) -> ErrorOutputView {
    error_report("CWD_FAILED"@, "Failed to resolve current directory."@, Some(detail))
}

/// The report of a working directory that could not be told.
pub fn map_cwd_error(detail: String) -> (report: ErrorOutput)
    ensures
        report@ == cwd_error_report(detail@),
{
    error_output("CWD_FAILED", "Failed to resolve current directory.", Some(detail))
}

/// The text that stands for a report whose JSON could not be written: its
/// code and message between fixed words.
pub open spec fn bare_error_text(code: Seq<char>, message: Seq<char>) -> Seq<char> {
    "{\"ok\":false,\"errorCode\":\""@ + code + "\",\"message\":\""@ + message + "\"}"@
}

/// The text of a failure report, given what writing its JSON came to: the
/// JSON, or the bare text where it could not be written.
pub fn error_text(report: &ErrorOutput, written: Result<String, String>) -> (text: String)
    ensures
        text@ == match written {
            Ok(json) => json@,
            Err(_) => bare_error_text(report.error_code@, report.message@),
        },
{
    match written {
        Ok(json) => json,
        Err(_) => {
            let mut text = join("{\"ok\":false,\"errorCode\":\"", report.error_code.as_str());
            text.append("\",\"message\":\"");
            text.append(report.message.as_str());
            text.append("\"}");
            text
        },
    }
}

/// The text of a failure report: its JSON, or its bare text where the JSON
/// cannot be written.
pub open spec fn serialized_error(report: ErrorOutputView) -> Seq<char> {
    match json_printing(report.to_json()) {
        Ok(text) => text,
        Err(_) => bare_error_text(report.error_code, report.message),
    }
}

/// The text of a failure report.
pub fn serialize_error(report: ErrorOutput) -> (text: String)
    ensures
        text@ == serialized_error(report@),
{
    let value = report.to_value();
    let written = write_value(&value);
    error_text(&report, written)
}

/// The report of a sync report whose JSON could not be written; `detail` is
/// the writer's message.
pub open spec fn serialize_error_report(detail: Seq<char>) -> ErrorOutputView {
    error_report("SERIALIZE_FAILED"@, "Failed to serialize output."@, Some(detail))
}

/// What a finished sync hands to the command line: the JSON of its report
/// to print, or the text of its failure. A report whose JSON cannot be
/// written counts as a failure of its own, with the writer's message as its
/// detail.
pub open spec fn shown(result: Result<SyncOutputView, ErrorOutputView>) -> Result<
    Seq<char>,
    Seq<char>,
> {
    match result {
        Ok(output) => match json_printing(output.to_json()) {
            Ok(text) => Ok(text),
            Err(detail) => Err(serialized_error(serialize_error_report(detail))),
        },
        Err(report) => Err(serialized_error(report)),
    }
}

/// What a finished sync hands to the command line.
pub fn run(result: Result<SyncOutput, ErrorOutput>) -> (text: Result<String, String>)
    ensures
        match text {
            Ok(line) => shown(outcome_view(result)) == Ok::<Seq<char>, Seq<char>>(line@),
            Err(line) => shown(outcome_view(result)) == Err::<Seq<char>, Seq<char>>(line@),
        },
{
    match result {
        Ok(output) => {
            let value = output.to_value();
            match write_value(&value) {
                Ok(text) => Ok(text),
                Err(detail) => Err(
                    serialize_error(
                        error_output(
                            "SERIALIZE_FAILED",
                            "Failed to serialize output.",
                            Some(detail),
                        ),
                    ),
                ),
            }
        },
        Err(report) => Err(serialize_error(report)),
    }
}

/// What looking for the project came to.
#[derive(Debug, Clone)]
pub enum ProjectLookup {
    /// The working directory could not be told; the system's message.
    NoWorkingDir(String),
    /// No directory from the working directory upwards holds a descriptor.
    NotFound,
    /// A descriptor was found; its text, or `None` where it could not be
    /// read.
    Descriptor(Option<String>),
}

pub enum ProjectLookupView {
    NoWorkingDir(Seq<char>),
    NotFound,
    Descriptor(Option<Seq<char>>),
}

impl View for ProjectLookup {
    type V = ProjectLookupView;

    open spec fn view(&self) -> ProjectLookupView {
        match self {
            ProjectLookup::NoWorkingDir(detail) => ProjectLookupView::NoWorkingDir(detail@),
            ProjectLookup::NotFound => ProjectLookupView::NotFound,
            ProjectLookup::Descriptor(text) => ProjectLookupView::Descriptor(optional_text(*text)),
        }
    }
}

/// What making the directory for the logs came to.
#[derive(Debug, Clone)]
pub enum DirOutcome {
    /// The working directory could not be told; the system's message.
    NoWorkingDir(String),
    /// The directory could not be made; the system's message.
    NotCreated(String),
    /// The directory is there.
    Ready,
}

pub enum DirOutcomeView {
    NoWorkingDir(Seq<char>),
    NotCreated(Seq<char>),
    Ready,
}

impl View for DirOutcome {
    type V = DirOutcomeView;

    open spec fn view(&self) -> DirOutcomeView {
        match self {
            DirOutcome::NoWorkingDir(detail) => DirOutcomeView::NoWorkingDir(detail@),
            DirOutcome::NotCreated(detail) => DirOutcomeView::NotCreated(detail@),
            DirOutcome::Ready => DirOutcomeView::Ready,
        }
    }
}

/// The outcome of an action.
#[derive(Debug)]
pub enum SyncEvent {
    /// Of `LocateProject`.
    Project(ProjectLookup),
    /// Of `ResolveAuth`.
    Auth(Result<OrgAuth, AuthError>),
    /// Of `Get`.
    Reply(HttpReply),
    /// Of `EnsureDir`.
    Dir(DirOutcome),
    /// Of `WriteLog`: nothing, or the system's message.
    Written(Result<(), String>),
}

pub enum SyncEventView {
    Project(ProjectLookupView),
    Auth(Result<OrgAuthView, AuthErrorView>),
    Reply(HttpReplyView),
    Dir(DirOutcomeView),
    Written(Result<(), Seq<char>>),
}

impl View for SyncEvent {
    type V = SyncEventView;

    open spec fn view(&self) -> SyncEventView {
        match self {
            SyncEvent::Project(lookup) => SyncEventView::Project(lookup@),
            SyncEvent::Auth(Ok(auth)) => SyncEventView::Auth(Ok(auth@)),
            SyncEvent::Auth(Err(error)) => SyncEventView::Auth(Err(error@)),
            SyncEvent::Reply(reply) => SyncEventView::Reply(reply@),
            SyncEvent::Dir(outcome) => SyncEventView::Dir(outcome@),
            SyncEvent::Written(Ok(())) => SyncEventView::Written(Ok(())),
            SyncEvent::Written(Err(detail)) => SyncEventView::Written(Err(detail@)),
        }
    }
}

/// What a state waits for.
#[derive(Debug, Clone)]
pub enum SyncAction {
    /// Find the project from the working directory upwards and read its
    /// descriptor.
    LocateProject,
    /// Resolve the credentials of the target org.
    ResolveAuth { target: Option<String> },
    /// Send a GET request that bears the access token.
    Get { url: String, access_token: String },
    /// Make the directory `dir` below the working directory, unless it is
    /// there.
    EnsureDir { dir: String },
    /// Write `body` to the file `name` in the directory `dir`.
    WriteLog { dir: String, name: String, body: String },
    /// Nothing: the run is over.
    Done,
}

pub enum SyncActionView {
    LocateProject,
    ResolveAuth { target: Option<Seq<char>> },
    Get { url: Seq<char>, access_token: Seq<char> },
    EnsureDir { dir: Seq<char> },
    WriteLog { dir: Seq<char>, name: Seq<char>, body: Seq<char> },
    Done,
}

impl View for SyncAction {
    type V = SyncActionView;

    open spec fn view(&self) -> SyncActionView {
        match self {
            SyncAction::LocateProject => SyncActionView::LocateProject,
            SyncAction::ResolveAuth { target } => SyncActionView::ResolveAuth {
                target: optional_text(*target),
            },
            SyncAction::Get { url, access_token } => SyncActionView::Get {
                url: url@,
                access_token: access_token@,
            },
            SyncAction::EnsureDir { dir } => SyncActionView::EnsureDir { dir: dir@ },
            SyncAction::WriteLog { dir, name, body } => SyncActionView::WriteLog {
                dir: dir@,
                name: name@,
                body: body@,
            },
            SyncAction::Done => SyncActionView::Done,
        }
    }
}

/// The logs of a sync and what became of those before `next`.
#[derive(Debug, Clone)]
pub struct Batch {
    pub auth: OrgAuth,
    pub api_version: String,
    pub limit: u32,
    pub logs: Vec<ApexLogSummary>,
    pub next: usize,
    pub saved: Vec<SavedLog>,
    pub skipped: Vec<SkippedLog>,
    pub errors: Vec<SyncError>,
}

pub struct BatchView {
    pub auth: OrgAuthView,
    pub api_version: Seq<char>,
    pub limit: u32,
    pub logs: Seq<ApexLogSummaryView>,
    pub next: nat,
    pub saved: Seq<SavedLogView>,
    pub skipped: Seq<SkippedLogView>,
    pub errors: Seq<SyncErrorView>,
}

impl View for Batch {
    type V = BatchView;

    open spec fn view(&self) -> BatchView {
        BatchView {
            auth: self.auth@,
            api_version: self.api_version@,
            limit: self.limit,
            logs: log_views(self.logs@),
            next: self.next as nat,
            saved: saved_views(self.saved@),
            skipped: skipped_views(self.skipped@),
            errors: error_views(self.errors@),
        }
    }
}

/// The number of bytes that a text takes in UTF-8.
pub open spec fn byte_size(text: Seq<char>) -> u64 {
    (encode_utf8(text).len() as usize) as u64
}

impl BatchView {
    /// The id of the log whose turn it is.
    pub open spec fn current_id(self) -> Seq<char> {
        self.logs[self.next as int].id
    }

    /// The name of the file for the log whose turn it is.
    pub open spec fn current_file(self) -> Seq<char> {
        log_filename(
            match self.auth.username {
                Some(username) => username,
                None => "default"@,
            },
            self.current_id(),
        )
    }

    /// The report of the sync: it counts as done however its logs fared.
    pub open spec fn output(self) -> SyncOutputView {
        SyncOutputView {
            ok: true,
            org: OrgSummaryView {
                username: self.auth.username,
                instance_url: self.auth.instance_url,
            },
            api_version: self.api_version,
            limit: self.limit,
            saved_dir: SAVED_DIR@,
            logs: self.logs,
            saved: self.saved,
            skipped: self.skipped,
            errors: self.errors,
        }
    }

    /// The state that follows once the log whose turn it was is dealt
    /// with: the wait for the next log's body, or the end.
    pub open spec fn proceed(self) -> SyncStateView {
        if self.next < self.logs.len() {
            SyncStateView::Fetching(self)
        } else {
            SyncStateView::Finished(Ok(self.output()))
        }
    }

    /// The batch after the body of the current log could not be fetched.
    pub open spec fn skip(self, error: HttpErrorView) -> BatchView {
        BatchView {
            next: self.next + 1,
            skipped: self.skipped.push(
                SkippedLogView { id: self.current_id(), reason: error.message() },
            ),
            ..self
        }
    }

    /// The batch after the body of the current log was written.
    pub open spec fn save(self, body: Seq<char>) -> BatchView {
        BatchView {
            next: self.next + 1,
            saved: self.saved.push(
                SavedLogView {
                    id: self.current_id(),
                    file: SAVED_DIR@ + "/"@ + self.current_file(),
                    size: byte_size(body),
                },
            ),
            ..self
        }
    }

    /// The batch after the body of the current log could not be written.
    pub open spec fn fail(self, detail: Seq<char>) -> BatchView {
        BatchView {
            next: self.next + 1,
            errors: self.errors.push(
                SyncErrorView { id: Some(self.current_id()), message: detail },
            ),
            ..self
        }
    }
}

/// Where a sync stands.
#[derive(Debug)]
pub enum SyncState {
    /// The project is being looked for.
    Locating { limit: u32, target: Option<String> },
    /// The credentials are being resolved.
    Authorizing { limit: u32, target: Option<String>, api_version: String },
    /// The log list is being asked for.
    Querying { auth: OrgAuth, api_version: String, limit: u32 },
    /// The directory for the logs is being made.
    Preparing { auth: OrgAuth, api_version: String, limit: u32, logs: Vec<ApexLogSummary> },
    /// The body of the log `next` is being fetched.
    Fetching(Batch),
    /// The body of the log `next` is being written.
    Writing { batch: Batch, body: String },
    /// The run is over.
    Finished(Result<SyncOutput, ErrorOutput>),
}

pub enum SyncStateView {
    Locating { limit: u32, target: Option<Seq<char>> },
    Authorizing { limit: u32, target: Option<Seq<char>>, api_version: Seq<char> },
    Querying { auth: OrgAuthView, api_version: Seq<char>, limit: u32 },
    Preparing {
        auth: OrgAuthView,
        api_version: Seq<char>,
        limit: u32,
        logs: Seq<ApexLogSummaryView>,
    },
    Fetching(BatchView),
    Writing { batch: BatchView, body: Seq<char> },
    Finished(Result<SyncOutputView, ErrorOutputView>),
}

impl View for SyncState {
    type V = SyncStateView;

    open spec fn view(&self) -> SyncStateView {
        match self {
            SyncState::Locating { limit, target } => SyncStateView::Locating {
                limit: *limit,
                target: optional_text(*target),
            },
            SyncState::Authorizing { limit, target, api_version } => SyncStateView::Authorizing {
                limit: *limit,
                target: optional_text(*target),
                api_version: api_version@,
            },
            SyncState::Querying { auth, api_version, limit } => SyncStateView::Querying {
                auth: auth@,
                api_version: api_version@,
                limit: *limit,
            },
            SyncState::Preparing { auth, api_version, limit, logs } => SyncStateView::Preparing {
                auth: auth@,
                api_version: api_version@,
                limit: *limit,
                logs: log_views(logs@),
            },
            SyncState::Fetching(batch) => SyncStateView::Fetching(batch@),
            SyncState::Writing { batch, body } => SyncStateView::Writing {
                batch: batch@,
                body: body@,
            },
            SyncState::Finished(Ok(output)) => SyncStateView::Finished(Ok(output@)),
            SyncState::Finished(Err(report)) => SyncStateView::Finished(Err(report@)),
        }
    }
}

impl LogsSyncArgsView {
    /// The state a sync begins in.
    pub open spec fn start(self) -> SyncStateView {
        SyncStateView::Locating { limit: self.limit, target: self.target }
    }
}

/// The API version of a descriptor that may not have been read.
pub open spec fn declared_version(descriptor: Option<Seq<char>>) -> Result<
    Seq<char>,
    ProjectError,
> {
    match descriptor {
        Some(text) => api_version_of(text),
        None => Err(ProjectError::MissingProject),
    }
}

impl SyncStateView {
    /// The action that the state waits for.
    pub open spec fn action(self) -> SyncActionView {
        match self {
            SyncStateView::Locating { .. } => SyncActionView::LocateProject,
            SyncStateView::Authorizing { target, .. } => SyncActionView::ResolveAuth { target },
            SyncStateView::Querying { auth, api_version, limit } => SyncActionView::Get {
                url: query_url(auth.instance_url, api_version, logs_query(limit)),
                access_token: auth.access_token,
            },
            SyncStateView::Preparing { .. } => SyncActionView::EnsureDir { dir: SAVED_DIR@ },
            SyncStateView::Fetching(batch) => if batch.next < batch.logs.len() {
                SyncActionView::Get {
                    url: body_url(batch.auth.instance_url, batch.api_version, batch.current_id()),
                    access_token: batch.auth.access_token,
                }
            } else {
                SyncActionView::Done
            },
            SyncStateView::Writing { batch, body } => if batch.next < batch.logs.len() {
                SyncActionView::WriteLog { dir: SAVED_DIR@, name: batch.current_file(), body }
            } else {
                SyncActionView::Done
            },
            SyncStateView::Finished(_) => SyncActionView::Done,
        }
    }

    /// The outcome of the run where it is over: what it finished with, or
    /// the report of a batch that has no log left.
    pub open spec fn result(self) -> Option<Result<SyncOutputView, ErrorOutputView>> {
        match self {
            SyncStateView::Finished(result) => Some(result),
            SyncStateView::Fetching(batch) if batch.next >= batch.logs.len() => Some(
                Ok(batch.output()),
            ),
            SyncStateView::Writing { batch, .. } if batch.next >= batch.logs.len() => Some(
                Ok(batch.output()),
            ),
            _ => None,
        }
    }

    /// The state that follows when the action came to `event`. An event
    /// that is no outcome of the action leaves the state as it is.
    pub open spec fn after(self, event: SyncEventView) -> SyncStateView {
        match (self, event) {
            (
                SyncStateView::Locating { .. },
                SyncEventView::Project(ProjectLookupView::NoWorkingDir(detail)),
            ) => SyncStateView::Finished(Err(cwd_error_report(detail))),
            (
                SyncStateView::Locating { .. },
                SyncEventView::Project(ProjectLookupView::NotFound),
            ) => SyncStateView::Finished(Err(project_error_report(ProjectError::MissingProject))),
            (
                SyncStateView::Locating { limit, target },
                SyncEventView::Project(ProjectLookupView::Descriptor(descriptor)),
            ) => match declared_version(descriptor) {
                Ok(api_version) => SyncStateView::Authorizing { limit, target, api_version },
                Err(error) => SyncStateView::Finished(Err(project_error_report(error))),
            },
            (
                SyncStateView::Authorizing { limit, api_version, .. },
                SyncEventView::Auth(Ok(auth)),
            ) => SyncStateView::Querying { auth, api_version, limit: clamped_limit(limit) },
            (SyncStateView::Authorizing { .. }, SyncEventView::Auth(Err(error))) => {
                SyncStateView::Finished(Err(auth_error_report(error)))
            },
            (
                SyncStateView::Querying { auth, api_version, limit },
                SyncEventView::Reply(reply),
            ) => match logs_of_reply(reply) {
                Ok(logs) => SyncStateView::Preparing { auth, api_version, limit, logs },
                Err(error) => SyncStateView::Finished(Err(http_error_report(error))),
            },
            (
                SyncStateView::Preparing { .. },
                SyncEventView::Dir(DirOutcomeView::NoWorkingDir(detail)),
            ) => SyncStateView::Finished(Err(cwd_error_report(detail))),
            (
                SyncStateView::Preparing { .. },
                SyncEventView::Dir(DirOutcomeView::NotCreated(detail)),
            ) => SyncStateView::Finished(Err(io_error_report(detail))),
            (
                SyncStateView::Preparing { auth, api_version, limit, logs },
                SyncEventView::Dir(DirOutcomeView::Ready),
            ) => BatchView {
                auth,
                api_version,
                limit,
                logs,
                next: 0,
                saved: Seq::empty(),
                skipped: Seq::empty(),
                errors: Seq::empty(),
            }.proceed(),
            (SyncStateView::Fetching(batch), SyncEventView::Reply(reply)) => if batch.next
                < batch.logs.len() {
                match body_of_reply(reply) {
                    Ok(body) => SyncStateView::Writing { batch, body },
                    Err(error) => batch.skip(error).proceed(),
                }
            } else {
                batch.proceed()
            },
            (
                SyncStateView::Writing { batch, body },
                SyncEventView::Written(outcome),
            ) => if batch.next < batch.logs.len() {
                match outcome {
                    Ok(()) => batch.save(body).proceed(),
                    Err(detail) => batch.fail(detail).proceed(),
                }
            } else {
                batch.proceed()
            },
            (state, _) => state,
        }
    }
}

impl Batch {
    fn current_file(&self) -> (name: String)
        requires
            self.next < self.logs.len(),
        ensures
            name@ == self@.current_file(),
    {
        let username = match &self.auth.username {
            Some(username) => username.as_str(),
            None => "default",
        };
        make_log_filename(username, self.logs[self.next].id.as_str())
    }

    fn output(self) -> (report: SyncOutput)
        ensures
            report@ == self@.output(),
    {
        SyncOutput {
            ok: true,
            org: OrgSummary { username: self.auth.username, instance_url: self.auth.instance_url },
            api_version: self.api_version,
            limit: self.limit,
            saved_dir: copy_text(SAVED_DIR),
            logs: self.logs,
            saved: self.saved,
            skipped: self.skipped,
            errors: self.errors,
        }
    }

    fn proceed(self) -> (state: SyncState)
        ensures
            state@ == self@.proceed(),
    {
        if self.next < self.logs.len() {
            SyncState::Fetching(self)
        } else {
            SyncState::Finished(Ok(self.output()))
        }
    }

    fn skip(self, error: HttpError) -> (batch: Batch)
        requires
            self.next < self.logs.len(),
        ensures
            batch@ == self@.skip(error@),
    {
        let mut batch = self;
        let ghost before = batch.skipped@;
        let record = SkippedLog {
            id: copy_text(batch.logs[batch.next].id.as_str()),
            reason: error.message(),
        };
        batch.skipped.push(record);
        batch.next = batch.next + 1;
        assert(skipped_views(batch.skipped@) =~= skipped_views(before).push(record@));
        batch
    }

    fn save(self, body: &str) -> (batch: Batch)
        requires
            self.next < self.logs.len(),
        ensures
            batch@ == self@.save(body@),
    {
        let mut batch = self;
        let ghost before = batch.saved@;
        let name = batch.current_file();
        let mut file = join(SAVED_DIR, "/");
        file.append(name.as_str());
        let record = SavedLog {
            id: copy_text(batch.logs[batch.next].id.as_str()),
            file,
            size: body.len() as u64,
        };
        batch.saved.push(record);
        batch.next = batch.next + 1;
        assert(saved_views(batch.saved@) =~= saved_views(before).push(record@));
        batch
    }

    fn fail(self, detail: String) -> (batch: Batch)
        requires
            self.next < self.logs.len(),
        ensures
            batch@ == self@.fail(detail@),
    {
        let mut batch = self;
        let ghost before = batch.errors@;
        let record = SyncError {
            id: Some(copy_text(batch.logs[batch.next].id.as_str())),
            message: detail,
        };
        batch.errors.push(record);
        batch.next = batch.next + 1;
        assert(error_views(batch.errors@) =~= error_views(before).push(record@));
        batch
    }
}

/// Begins a sync: the state that waits for the project to be found.
pub fn sync(args: LogsSyncArgs) -> (state: SyncState)
    ensures
        state@ == args@.start(),
{
    SyncState::Locating { limit: args.limit, target: args.target }
}

impl SyncState {
    /// The action that the state waits for.
    pub fn action(&self) -> (action: SyncAction)
        ensures
            action@ == self@.action(),
    {
        match self {
            SyncState::Locating { .. } => SyncAction::LocateProject,
            SyncState::Authorizing { target, .. } => SyncAction::ResolveAuth {
                target: copy_optional_text(target),
            },
            SyncState::Querying { auth, api_version, limit } => {
                let query = build_logs_query(*limit);
                SyncAction::Get {
                    url: build_query_url(
                        auth.instance_url.as_str(),
                        api_version.as_str(),
                        query.as_str(),
                    ),
                    access_token: copy_text(auth.access_token.as_str()),
                }
            },
            SyncState::Preparing { .. } => SyncAction::EnsureDir { dir: copy_text(SAVED_DIR) },
            SyncState::Fetching(batch) => {
                if batch.next < batch.logs.len() {
                    SyncAction::Get {
                        url: build_body_url(
                            batch.auth.instance_url.as_str(),
                            batch.api_version.as_str(),
                            batch.logs[batch.next].id.as_str(),
                        ),
                        access_token: copy_text(batch.auth.access_token.as_str()),
                    }
                } else {
                    SyncAction::Done
                }
            },
            SyncState::Writing { batch, body } => {
                if batch.next < batch.logs.len() {
                    SyncAction::WriteLog {
                        dir: copy_text(SAVED_DIR),
                        name: batch.current_file(),
                        body: copy_text(body.as_str()),
                    }
                } else {
                    SyncAction::Done
                }
            },
            SyncState::Finished(_) => SyncAction::Done,
        }
    }

    /// The state that follows when the action came to `event`. An event
    /// that is no outcome of the action that the state waits for leaves the
    /// state as it is.
    pub fn advance(self, event: SyncEvent) -> (state: SyncState)
        ensures
            state@ == self@.after(event@),
    {
        match self {
            SyncState::Locating { limit, target } => match event {
                SyncEvent::Project(ProjectLookup::NoWorkingDir(detail)) => SyncState::Finished(
                    Err(map_cwd_error(detail)),
                ),
                SyncEvent::Project(ProjectLookup::NotFound) => SyncState::Finished(
                    Err(map_project_error(ProjectError::MissingProject)),
                ),
                SyncEvent::Project(ProjectLookup::Descriptor(descriptor)) => {
                    let read = match &descriptor {
                        Some(text) => read_source_api_version(Some(text.as_str())),
                        None => read_source_api_version(None),
                    };
                    match read {
                        Ok(api_version) => SyncState::Authorizing { limit, target, api_version },
                        Err(error) => SyncState::Finished(Err(map_project_error(error))),
                    }
                },
                _ => SyncState::Locating { limit, target },
            },
            SyncState::Authorizing { limit, target, api_version } => match event {
                SyncEvent::Auth(Ok(auth)) => SyncState::Querying {
                    auth,
                    api_version,
                    limit: clamp_limit(limit),
                },
                SyncEvent::Auth(Err(error)) => SyncState::Finished(Err(map_auth_error(error))),
                _ => SyncState::Authorizing { limit, target, api_version },
            },
            SyncState::Querying { auth, api_version, limit } => match event {
                SyncEvent::Reply(reply) => match query_apex_logs(reply) {
                    Ok(logs) => SyncState::Preparing { auth, api_version, limit, logs },
                    Err(error) => SyncState::Finished(Err(map_http_error(error))),
                },
                _ => SyncState::Querying { auth, api_version, limit },
            },
            SyncState::Preparing { auth, api_version, limit, logs } => match event {
                SyncEvent::Dir(DirOutcome::NoWorkingDir(detail)) => SyncState::Finished(
                    Err(map_cwd_error(detail)),
                ),
                SyncEvent::Dir(DirOutcome::NotCreated(detail)) => SyncState::Finished(
                    Err(map_io_error(detail)),
                ),
                SyncEvent::Dir(DirOutcome::Ready) => {
                    let batch = Batch {
                        auth,
                        api_version,
                        limit,
                        logs,
                        next: 0,
                        saved: Vec::new(),
                        skipped: Vec::new(),
                        errors: Vec::new(),
                    };
                    assert(saved_views(batch.saved@) =~= Seq::empty());
                    assert(skipped_views(batch.skipped@) =~= Seq::empty());
                    assert(error_views(batch.errors@) =~= Seq::empty());
                    batch.proceed()
                },
                _ => SyncState::Preparing { auth, api_version, limit, logs },
            },
            SyncState::Fetching(batch) => match event {
                SyncEvent::Reply(reply) => {
                    if batch.next < batch.logs.len() {
                        match fetch_log_body(reply) {
                            Ok(body) => SyncState::Writing { batch, body },
                            Err(error) => batch.skip(error).proceed(),
                        }
                    } else {
                        batch.proceed()
                    }
                },
                _ => SyncState::Fetching(batch),
            },
            SyncState::Writing { batch, body } => match event {
                SyncEvent::Written(outcome) => {
                    if batch.next < batch.logs.len() {
                        match outcome {
                            Ok(()) => batch.save(body.as_str()).proceed(),
                            Err(detail) => batch.fail(detail).proceed(),
                        }
                    } else {
                        batch.proceed()
                    }
                },
                _ => SyncState::Writing { batch, body },
            },
            SyncState::Finished(result) => SyncState::Finished(result),
        }
    }

    /// The outcome of the run once it is over, else the state as it is.
    pub fn into_result(self) -> (outcome: Result<Result<SyncOutput, ErrorOutput>, SyncState>)
        ensures
            match outcome {
                Ok(result) => self@.result() == Some(outcome_view(result)),
                Err(state) => state == self && self@.result() is None,
            },
    {
        match self {
            SyncState::Finished(result) => Ok(result),
            SyncState::Fetching(batch) => {
                if batch.next < batch.logs.len() {
                    Err(SyncState::Fetching(batch))
                } else {
                    Ok(Ok(batch.output()))
                }
            },
            SyncState::Writing { batch, body } => {
                if batch.next < batch.logs.len() {
                    Err(SyncState::Writing { batch, body })
                } else {
                    Ok(Ok(batch.output()))
                }
            },
            other => Err(other),
        }
    }
}

/// A state waits for nothing exactly when its run is over.
pub proof fn lemma_done_means_over(state: SyncStateView)
    ensures
        state.action() is Done <==> state.result() is Some,
{
}

impl SyncStateView {
    /// The state after one event after the other.
    pub open spec fn after_all(self, events: Seq<SyncEventView>) -> SyncStateView
        decreases events.len(),
    {
        if events.len() == 0 {
            self
        } else {
            self.after(events[0]).after_all(events.drop_first())
        }
    }
}

/// The replies as events.
pub open spec fn reply_events(replies: Seq<HttpReplyView>) -> Seq<SyncEventView> {
    Seq::new(replies.len(), |i: int| SyncEventView::Reply(replies[i]))
}

/// A run that is over stays as it is and waits for nothing, whatever comes.
pub proof fn lemma_finished_stays(
    result: Result<SyncOutputView, ErrorOutputView>,
    events: Seq<SyncEventView>,
)
    ensures
        SyncStateView::Finished(result).after_all(events) == SyncStateView::Finished(result),
        SyncStateView::Finished(result).action() == SyncActionView::Done,
    decreases events.len(),
{
    if events.len() > 0 {
        lemma_finished_stays(result, events.drop_first());
    }
}

/// A sync that finds no project, or cannot read its descriptor, is over at
/// once with the code `NO_SFDX_PROJECT`: the project was the only thing it
/// asked for, and neither credentials nor logs are asked for after it.
pub proof fn lemma_missing_project_ends_run(
    args: LogsSyncArgsView,
    lookup: ProjectLookupView,
    later: Seq<SyncEventView>,
)
    requires
        lookup is NotFound || lookup == ProjectLookupView::Descriptor(None),
    ensures
        args.start().action() == SyncActionView::LocateProject,
        args.start().after(SyncEventView::Project(lookup)) == SyncStateView::Finished(
            Err(project_error_report(ProjectError::MissingProject)),
        ),
        project_error_report(ProjectError::MissingProject).error_code == "NO_SFDX_PROJECT"@,
        !project_error_report(ProjectError::MissingProject).ok,
        args.start().after(SyncEventView::Project(lookup)).after_all(later).action()
            == SyncActionView::Done,
{
    lemma_finished_stays(Err(project_error_report(ProjectError::MissingProject)), later);
}

proof fn lemma_skipped_from(batch: BatchView, replies: Seq<HttpReplyView>)
    requires
        batch.next <= batch.logs.len(),
        replies.len() == batch.logs.len() - batch.next,
        forall|i: int| 0 <= i < replies.len() ==> body_of_reply(#[trigger] replies[i]) is Err,
    ensures
        batch.proceed().after_all(reply_events(replies)) matches SyncStateView::Finished(
            Ok(report),
        ) && {
            &&& report.ok
            &&& report.logs == batch.logs
            &&& report.saved == batch.saved
            &&& report.errors == batch.errors
            &&& report.skipped.len() == batch.skipped.len() + replies.len()
            &&& forall|i: int|
                0 <= i < batch.skipped.len() ==> report.skipped[i] == batch.skipped[i]
            &&& forall|i: int|
                0 <= i < replies.len() ==> (#[trigger] report.skipped[batch.skipped.len() + i]).id
                    == batch.logs[batch.next + i].id
        },
    decreases replies.len(),
{
    let events = reply_events(replies);
    if replies.len() > 0 {
        let error = body_of_reply(replies[0])->Err_0;
        let next = batch.skip(error);
        assert(events[0] == SyncEventView::Reply(replies[0]));
        assert(events.drop_first() =~= reply_events(replies.drop_first()));
        assert(batch.proceed().after(events[0]) == next.proceed());
        lemma_skipped_from(next, replies.drop_first());
        let report = next.proceed().after_all(reply_events(replies.drop_first()))->Finished_0->Ok_0;
        let done = batch.skipped.len() as int;
        assert forall|i: int| 0 <= i < replies.len() implies (#[trigger] report.skipped[done
            + i]).id == batch.logs[batch.next + i].id by {
            if i > 0 {
                assert(report.skipped[next.skipped.len() + (i - 1)].id == next.logs[next.next + (i
                    - 1)].id);
            } else {
                assert(report.skipped[done] == next.skipped[done]);
            }
        }
    }
}

/// A sync in which the body of every log fails to be fetched still ends
/// well: its report has `ok` set, nothing saved, no write failure, and the
/// logs, one by one and in their order, as skipped.
pub proof fn lemma_failed_fetches_are_skipped(state: SyncStateView, replies: Seq<HttpReplyView>)
    requires
        state is Preparing,
        replies.len() == state->Preparing_logs.len(),
        forall|i: int| 0 <= i < replies.len() ==> body_of_reply(#[trigger] replies[i]) is Err,
    ensures
        state.after(SyncEventView::Dir(DirOutcomeView::Ready)).after_all(reply_events(replies))
            matches SyncStateView::Finished(Ok(report)) && {
            &&& report.ok
            &&& report.logs == state->Preparing_logs
            &&& report.saved.len() == 0
            &&& report.errors.len() == 0
            &&& report.skipped.len() == report.logs.len()
            &&& forall|i: int|
                0 <= i < report.logs.len() ==> (#[trigger] report.skipped[i]).id
                    == report.logs[i].id
        },
{
    let batch = BatchView {
        auth: state->Preparing_auth,
        api_version: state->Preparing_api_version,
        limit: state->Preparing_limit,
        logs: state->Preparing_logs,
        next: 0,
        saved: Seq::empty(),
        skipped: Seq::empty(),
        errors: Seq::empty(),
    };
    assert(state.after(SyncEventView::Dir(DirOutcomeView::Ready)) == batch.proceed());
    lemma_skipped_from(batch, replies);
    let report = batch.proceed().after_all(reply_events(replies))->Finished_0->Ok_0;
    assert forall|i: int| 0 <= i < report.logs.len() implies (#[trigger] report.skipped[i]).id
        == report.logs[i].id by {
        assert(report.skipped[batch.skipped.len() + i].id == batch.logs[batch.next + i].id);
    }
}

impl SyncStateView {
    /// How far the run has come: its stage, and within the batch the
    /// number of fetches and writes behind it.
    pub open spec fn progress(self) -> (nat, nat) {
        match self {
            SyncStateView::Locating { .. } => (0, 0),
            SyncStateView::Authorizing { .. } => (1, 0),
            SyncStateView::Querying { .. } => (2, 0),
            SyncStateView::Preparing { .. } => (3, 0),
            SyncStateView::Fetching(batch) => (4, 2 * batch.next),
            SyncStateView::Writing { batch, .. } => (4, 2 * batch.next + 1),
            SyncStateView::Finished(_) => (5, 0),
        }
    }
}

/// Whether `later` is further on than `earlier`.
pub open spec fn further(earlier: (nat, nat), later: (nat, nat)) -> bool {
    earlier.0 < later.0 || (earlier.0 == later.0 && earlier.1 < later.1)
}

/// A run goes one way: a step leaves the state as it is or takes it
/// further, so no stage is entered twice and no log is dealt with twice.
pub proof fn lemma_step_goes_forward(state: SyncStateView, event: SyncEventView)
    ensures
        state.after(event) == state || further(state.progress(), state.after(event).progress()),
{
}

/// Whether an event is an outcome of an action.
pub open spec fn is_outcome_of(event: SyncEventView, action: SyncActionView) -> bool {
    match (action, event) {
        (SyncActionView::LocateProject, SyncEventView::Project(_)) => true,
        (SyncActionView::ResolveAuth { .. }, SyncEventView::Auth(_)) => true,
        (SyncActionView::Get { .. }, SyncEventView::Reply(_)) => true,
        (SyncActionView::EnsureDir { .. }, SyncEventView::Dir(_)) => true,
        (SyncActionView::WriteLog { .. }, SyncEventView::Written(_)) => true,
        _ => false,
    }
}

/// The outcome of the action that a state waits for always takes the run
/// further: a run that is handed one outcome after the other comes to its
/// end.
pub proof fn lemma_outcome_takes_further(state: SyncStateView, event: SyncEventView)
    requires
        is_outcome_of(event, state.action()),
    ensures
        further(state.progress(), state.after(event).progress()),
{
}

/// The ids of the logs, one for each log.
pub open spec fn log_ids(logs: Seq<ApexLogSummaryView>) -> Seq<Option<Seq<char>>> {
    Seq::new(logs.len(), |i: int| Some(logs[i].id))
}

/// The ids that the three lists of records hold, one for each record.
pub open spec fn recorded_ids(
    saved: Seq<SavedLogView>,
    skipped: Seq<SkippedLogView>,
    errors: Seq<SyncErrorView>,
) -> Multiset<Option<Seq<char>>> {
    Seq::new(saved.len(), |i: int| Some(saved[i].id)).to_multiset().add(
        Seq::new(skipped.len(), |i: int| Some(skipped[i].id)).to_multiset(),
    ).add(Seq::new(errors.len(), |i: int| errors[i].id).to_multiset())
}

impl BatchView {
    /// Whether the records account for the logs before `next`: each of them
    /// stands, by its id, in one of the three lists, once, and nothing else
    /// stands there.
    pub open spec fn accounted(self) -> bool {
        &&& self.next <= self.logs.len()
        &&& recorded_ids(self.saved, self.skipped, self.errors) == log_ids(
            self.logs.take(self.next as int),
        ).to_multiset()
    }
}

impl SyncOutputView {
    /// Whether the records account for the logs: each log stands, by its
    /// id, in one of `saved`, `skipped` and `errors`, once, and nothing else
    /// stands there.
    pub open spec fn accounted(self) -> bool {
        recorded_ids(self.saved, self.skipped, self.errors) == log_ids(self.logs).to_multiset()
    }
}

impl SyncStateView {
    /// Whether the records of the state account for the logs dealt with.
    pub open spec fn accounted(self) -> bool {
        match self {
            SyncStateView::Fetching(batch) => batch.accounted(),
            SyncStateView::Writing { batch, .. } => batch.accounted(),
            SyncStateView::Finished(Ok(report)) => report.accounted(),
            _ => true,
        }
    }
}

proof fn lemma_record_one(
    batch: BatchView,
    saved: Seq<SavedLogView>,
    skipped: Seq<SkippedLogView>,
    errors: Seq<SyncErrorView>,
)
    requires
        batch.accounted(),
        batch.next < batch.logs.len(),
        recorded_ids(saved, skipped, errors) == recorded_ids(
            batch.saved,
            batch.skipped,
            batch.errors,
        ).insert(Some(batch.current_id())),
    ensures
        (BatchView { next: batch.next + 1, saved, skipped, errors, ..batch }).accounted(),
{
    let before = log_ids(batch.logs.take(batch.next as int));
    let after = log_ids(batch.logs.take(batch.next as int + 1));
    assert(after =~= before.push(Some(batch.current_id())));
    vstd::seq_lib::to_multiset_build(before, Some(batch.current_id()));
}

proof fn lemma_proceed_keeps_account(batch: BatchView)
    requires
        batch.accounted(),
    ensures
        batch.proceed().accounted(),
{
    if batch.next >= batch.logs.len() {
        assert(batch.logs.take(batch.next as int) =~= batch.logs);
    }
}

/// A step keeps the account: where the records accounted for the logs dealt
/// with before it, they do after it.
pub proof fn lemma_step_keeps_account(state: SyncStateView, event: SyncEventView)
    requires
        state.accounted(),
    ensures
        state.after(event).accounted(),
{
    match (state, event) {
        (
            SyncStateView::Preparing { auth, api_version, limit, logs },
            SyncEventView::Dir(DirOutcomeView::Ready),
        ) => {
            let batch = BatchView {
                auth,
                api_version,
                limit,
                logs,
                next: 0,
                saved: Seq::empty(),
                skipped: Seq::empty(),
                errors: Seq::empty(),
            };
            assert(log_ids(logs.take(0)) =~= Seq::empty());
            assert(Seq::new(batch.saved.len(), |i: int| Some(batch.saved[i].id)) =~= Seq::empty());
            assert(Seq::new(batch.skipped.len(), |i: int| Some(batch.skipped[i].id))
                =~= Seq::empty());
            assert(Seq::new(batch.errors.len(), |i: int| batch.errors[i].id) =~= Seq::empty());
            let none = Seq::<Option<Seq<char>>>::empty();
            none.to_multiset_ensures();
            vstd::multiset::lemma_multiset_empty_len(none.to_multiset());
            assert(none.to_multiset() =~= Multiset::empty());
            assert(recorded_ids(batch.saved, batch.skipped, batch.errors) =~= Multiset::empty());
            lemma_proceed_keeps_account(batch);
        },
        (SyncStateView::Fetching(batch), SyncEventView::Reply(reply)) => {
            if batch.next < batch.logs.len() {
                match body_of_reply(reply) {
                    Ok(_) => {},
                    Err(error) => {
                        let next = batch.skip(error);
                        let ids = Seq::new(batch.skipped.len(), |i: int| Some(batch.skipped[i].id));
                        assert(Seq::new(next.skipped.len(), |i: int| Some(next.skipped[i].id))
                            =~= ids.push(Some(batch.current_id())));
                        vstd::seq_lib::to_multiset_build(ids, Some(batch.current_id()));
                        assert(recorded_ids(next.saved, next.skipped, next.errors) =~= recorded_ids(
                            batch.saved,
                            batch.skipped,
                            batch.errors,
                        ).insert(Some(batch.current_id())));
                        lemma_record_one(batch, next.saved, next.skipped, next.errors);
                        lemma_proceed_keeps_account(next);
                    },
                }
            } else {
                lemma_proceed_keeps_account(batch);
            }
        },
        (SyncStateView::Writing { batch, body }, SyncEventView::Written(outcome)) => {
            if batch.next < batch.logs.len() {
                match outcome {
                    Ok(()) => {
                        let next = batch.save(body);
                        let ids = Seq::new(batch.saved.len(), |i: int| Some(batch.saved[i].id));
                        assert(Seq::new(next.saved.len(), |i: int| Some(next.saved[i].id))
                            =~= ids.push(Some(batch.current_id())));
                        vstd::seq_lib::to_multiset_build(ids, Some(batch.current_id()));
                        assert(recorded_ids(next.saved, next.skipped, next.errors) =~= recorded_ids(
                            batch.saved,
                            batch.skipped,
                            batch.errors,
                        ).insert(Some(batch.current_id())));
                        lemma_record_one(batch, next.saved, next.skipped, next.errors);
                        lemma_proceed_keeps_account(next);
                    },
                    Err(detail) => {
                        let next = batch.fail(detail);
                        let ids = Seq::new(batch.errors.len(), |i: int| batch.errors[i].id);
                        assert(Seq::new(next.errors.len(), |i: int| next.errors[i].id) =~= ids.push(
                            Some(batch.current_id()),
                        ));
                        vstd::seq_lib::to_multiset_build(ids, Some(batch.current_id()));
                        assert(recorded_ids(next.saved, next.skipped, next.errors) =~= recorded_ids(
                            batch.saved,
                            batch.skipped,
                            batch.errors,
                        ).insert(Some(batch.current_id())));
                        lemma_record_one(batch, next.saved, next.skipped, next.errors);
                        lemma_proceed_keeps_account(next);
                    },
                }
            } else {
                lemma_proceed_keeps_account(batch);
            }
        },
        _ => {},
    }
}

/// However a sync runs, the report it ends with accounts for its logs: each
/// log stands, by its id, in exactly one of `saved`, `skipped` and `errors`.
pub proof fn lemma_report_accounts_for_every_log(
    args: LogsSyncArgsView,
    events: Seq<SyncEventView>,
)
    ensures
        args.start().after_all(events).result() matches Some(Ok(report)) ==> report.accounted(),
{
    lemma_run_keeps_account(args.start(), events);
    match args.start().after_all(events) {
        SyncStateView::Fetching(batch) => {
            if batch.next >= batch.logs.len() {
                assert(batch.logs.take(batch.next as int) =~= batch.logs);
            }
        },
        SyncStateView::Writing { batch, .. } => {
            if batch.next >= batch.logs.len() {
                assert(batch.logs.take(batch.next as int) =~= batch.logs);
            }
        },
        _ => {},
    }
}

proof fn lemma_run_keeps_account(state: SyncStateView, events: Seq<SyncEventView>)
    requires
        state.accounted(),
    ensures
        state.after_all(events).accounted(),
    decreases events.len(),
{
    if events.len() > 0 {
        lemma_step_keeps_account(state, events[0]);
        lemma_run_keeps_account(state.after(events[0]), events.drop_first());
    }
}

} // verus!
