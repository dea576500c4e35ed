//! The records that a sync reports, their mathematical views and their
//! JSON shape.

use crate::json::{
    json_of, jsons_of, optional_text, set_bool, set_member, set_optional_text, set_signed, set_text,
    set_unsigned, value_array, value_null, value_object, Json,
};
use vstd::prelude::*;

verus! {

/// The user a log belongs to.
#[derive(Debug, Clone)]
pub struct ApexLogUser {
    pub name: Option<String>,
}

pub struct ApexLogUserView {
    pub name: Option<Seq<char>>,
}

impl View for ApexLogUser {
    type V = ApexLogUserView;

    open spec fn view(&self) -> ApexLogUserView {
        ApexLogUserView { name: optional_text(self.name) }
    }
}

impl ApexLogUserView {
    pub open spec fn to_json(self) -> Json {
        Json::object().with("Name"@, Json::of_optional_text(self.name))
    }
}

/// One row of the log query.
#[derive(Debug, Clone)]
pub struct ApexLogSummary {
    pub id: String,
    pub start_time: String,
    pub operation: String,
    pub application: String,
    pub duration_milliseconds: i64,
    pub status: String,
    pub request: String,
    pub log_length: i64,
    pub log_user: Option<ApexLogUser>,
}

pub struct ApexLogSummaryView {
    pub id: Seq<char>,
    pub start_time: Seq<char>,
    pub operation: Seq<char>,
    pub application: Seq<char>,
    pub duration_milliseconds: i64,
    pub status: Seq<char>,
    pub request: Seq<char>,
    pub log_length: i64,
    pub log_user: Option<ApexLogUserView>,
}

impl View for ApexLogSummary {
    type V = ApexLogSummaryView;

    open spec fn view(&self) -> ApexLogSummaryView {
        ApexLogSummaryView {
            id: self.id@,
            start_time: self.start_time@,
            operation: self.operation@,
            application: self.application@,
            duration_milliseconds: self.duration_milliseconds,
            status: self.status@,
            request: self.request@,
            log_length: self.log_length,
            log_user: match self.log_user {
                Some(user) => Some(user@),
                None => None,
            },
        }
    }
}

impl ApexLogSummaryView {
    pub open spec fn to_json(self) -> Json {
        Json::object().with("Id"@, Json::Text(self.id)).with(
            "StartTime"@,
            Json::Text(self.start_time),
        ).with("Operation"@, Json::Text(self.operation)).with(
            "Application"@,
            Json::Text(self.application),
        ).with("DurationMilliseconds"@, Json::of_int(self.duration_milliseconds as int)).with(
            "Status"@,
            Json::Text(self.status),
        ).with("Request"@, Json::Text(self.request)).with(
            "LogLength"@,
            Json::of_int(self.log_length as int),
        ).with(
            "LogUser"@,
            match self.log_user {
                Some(user) => user.to_json(),
                None => Json::Null,
            },
        )
    }
}

/// A log whose body was written to a file.
#[derive(Debug, Clone)]
pub struct SavedLog {
    pub id: String,
    pub file: String,
    pub size: u64,
}

pub struct SavedLogView {
    pub id: Seq<char>,
    pub file: Seq<char>,
    pub size: u64,
}

impl View for SavedLog {
    type V = SavedLogView;

    open spec fn view(&self) -> SavedLogView {
        SavedLogView { id: self.id@, file: self.file@, size: self.size }
    }
}

impl SavedLogView {
    pub open spec fn to_json(self) -> Json {
        Json::object().with("id"@, Json::Text(self.id)).with("file"@, Json::Text(self.file)).with(
            "size"@,
            Json::of_int(self.size as int),
        )
    }
}

/// A log whose body could not be fetched.
#[derive(Debug, Clone)]
pub struct SkippedLog {
    pub id: String,
    pub reason: String,
}

pub struct SkippedLogView {
    pub id: Seq<char>,
    pub reason: Seq<char>,
}

impl View for SkippedLog {
    type V = SkippedLogView;

    open spec fn view(&self) -> SkippedLogView {
        SkippedLogView { id: self.id@, reason: self.reason@ }
    }
}

impl SkippedLogView {
    pub open spec fn to_json(self) -> Json {
        Json::object().with("id"@, Json::Text(self.id)).with("reason"@, Json::Text(self.reason))
    }
}

/// A log whose body was fetched and could not be written.
#[derive(Debug, Clone)]
pub struct SyncError {
    pub id: Option<String>,
    pub message: String,
}

pub struct SyncErrorView {
    pub id: Option<Seq<char>>,
    pub message: Seq<char>,
}

impl View for SyncError {
    type V = SyncErrorView;

    open spec fn view(&self) -> SyncErrorView {
        SyncErrorView { id: optional_text(self.id), message: self.message@ }
    }
}

impl SyncErrorView {
    pub open spec fn to_json(self) -> Json {
        Json::object().with("id"@, Json::of_optional_text(self.id)).with(
            "message"@,
            Json::Text(self.message),
        )
    }
}

/// The org a sync ran against.
#[derive(Debug, Clone)]
pub struct OrgSummary {
    pub username: Option<String>,
    pub instance_url: String,
}

pub struct OrgSummaryView {
    pub username: Option<Seq<char>>,
    pub instance_url: Seq<char>,
}

impl View for OrgSummary {
    type V = OrgSummaryView;

    open spec fn view(&self) -> OrgSummaryView {
        OrgSummaryView { username: optional_text(self.username), instance_url: self.instance_url@ }
    }
}

impl OrgSummaryView {
    pub open spec fn to_json(self) -> Json {
        Json::object().with("username"@, Json::of_optional_text(self.username)).with(
            "instanceUrl"@,
            Json::Text(self.instance_url),
        )
    }
}

/// The views of a list of log rows.
pub open spec fn log_views(logs: Seq<ApexLogSummary>) -> Seq<ApexLogSummaryView> {
    Seq::new(logs.len(), |i: int| logs[i]@)
}

/// The views of a list of saved logs.
pub open spec fn saved_views(saved: Seq<SavedLog>) -> Seq<SavedLogView> {
    Seq::new(saved.len(), |i: int| saved[i]@)
}

/// The views of a list of skipped logs.
pub open spec fn skipped_views(skipped: Seq<SkippedLog>) -> Seq<SkippedLogView> {
    Seq::new(skipped.len(), |i: int| skipped[i]@)
}

/// The views of a list of write failures.
pub open spec fn error_views(errors: Seq<SyncError>) -> Seq<SyncErrorView> {
    Seq::new(errors.len(), |i: int| errors[i]@)
}

/// What a sync that got as far as the log list reports.
#[derive(Debug, Clone)]
pub struct SyncOutput {
    pub ok: bool,
    pub org: OrgSummary,
    pub api_version: String,
    pub limit: u32,
    pub saved_dir: String,
    pub logs: Vec<ApexLogSummary>,
    pub saved: Vec<SavedLog>,
    pub skipped: Vec<SkippedLog>,
    pub errors: Vec<SyncError>,
}

pub struct SyncOutputView {
    pub ok: bool,
    pub org: OrgSummaryView,
    pub api_version: Seq<char>,
    pub limit: u32,
    pub saved_dir: Seq<char>,
    pub logs: Seq<ApexLogSummaryView>,
    pub saved: Seq<SavedLogView>,
    pub skipped: Seq<SkippedLogView>,
    pub errors: Seq<SyncErrorView>,
}

impl View for SyncOutput {
    type V = SyncOutputView;

    open spec fn view(&self) -> SyncOutputView {
        SyncOutputView {
            ok: self.ok,
            org: self.org@,
            api_version: self.api_version@,
            limit: self.limit,
            saved_dir: self.saved_dir@,
            logs: log_views(self.logs@),
            saved: saved_views(self.saved@),
            skipped: skipped_views(self.skipped@),
            errors: error_views(self.errors@),
        }
    }
}

impl SyncOutputView {
    pub open spec fn to_json(self) -> Json {
        Json::object().with("ok"@, Json::Bool(self.ok)).with("org"@, self.org.to_json()).with(
            "apiVersion"@,
            Json::Text(self.api_version),
        ).with("limit"@, Json::of_int(self.limit as int)).with(
            "savedDir"@,
            Json::Text(self.saved_dir),
        ).with(
            "logs"@,
            Json::Array(Seq::new(self.logs.len(), |i: int| self.logs[i].to_json())),
        ).with(
            "saved"@,
            Json::Array(Seq::new(self.saved.len(), |i: int| self.saved[i].to_json())),
        ).with(
            "skipped"@,
            Json::Array(Seq::new(self.skipped.len(), |i: int| self.skipped[i].to_json())),
        ).with(
            "errors"@,
            Json::Array(Seq::new(self.errors.len(), |i: int| self.errors[i].to_json())),
        )
    }
}

/// What a sync that stopped before the log list reports.
#[derive(Debug, Clone)]
pub struct ErrorOutput {
    pub ok: bool,
    pub error_code: String,
    pub message: String,
    pub details: Option<String>,
}

pub struct ErrorOutputView {
    pub ok: bool,
    pub error_code: Seq<char>,
    pub message: Seq<char>,
    pub details: Option<Seq<char>>,
}

impl View for ErrorOutput {
    type V = ErrorOutputView;

    open spec fn view(&self) -> ErrorOutputView {
        ErrorOutputView {
            ok: self.ok,
            error_code: self.error_code@,
            message: self.message@,
            details: optional_text(self.details),
        }
    }
}

impl ErrorOutputView {
    pub open spec fn to_json(self) -> Json {
        Json::object().with("ok"@, Json::Bool(self.ok)).with(
            "errorCode"@,
            Json::Text(self.error_code),
        ).with("message"@, Json::Text(self.message)).with(
            "details"@,
            Json::of_optional_text(self.details),
        )
    }
}

/// The view of the outcome of a sync.
pub open spec fn outcome_view(outcome: Result<SyncOutput, ErrorOutput>) -> Result<
    SyncOutputView,
    ErrorOutputView,
> {
    match outcome {
        Ok(report) => Ok(report@),
        Err(report) => Err(report@),
    }
}

impl ApexLogUser {
    /// The user as a JSON object.
    pub fn to_value(&self) -> (value: serde_json::Value)
        ensures
            json_of(value) == self@.to_json(),
    {
        let mut value = value_object();
        set_optional_text(&mut value, "Name", &self.name);
        value
    }
}

impl ApexLogSummary {
    /// The row as a JSON object, under the names the query gave its fields.
    pub fn to_value(&self) -> (value: serde_json::Value)
        ensures
            json_of(value) == self@.to_json(),
    {
        let mut value = value_object();
        set_text(&mut value, "Id", self.id.as_str());
        set_text(&mut value, "StartTime", self.start_time.as_str());
        set_text(&mut value, "Operation", self.operation.as_str());
        set_text(&mut value, "Application", self.application.as_str());
        set_signed(&mut value, "DurationMilliseconds", self.duration_milliseconds);
        set_text(&mut value, "Status", self.status.as_str());
        set_text(&mut value, "Request", self.request.as_str());
        set_signed(&mut value, "LogLength", self.log_length);
        let user = match &self.log_user {
            Some(user) => user.to_value(),
            None => value_null(),
        };
        set_member(&mut value, "LogUser", user);
        value
    }
}

impl SavedLog {
    /// The record as a JSON object.
    pub fn to_value(&self) -> (value: serde_json::Value)
        ensures
            json_of(value) == self@.to_json(),
    {
        let mut value = value_object();
        set_text(&mut value, "id", self.id.as_str());
        set_text(&mut value, "file", self.file.as_str());
        set_unsigned(&mut value, "size", self.size);
        value
    }
}

impl SkippedLog {
    /// The record as a JSON object.
    pub fn to_value(&self) -> (value: serde_json::Value)
        ensures
            json_of(value) == self@.to_json(),
    {
        let mut value = value_object();
        set_text(&mut value, "id", self.id.as_str());
        set_text(&mut value, "reason", self.reason.as_str());
        value
    }
}

impl SyncError {
    /// The record as a JSON object.
    pub fn to_value(&self) -> (value: serde_json::Value)
        ensures
            json_of(value) == self@.to_json(),
    {
        let mut value = value_object();
        set_optional_text(&mut value, "id", &self.id);
        set_text(&mut value, "message", self.message.as_str());
        value
    }
}

impl OrgSummary {
    /// The org as a JSON object.
    pub fn to_value(&self) -> (value: serde_json::Value)
        ensures
            json_of(value) == self@.to_json(),
    {
        let mut value = value_object();
        set_optional_text(&mut value, "username", &self.username);
        set_text(&mut value, "instanceUrl", self.instance_url.as_str());
        value
    }
}

fn logs_value(logs: &Vec<ApexLogSummary>) -> (value: serde_json::Value)
    ensures
        json_of(value) == Json::Array(
            Seq::new(logs@.len(), |i: int| log_views(logs@)[i].to_json()),
        ),
{
    let mut items: Vec<serde_json::Value> = Vec::new();
    let mut i: usize = 0;
    while i < logs.len()
        invariant
            i <= logs.len(),
            items@.len() == i,
            forall|k: int| 0 <= k < i ==> json_of(#[trigger] items@[k]) == logs@[k]@.to_json(),
        decreases logs.len() - i,
    {
        items.push(logs[i].to_value());
        i += 1;
    }
    assert(jsons_of(items@) =~= Seq::new(logs@.len(), |i: int| log_views(logs@)[i].to_json()));
    value_array(items)
}

fn saved_value(saved: &Vec<SavedLog>) -> (value: serde_json::Value)
    ensures
        json_of(value) == Json::Array(
            Seq::new(saved@.len(), |i: int| saved_views(saved@)[i].to_json()),
        ),
{
    let mut items: Vec<serde_json::Value> = Vec::new();
    let mut i: usize = 0;
    while i < saved.len()
        invariant
            i <= saved.len(),
            items@.len() == i,
            forall|k: int| 0 <= k < i ==> json_of(#[trigger] items@[k]) == saved@[k]@.to_json(),
        decreases saved.len() - i,
    {
        items.push(saved[i].to_value());
        i += 1;
    }
    assert(jsons_of(items@) =~= Seq::new(
        saved@.len(),
        |i: int| saved_views(saved@)[i].to_json(),
    ));
    value_array(items)
}

fn skipped_value(skipped: &Vec<SkippedLog>) -> (value: serde_json::Value)
    ensures
        json_of(value) == Json::Array(
            Seq::new(skipped@.len(), |i: int| skipped_views(skipped@)[i].to_json()),
        ),
{
    let mut items: Vec<serde_json::Value> = Vec::new();
    let mut i: usize = 0;
    while i < skipped.len()
        invariant
            i <= skipped.len(),
            items@.len() == i,
            forall|k: int| 0 <= k < i ==> json_of(#[trigger] items@[k]) == skipped@[k]@.to_json(),
        decreases skipped.len() - i,
    {
        items.push(skipped[i].to_value());
        i += 1;
    }
    assert(jsons_of(items@) =~= Seq::new(
        skipped@.len(),
        |i: int| skipped_views(skipped@)[i].to_json(),
    ));
    value_array(items)
}

fn errors_value(errors: &Vec<SyncError>) -> (value: serde_json::Value)
    ensures
        json_of(value) == Json::Array(
            Seq::new(errors@.len(), |i: int| error_views(errors@)[i].to_json()),
        ),
{
    let mut items: Vec<serde_json::Value> = Vec::new();
    let mut i: usize = 0;
    while i < errors.len()
        invariant
            i <= errors.len(),
            items@.len() == i,
            forall|k: int| 0 <= k < i ==> json_of(#[trigger] items@[k]) == errors@[k]@.to_json(),
        decreases errors.len() - i,
    {
        items.push(errors[i].to_value());
        i += 1;
    }
    assert(jsons_of(items@) =~= Seq::new(
        errors@.len(),
        |i: int| error_views(errors@)[i].to_json(),
    ));
    value_array(items)
}

impl SyncOutput {
    /// The report as a JSON object, its members named in camel case.
    pub fn to_value(&self) -> (value: serde_json::Value)
        ensures
            json_of(value) == self@.to_json(),
    {
        let mut value = value_object();
        set_bool(&mut value, "ok", self.ok);
        set_member(&mut value, "org", self.org.to_value());
        set_text(&mut value, "apiVersion", self.api_version.as_str());
        set_unsigned(&mut value, "limit", self.limit as u64);
        set_text(&mut value, "savedDir", self.saved_dir.as_str());
        set_member(&mut value, "logs", logs_value(&self.logs));
        set_member(&mut value, "saved", saved_value(&self.saved));
        set_member(&mut value, "skipped", skipped_value(&self.skipped));
        set_member(&mut value, "errors", errors_value(&self.errors));
        value
    }
}

impl ErrorOutput {
    /// The report as a JSON object, its members named in camel case.
    pub fn to_value(&self) -> (value: serde_json::Value)
        ensures
            json_of(value) == self@.to_json(),
    {
        let mut value = value_object();
        set_bool(&mut value, "ok", self.ok);
        set_text(&mut value, "errorCode", self.error_code.as_str());
        set_text(&mut value, "message", self.message.as_str());
        set_optional_text(&mut value, "details", &self.details);
        value
    }
}

} // verus!
