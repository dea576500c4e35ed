//! Resolution of an org's credentials from the output of the two
//! authentication programs, the first tried first.

use crate::json::{
    json_of, json_reading, optional_text, parse_value, text_member, value_get, value_is_object,
    Json,
};
use crate::text::join;
use vstd::prelude::*;

verus! {

/// Why no credentials were found.
#[derive(Debug, Clone, PartialEq, Eq)]
pub enum AuthError {
    InvalidJson,
    MissingFields,
    CommandFailed(String),
}

pub enum AuthErrorView {
    InvalidJson,
    MissingFields,
    CommandFailed(Seq<char>),
}

impl View for AuthError {
    type V = AuthErrorView;

    open spec fn view(&self) -> AuthErrorView {
        match self {
            AuthError::InvalidJson => AuthErrorView::InvalidJson,
            AuthError::MissingFields => AuthErrorView::MissingFields,
            AuthError::CommandFailed(detail) => AuthErrorView::CommandFailed(detail@),
        }
    }
}

impl AuthErrorView {
    /// The error in words.
    pub open spec fn message(self) -> Seq<char> {
        match self {
            AuthErrorView::InvalidJson => "invalid auth json"@,
            AuthErrorView::MissingFields => "missing auth fields"@,
            AuthErrorView::CommandFailed(detail) => "command failed: "@ + detail,
        }
    }
}

impl AuthError {
    /// The error in words.
    pub fn message(&self) -> (text: String)
        ensures
            text@ == self@.message(),
    {
        match self {
            AuthError::InvalidJson => String::from_str("invalid auth json"),
            AuthError::MissingFields => String::from_str("missing auth fields"),
            AuthError::CommandFailed(detail) => join("command failed: ", detail.as_str()),
        }
    }
}

/// The credentials of an org.
#[derive(Debug, Clone, PartialEq, Eq)]
pub struct OrgAuth {
    pub access_token: String,
    pub instance_url: String,
    pub username: Option<String>,
}

pub struct OrgAuthView {
    pub access_token: Seq<char>,
    pub instance_url: Seq<char>,
    pub username: Option<Seq<char>>,
}

impl View for OrgAuth {
    type V = OrgAuthView;

    open spec fn view(&self) -> OrgAuthView {
        OrgAuthView {
            access_token: self.access_token@,
            instance_url: self.instance_url@,
            username: optional_text(self.username),
        }
    }
}

/// The views of a list of strings.
pub open spec fn text_views(texts: Seq<String>) -> Seq<Seq<char>> {
    Seq::new(texts.len(), |i: int| texts[i]@)
}

/// The views of a list of string slices.
pub open spec fn key_views(keys: Seq<&str>) -> Seq<Seq<char>> {
    Seq::new(keys.len(), |i: int| keys[i]@)
}

/// The string under the first of `keys` that names a string member.
pub open spec fn first_text(json: Json, keys: Seq<Seq<char>>) -> Option<Seq<char>>
    decreases keys.len(),
{
    if keys.len() == 0 {
        None
    } else {
        match json.field(keys[0]) {
            Some(Json::Text(text)) => Some(text),
            _ => first_text(json, keys.drop_first()),
        }
    }
}

fn read_string(value: &serde_json::Value, keys: &[&str]) -> (found: Option<String>)
    ensures
        optional_text(found) == first_text(json_of(*value), key_views(keys@)),
{
    let ghost all = key_views(keys@);
    let mut i: usize = 0;
    proof {
        assert(all.skip(0) =~= all);
    }
    while i < keys.len()
        invariant
            i <= keys.len(),
            all == key_views(keys@),
            first_text(json_of(*value), all) == first_text(json_of(*value), all.skip(i as int)),
        decreases keys.len() - i,
    {
        let found = text_member(value, keys[i]);
        proof {
            assert(all.skip(i as int)[0] == keys@[i as int]@);
            assert(all.skip(i as int).drop_first() =~= all.skip(i + 1));
        }
        if found.is_some() {
            return found;
        }
        i += 1;
    }
    None
}

/// The names under which the access token may stand, the newer first.
pub open spec fn token_keys() -> Seq<Seq<char>> {
    seq!["accessToken"@, "access_token"@]
}

/// The names under which the instance address may stand.
pub open spec fn url_keys() -> Seq<Seq<char>> {
    seq!["instanceUrl"@, "instance_url"@, "loginUrl"@]
}

/// The credentials in the JSON that an authentication program printed. They
/// stand in the member `result` where there is one, else at the top. What
/// holds them has to be an object, so a `result` that is no object is
/// `InvalidJson` whatever stands beside it; the token and the address have
/// to be there, the user name may be missing.
pub open spec fn auth_of_json(json: Json) -> Result<OrgAuthView, AuthErrorView> {
    let holder = match json.field("result"@) {
        Some(inner) => inner,
        None => json,
    };
    if !(holder is Object) {
        Err(AuthErrorView::InvalidJson)
    } else {
        match (first_text(holder, token_keys()), first_text(holder, url_keys())) {
            (Some(access_token), Some(instance_url)) => Ok(
                OrgAuthView {
                    access_token,
                    instance_url,
                    username: first_text(holder, seq!["username"@]),
                },
            ),
            _ => Err(AuthErrorView::MissingFields),
        }
    }
}

/// The credentials in the text that an authentication program printed.
pub open spec fn auth_of_text(text: Seq<char>) -> Result<OrgAuthView, AuthErrorView> {
    match json_reading(text) {
        Ok(json) => auth_of_json(json),
        Err(_) => Err(AuthErrorView::InvalidJson),
    }
}

/// The view of the outcome of a resolution.
pub open spec fn auth_result_view(result: Result<OrgAuth, AuthError>) -> Result<
    OrgAuthView,
    AuthErrorView,
> {
    match result {
        Ok(auth) => Ok(auth@),
        Err(error) => Err(error@),
    }
}

fn read_auth(value: &serde_json::Value) -> (result: Result<OrgAuth, AuthError>)
    ensures
        auth_result_view(result) == auth_of_json(json_of(*value)),
{
    let holder = match value_get(value, "result") {
        Some(inner) => inner,
        None => value,
    };
    if !value_is_object(holder) {
        return Err(AuthError::InvalidJson);
    }
    let token_names = ["accessToken", "access_token"];
    let url_names = ["instanceUrl", "instance_url", "loginUrl"];
    let user_names = ["username"];
    proof {
        assert(key_views(token_names@) =~= token_keys());
        assert(key_views(url_names@) =~= url_keys());
        assert(key_views(user_names@) =~= seq!["username"@]);
    }
    let access_token = match read_string(holder, token_names.as_slice()) {
        Some(text) => text,
        None => { return Err(AuthError::MissingFields); },
    };
    let instance_url = match read_string(holder, url_names.as_slice()) {
        Some(text) => text,
        None => { return Err(AuthError::MissingFields); },
    };
    let username = read_string(holder, user_names.as_slice());
    Ok(OrgAuth { access_token, instance_url, username })
}

/// Reads the credentials out of the JSON text that an authentication program
/// printed. Text that is no JSON, or whose credentials stand in something
/// that is no object, is `InvalidJson`; a missing token or address is
/// `MissingFields`.
pub fn parse_auth_json(input: &str) -> (result: Result<OrgAuth, AuthError>)
    ensures
        auth_result_view(result) == auth_of_text(input@),
{
    match parse_value(input) {
        Ok(value) => read_auth(&value),
        Err(_) => Err(AuthError::InvalidJson),
    }
}

/// The arguments that ask `sf` for the org, scoped by `-o` to the target
/// where one is given.
pub open spec fn sf_args(target: Option<Seq<char>>) -> Seq<Seq<char>> {
    let base = seq!["org"@, "display"@, "--json"@, "--verbose"@];
    match target {
        Some(target) => base.push("-o"@).push(target),
        None => base,
    }
}

/// The arguments that ask `sfdx` for the org, scoped by `-u` to the target
/// where one is given.
pub open spec fn sfdx_args(target: Option<Seq<char>>) -> Seq<Seq<char>> {
    let base = seq!["force:org:display"@, "--json"@];
    match target {
        Some(target) => base.push("-u"@).push(target),
        None => base,
    }
}

/// The view of an optional string slice.
pub open spec fn optional_str(text: Option<&str>) -> Option<Seq<char>> {
    match text {
        Some(text) => Some(text@),
        None => None,
    }
}

/// The arguments for `sf`.
pub fn build_sf_args(target: Option<&str>) -> (args: Vec<String>)
    ensures
        text_views(args@) == sf_args(optional_str(target)),
{
    let mut args: Vec<String> = Vec::new();
    args.push(String::from_str("org"));
    args.push(String::from_str("display"));
    args.push(String::from_str("--json"));
    args.push(String::from_str("--verbose"));
    if let Some(value) = target {
        args.push(String::from_str("-o"));
        args.push(String::from_str(value));
    }
    assert(text_views(args@) =~= sf_args(optional_str(target)));
    args
}

/// The arguments for `sfdx`.
pub fn build_sfdx_args(target: Option<&str>) -> (args: Vec<String>)
    ensures
        text_views(args@) == sfdx_args(optional_str(target)),
{
    let mut args: Vec<String> = Vec::new();
    args.push(String::from_str("force:org:display"));
    args.push(String::from_str("--json"));
    if let Some(value) = target {
        args.push(String::from_str("-u"));
        args.push(String::from_str(value));
    }
    assert(text_views(args@) =~= sfdx_args(optional_str(target)));
    args
}

/// How the run of an authentication program ended.
#[derive(Debug, Clone)]
pub enum CommandOutcome {
    /// The program could not be started; the system's message.
    NotStarted(String),
    /// The program ended without success; its exit status in words and what
    /// it wrote to standard error.
    Failed { status: String, stderr: String },
    /// Standard output was no UTF-8; the decoder's message.
    Garbled(String),
    /// The program succeeded; its standard output.
    Output(String),
}

pub enum CommandOutcomeView {
    NotStarted(Seq<char>),
    Failed { status: Seq<char>, stderr: Seq<char> },
    Garbled(Seq<char>),
    Output(Seq<char>),
}

impl View for CommandOutcome {
    type V = CommandOutcomeView;

    open spec fn view(&self) -> CommandOutcomeView {
        match self {
            CommandOutcome::NotStarted(detail) => CommandOutcomeView::NotStarted(detail@),
            CommandOutcome::Failed { status, stderr } => CommandOutcomeView::Failed {
                status: status@,
                stderr: stderr@,
            },
            CommandOutcome::Garbled(detail) => CommandOutcomeView::Garbled(detail@),
            CommandOutcome::Output(text) => CommandOutcomeView::Output(text@),
        }
    }
}

/// The view of what a run hands to the resolver.
pub open spec fn run_view(run: Result<String, AuthError>) -> Result<Seq<char>, AuthErrorView> {
    match run {
        Ok(text) => Ok(text@),
        Err(error) => Err(error@),
    }
}

/// What the run of `program` gives the resolver: its output, or
/// `CommandFailed` with the program's name and what went wrong.
pub open spec fn command_run(program: Seq<char>, outcome: CommandOutcomeView) -> Result<
    Seq<char>,
    AuthErrorView,
> {
    match outcome {
        CommandOutcomeView::NotStarted(detail) => Err(
            AuthErrorView::CommandFailed(program + ": "@ + detail),
        ),
        CommandOutcomeView::Failed { status, stderr } => Err(
            AuthErrorView::CommandFailed(program + " exited "@ + status + ": "@ + stderr),
        ),
        CommandOutcomeView::Garbled(detail) => Err(
            AuthErrorView::CommandFailed(program + " stdout: "@ + detail),
        ),
        CommandOutcomeView::Output(text) => Ok(text),
    }
}

/// Turns the way the run of `program` ended into what the resolver takes.
pub fn command_result(program: &str, outcome: CommandOutcome) -> (run: Result<String, AuthError>)
    ensures
        run_view(run) == command_run(program@, outcome@),
{
    match outcome {
        CommandOutcome::NotStarted(detail) => {
            let mut text = join(program, ": ");
            text.append(detail.as_str());
            Err(AuthError::CommandFailed(text))
        },
        CommandOutcome::Failed { status, stderr } => {
            let mut text = join(program, " exited ");
            text.append(status.as_str());
            text.append(": ");
            text.append(stderr.as_str());
            Err(AuthError::CommandFailed(text))
        },
        CommandOutcome::Garbled(detail) => {
            let mut text = join(program, " stdout: ");
            text.append(detail.as_str());
            Err(AuthError::CommandFailed(text))
        },
        CommandOutcome::Output(text) => Ok(text),
    }
}

/// What one provider yields: the credentials in its output, the error of
/// its run, or the error of reading its output.
pub open spec fn attempt(run: Result<Seq<char>, AuthErrorView>) -> Result<
    OrgAuthView,
    AuthErrorView,
> {
    match run {
        Ok(text) => auth_of_text(text),
        Err(error) => Err(error),
    }
}

/// What the two providers yield together: the credentials of the first that
/// yields any, and the first provider's error where neither does.
pub open spec fn resolved(
    first: Result<Seq<char>, AuthErrorView>,
    second: Result<Seq<char>, AuthErrorView>,
) -> Result<OrgAuthView, AuthErrorView> {
    match attempt(first) {
        Ok(auth) => Ok(auth),
        Err(first_error) => match attempt(second) {
            Ok(auth) => Ok(auth),
            Err(_) => Err(first_error),
        },
    }
}

/// The resolution yields credentials whenever one of the providers does: the
/// first provider's where it yields any, else the second's. Where neither
/// does, it fails with the first provider's error.
pub proof fn lemma_resolution(
    first: Result<Seq<char>, AuthErrorView>,
    second: Result<Seq<char>, AuthErrorView>,
)
    ensures
        resolved(first, second) is Ok <==> attempt(first) is Ok || attempt(second) is Ok,
        attempt(first) is Ok ==> resolved(first, second) == attempt(first),
        attempt(first) is Err && attempt(second) is Ok ==> resolved(first, second) == attempt(
            second,
        ),
        attempt(first) is Err && attempt(second) is Err ==> resolved(first, second) == attempt(
            first,
        ),
{
}

/// What the first provider's run yields.
pub fn first_attempt(run: Result<String, AuthError>) -> (result: Result<OrgAuth, AuthError>)
    ensures
        auth_result_view(result) == attempt(run_view(run)),
{
    match run {
        Ok(text) => parse_auth_json(text.as_str()),
        Err(error) => Err(error),
    }
}

/// What the second provider's run yields after the first failed with
/// `first_error`: its credentials, else the first provider's error.
pub fn second_attempt(first_error: AuthError, run: Result<String, AuthError>) -> (result: Result<
    OrgAuth,
    AuthError,
>)
    ensures
        auth_result_view(result) == match attempt(run_view(run)) {
            Ok(auth) => Ok::<OrgAuthView, AuthErrorView>(auth),
            Err(_) => Err::<OrgAuthView, AuthErrorView>(first_error@),
        },
{
    match first_attempt(run) {
        Ok(auth) => Ok(auth),
        Err(_) => Err(first_error),
    }
}

/// The first provider's program and the second's.
pub const FIRST_PROVIDER: &'static str = "sf";

pub const SECOND_PROVIDER: &'static str = "sfdx";

/// Resolves the credentials of the target org, or of the default org where
/// no target is given. `runner` runs a program with arguments and hands back
/// its output. It is called for `sf`; where that yields credentials they are
/// the result and `sfdx` is not run. Else it is called for `sfdx`, and the
/// result is what the two runs yield together: the second provider's
/// credentials, or the first provider's error.
pub fn get_auth_with_runner<F>(target: Option<&str>, mut runner: F) -> (result: Result<
    OrgAuth,
    AuthError,
>) where F: FnMut(&str, &[String]) -> Result<String, AuthError>
    requires
        forall|program: &str, args: &[String]| call_requires(runner, (program, args)),
    ensures
        exists|first_args: &[String], first: Result<String, AuthError>|
            {
                &&& text_views(first_args@) == sf_args(optional_str(target))
                &&& #[trigger] call_ensures(runner, (FIRST_PROVIDER, first_args), first)
                &&& attempt(run_view(first)) is Ok ==> auth_result_view(result) == attempt(
                    run_view(first),
                )
                &&& attempt(run_view(first)) is Err ==> exists|
                    second_args: &[String],
                    second: Result<String, AuthError>,
                |
                    {
                        &&& text_views(second_args@) == sfdx_args(optional_str(target))
                        &&& #[trigger] call_ensures(runner, (SECOND_PROVIDER, second_args), second)
                        &&& auth_result_view(result) == resolved(run_view(first), run_view(second))
                    }
            },
{
    let first_args = build_sf_args(target);
    let first_slice = first_args.as_slice();
    let first = runner(FIRST_PROVIDER, first_slice);
    let ghost first_run = first;
    let first_error = match first_attempt(first) {
        Ok(auth) => {
            proof {
                assert(call_ensures(runner, (FIRST_PROVIDER, first_slice), first_run));
            }
            return Ok(auth);
        },
        Err(error) => error,
    };
    let second_args = build_sfdx_args(target);
    let second_slice = second_args.as_slice();
    let second = runner(SECOND_PROVIDER, second_slice);
    let ghost second_run = second;
    let result = second_attempt(first_error, second);
    proof {
        assert(call_ensures(runner, (SECOND_PROVIDER, second_slice), second_run));
        assert(call_ensures(runner, (FIRST_PROVIDER, first_slice), first_run));
    }
    result
}

/// Resolves the credentials of the target org by running the providers'
/// programs. `spawn` runs a program with arguments and tells how the run
/// ended; what it tells is turned into the program's output or a
/// `CommandFailed` that names the program, and the providers are tried as
/// [`get_auth_with_runner`] tries them.
pub fn get_auth<F>(target: Option<&str>, spawn: &F) -> (result: Result<OrgAuth, AuthError>) where
    F: Fn(&str, &[String]) -> CommandOutcome,

    requires
        forall|program: &str, args: &[String]| call_requires(spawn, (program, args)),
    ensures
        exists|first_args: &[String], first: CommandOutcome|
            {
                &&& text_views(first_args@) == sf_args(optional_str(target))
                &&& #[trigger] call_ensures(spawn, (FIRST_PROVIDER, first_args), first)
                &&& attempt(command_run(FIRST_PROVIDER@, first@)) is Ok ==> auth_result_view(result)
                    == attempt(command_run(FIRST_PROVIDER@, first@))
                &&& attempt(command_run(FIRST_PROVIDER@, first@)) is Err ==> exists|
                    second_args: &[String],
                    second: CommandOutcome,
                |
                    {
                        &&& text_views(second_args@) == sfdx_args(optional_str(target))
                        &&& #[trigger] call_ensures(spawn, (SECOND_PROVIDER, second_args), second)
                        &&& auth_result_view(result) == resolved(
                            command_run(FIRST_PROVIDER@, first@),
                            command_run(SECOND_PROVIDER@, second@),
                        )
                    }
            },
{
    let runner = |program: &str, args: &[String]| -> (run: Result<String, AuthError>)
        ensures
            exists|outcome: CommandOutcome| #[trigger]
                call_ensures(spawn, (program, args), outcome) && run_view(run) == command_run(
                    program@,
                    outcome@,
                ),
        {
            let outcome = spawn(program, args);
            let ghost told = outcome;
            let run = command_result(program, outcome);
            assert(call_ensures(spawn, (program, args), told));
            run
        };
    get_auth_with_runner(target, runner)
}

} // verus!
