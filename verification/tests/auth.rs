use apex_log_viewer::auth::{
    build_sf_args, build_sfdx_args, command_result, first_attempt, get_auth, get_auth_with_runner,
    parse_auth_json, second_attempt, AuthError, CommandOutcome, OrgAuth,
};

#[test]
fn parse_auth_json_reads_sf_fields() {
    let input = r#"{
    "status": 0,
    "result": {
      "accessToken": "00Dxx0000000001!AAA",
      "instanceUrl": "https://example.my.salesforce.com",
      "username": "user@example.com"
    }
  }"#;

    let auth = parse_auth_json(input).expect("parse auth");
    assert_eq!(auth.access_token, "00Dxx0000000001!AAA");
    assert_eq!(auth.instance_url, "https://example.my.salesforce.com");
    assert_eq!(auth.username.as_deref(), Some("user@example.com"));
}

#[test]
fn parse_auth_json_reads_legacy_fields() {
    let input = r#"{
    "status": 0,
    "result": {
      "access_token": "00Dxx0000000002!BBB",
      "instance_url": "https://legacy.my.salesforce.com",
      "username": "legacy@example.com"
    }
  }"#;

    let auth = parse_auth_json(input).expect("parse auth");
    assert_eq!(auth.access_token, "00Dxx0000000002!BBB");
    assert_eq!(auth.instance_url, "https://legacy.my.salesforce.com");
    assert_eq!(auth.username.as_deref(), Some("legacy@example.com"));
}

#[test]
fn get_auth_prefers_sf_then_falls_back_to_sfdx() {
    let input = r#"{
    "status": 0,
    "result": {
      "accessToken": "00Dxx0000000003!CCC",
      "instanceUrl": "https://fallback.my.salesforce.com",
      "username": "fallback@example.com"
    }
  }"#;

    let mut calls: Vec<(String, Vec<String>)> = Vec::new();
    let auth = get_auth_with_runner(Some("alias"), |program, args| {
        calls.push((program.to_string(), args.to_vec()));
        if program == "sf" {
            return Err(AuthError::CommandFailed("sf missing".to_string()));
        }
        Ok(input.to_string())
    })
    .expect("auth resolves");

    assert_eq!(auth.access_token, "00Dxx0000000003!CCC");
    assert_eq!(auth.instance_url, "https://fallback.my.salesforce.com");
    assert_eq!(auth.username.as_deref(), Some("fallback@example.com"));

    assert_eq!(calls.len(), 2);
    assert_eq!(calls[0].0, "sf");
    assert!(calls[0].1.contains(&"org".to_string()));
    assert!(calls[0].1.contains(&"display".to_string()));
    assert!(calls[0].1.contains(&"-o".to_string()));
    assert!(calls[0].1.contains(&"alias".to_string()));

    assert_eq!(calls[1].0, "sfdx");
    assert!(calls[1].1.contains(&"force:org:display".to_string()));
    assert!(calls[1].1.contains(&"-u".to_string()));
    assert!(calls[1].1.contains(&"alias".to_string()));
}

#[test]
fn parse_auth_json_reads_the_documented_example() {
    let input = r#"{"result":{"accessToken":"T","instanceUrl":"https://x.my.salesforce.com","username":"u@x.com"}}"#;
    let auth = parse_auth_json(input).expect("parse auth");
    assert_eq!(
        auth,
        OrgAuth {
            access_token: "T".to_string(),
            instance_url: "https://x.my.salesforce.com".to_string(),
            username: Some("u@x.com".to_string()),
        }
    );
}

#[test]
fn parse_auth_json_reads_top_level_and_login_url() {
    let auth = parse_auth_json(r#"{"accessToken":"T","loginUrl":"https://login.example"}"#)
        .expect("parse auth");
    assert_eq!(auth.access_token, "T");
    assert_eq!(auth.instance_url, "https://login.example");
    assert_eq!(auth.username, None);
}

#[test]
fn parse_auth_json_prefers_the_newer_names() {
    let auth = parse_auth_json(
        r#"{"access_token":"old","accessToken":"new","instance_url":"u2","instanceUrl":"u1","loginUrl":"u3"}"#,
    )
    .expect("parse auth");
    assert_eq!(auth.access_token, "new");
    assert_eq!(auth.instance_url, "u1");
}

#[test]
fn parse_auth_json_passes_over_a_name_that_holds_no_string() {
    let auth = parse_auth_json(r#"{"accessToken":7,"access_token":"T","instanceUrl":"U"}"#)
        .expect("parse auth");
    assert_eq!(auth.access_token, "T");
}

#[test]
fn parse_auth_json_rejects_text_that_is_no_json() {
    assert_eq!(parse_auth_json("{not json}"), Err(AuthError::InvalidJson));
    assert_eq!(parse_auth_json(""), Err(AuthError::InvalidJson));
}

#[test]
fn parse_auth_json_rejects_what_is_no_object() {
    assert_eq!(parse_auth_json("[1, 2]"), Err(AuthError::InvalidJson));
    assert_eq!(parse_auth_json("\"text\""), Err(AuthError::InvalidJson));
    assert_eq!(parse_auth_json(r#"{"result": 3}"#), Err(AuthError::InvalidJson));
    assert_eq!(parse_auth_json(r#"{"result": null}"#), Err(AuthError::InvalidJson));
    assert_eq!(
        parse_auth_json(r#"{"result": 3, "accessToken": "T", "instanceUrl": "U"}"#),
        Err(AuthError::InvalidJson)
    );
}

#[test]
fn parse_auth_json_reports_missing_fields() {
    assert_eq!(parse_auth_json("{}"), Err(AuthError::MissingFields));
    assert_eq!(
        parse_auth_json(r#"{"result":{"accessToken":"T"}}"#),
        Err(AuthError::MissingFields)
    );
    assert_eq!(
        parse_auth_json(r#"{"result":{"instanceUrl":"U"}}"#),
        Err(AuthError::MissingFields)
    );
}

#[test]
fn auth_error_messages() {
    assert_eq!(AuthError::InvalidJson.message(), "invalid auth json");
    assert_eq!(AuthError::MissingFields.message(), "missing auth fields");
    assert_eq!(
        AuthError::CommandFailed("sf missing".to_string()).message(),
        "command failed: sf missing"
    );
}

#[test]
fn provider_arguments() {
    assert_eq!(build_sf_args(None), vec!["org", "display", "--json", "--verbose"]);
    assert_eq!(
        build_sf_args(Some("alias")),
        vec!["org", "display", "--json", "--verbose", "-o", "alias"]
    );
    assert_eq!(build_sfdx_args(None), vec!["force:org:display", "--json"]);
    assert_eq!(
        build_sfdx_args(Some("alias")),
        vec!["force:org:display", "--json", "-u", "alias"]
    );
}

#[test]
fn command_result_names_the_program() {
    assert_eq!(
        command_result("sf", CommandOutcome::Output("{}".to_string())),
        Ok("{}".to_string())
    );
    assert_eq!(
        command_result("sf", CommandOutcome::NotStarted("No such file".to_string())),
        Err(AuthError::CommandFailed("sf: No such file".to_string()))
    );
    assert_eq!(
        command_result(
            "sfdx",
            CommandOutcome::Failed {
                status: "exit status: 1".to_string(),
                stderr: "no org".to_string()
            }
        ),
        Err(AuthError::CommandFailed("sfdx exited exit status: 1: no org".to_string()))
    );
    assert_eq!(
        command_result("sf", CommandOutcome::Garbled("invalid utf-8".to_string())),
        Err(AuthError::CommandFailed("sf stdout: invalid utf-8".to_string()))
    );
}

const GOOD: &str = r#"{"result":{"accessToken":"T","instanceUrl":"U"}}"#;

#[test]
fn first_provider_that_succeeds_is_not_followed() {
    let mut programs: Vec<String> = Vec::new();
    let auth = get_auth_with_runner(None, |program, _args| {
        programs.push(program.to_string());
        Ok(GOOD.to_string())
    })
    .expect("auth resolves");
    assert_eq!(auth.access_token, "T");
    assert_eq!(programs, vec!["sf"]);
}

#[test]
fn second_provider_is_tried_when_the_first_output_does_not_parse() {
    let auth = get_auth_with_runner(None, |program, _args| {
        if program == "sf" {
            Ok("not json".to_string())
        } else {
            Ok(GOOD.to_string())
        }
    })
    .expect("auth resolves");
    assert_eq!(auth.instance_url, "U");
}

#[test]
fn first_error_is_reported_when_both_runs_fail() {
    let result = get_auth_with_runner(None, |program, _args| {
        Err(AuthError::CommandFailed(format!("{program} missing")))
    });
    assert_eq!(result, Err(AuthError::CommandFailed("sf missing".to_string())));
}

#[test]
fn first_error_is_reported_when_the_second_output_does_not_parse() {
    let result = get_auth_with_runner(None, |program, _args| {
        if program == "sf" {
            Ok("{}".to_string())
        } else {
            Ok("not json".to_string())
        }
    });
    assert_eq!(result, Err(AuthError::MissingFields));
}

#[test]
fn attempts_on_given_runs() {
    assert_eq!(first_attempt(Ok(GOOD.to_string())).map(|auth| auth.access_token), Ok("T".to_string()));
    assert_eq!(first_attempt(Ok("[]".to_string())), Err(AuthError::InvalidJson));
    assert_eq!(
        first_attempt(Err(AuthError::CommandFailed("x".to_string()))),
        Err(AuthError::CommandFailed("x".to_string()))
    );
    assert_eq!(
        second_attempt(AuthError::InvalidJson, Err(AuthError::CommandFailed("x".to_string()))),
        Err(AuthError::InvalidJson)
    );
    assert_eq!(
        second_attempt(AuthError::InvalidJson, Ok(GOOD.to_string())).map(|auth| auth.instance_url),
        Ok("U".to_string())
    );
}

#[test]
fn get_auth_turns_runs_into_credentials_or_the_first_failure() {
    let spawn = |program: &str, args: &[String]| {
        assert_eq!(args.last().map(String::as_str), Some("alias"));
        if program == "sf" {
            CommandOutcome::Failed { status: "exit status: 1".to_string(), stderr: "boom".to_string() }
        } else {
            CommandOutcome::Output(GOOD.to_string())
        }
    };
    let auth = get_auth(Some("alias"), &spawn).expect("auth resolves");
    assert_eq!(auth.access_token, "T");

    let missing = |program: &str, _args: &[String]| {
        CommandOutcome::NotStarted(format!("{program} not installed"))
    };
    assert_eq!(
        get_auth(None, &missing),
        Err(AuthError::CommandFailed("sf: sf not installed".to_string()))
    );
}
