use std::collections::BTreeMap;

use hubcaps::rep::{
    ClientError, DeploymentOptions, DeploymentStatusOptions, FieldErr, GistOptions,
    IssueListOptions, PullEditOptions, PullListOptions, StatusOptions, StatusState,
};
use hubcaps::State as StdState;
use hubcaps::json_parse::parse_json;

#[test]
fn gist_reqs() {
    let files = vec![("foo".to_string(), "bar".to_string())];
    let tests = vec![
        (
            GistOptions::new(None, true, files.clone()),
            r#"{"public":true,"files":{"foo":{"content":"bar"}}}"#,
        ),
        (
            GistOptions::new(Some("desc".to_string()), true, files.clone()),
            r#"{"description":"desc","public":true,"files":{"foo":{"content":"bar"}}}"#,
        ),
    ];
    for (k, v) in tests {
        assert_eq!(k.to_json_string(), v);
    }
}

#[test]
fn deserialize_client_field_errors() {
    for (json, expect) in vec![(
        r#"{"message": "Validation Failed","errors":
                [{
                    "resource": "Release",
                    "code": "custom",
                    "message": "Published releases must have a valid tag"
                }]}"#,
        ClientError {
            message: "Validation Failed".to_owned(),
            errors: Some(vec![FieldErr {
                resource: "Release".to_owned(),
                code: "custom".to_owned(),
                field: None,
                message: Some(
                    "Published releases \
                     must have a valid tag"
                        .to_owned(),
                ),
                documentation_url: None,
            }]),
        },
    )] {
        let value = parse_json(json).unwrap();
        assert_eq!(ClientError::from_json(&value).unwrap(), expect);
    }
}

#[test]
fn deserialize_status_state() {
    for (json, value) in vec![
        ("\"pending\"", StatusState::Pending),
        ("\"success\"", StatusState::Success),
        ("\"error\"", StatusState::Error),
        ("\"failure\"", StatusState::Failure),
    ] {
        assert_eq!(StatusState::parse(json).unwrap(), value)
    }
}

#[test]
fn serialize_status_state() {
    for (json, value) in vec![
        ("\"pending\"", StatusState::Pending),
        ("\"success\"", StatusState::Success),
        ("\"error\"", StatusState::Error),
        ("\"failure\"", StatusState::Failure),
    ] {
        assert_eq!(value.to_json_string(), json)
    }
}

#[test]
fn hook_create_reqs() {}

#[test]
fn hook_edit_reqs() {}

#[test]
fn deployment_reqs() {
    let mut payload = BTreeMap::new();
    payload.insert("user", "atmos");
    payload.insert("room_id", "123456");
    let payload_text = serde_json::to_string(&payload).unwrap();
    let tests = vec![
        (
            DeploymentOptions::builder("test".to_string()).build(),
            r#"{"ref":"test"}"#,
        ),
        (
            DeploymentOptions::builder("test".to_string())
                .task("launchit".to_string())
                .build(),
            r#"{"ref":"test","task":"launchit"}"#,
        ),
        (
            DeploymentOptions::builder("topic-branch".to_string())
                .description("description".to_string())
                .payload(payload_text)
                .build(),
            r#"{"ref":"topic-branch","payload":"{\"room_id\":\"123456\",\"user\":\"atmos\"}","description":"description"}"#,
        ),
    ];
    for (k, v) in tests {
        assert_eq!(k.to_json_string(), v);
    }
}

#[test]
fn deployment_status_reqs() {
    let tests = vec![
        (
            DeploymentStatusOptions::builder(StatusState::Pending).build(),
            r#"{"state":"pending"}"#,
        ),
        (
            DeploymentStatusOptions::builder(StatusState::Pending)
                .target_url("http://host.com".to_string())
                .build(),
            r#"{"state":"pending","target_url":"http://host.com"}"#,
        ),
        (
            DeploymentStatusOptions::builder(StatusState::Pending)
                .target_url("http://host.com".to_string())
                .description("desc".to_string())
                .build(),
            r#"{"state":"pending","target_url":"http://host.com","description":"desc"}"#,
        ),
    ];
    for (k, v) in tests {
        assert_eq!(k.to_json_string(), v);
    }
}

#[test]
fn gist_req() {
    let files = vec![("test".to_string(), "foo".to_string())];
    let tests = vec![
        (
            GistOptions::builder(files.clone()).build(),
            r#"{"files":{"test":{"content":"foo"}}}"#,
        ),
        (
            GistOptions::builder(files.clone())
                .description("desc".to_string())
                .build(),
            r#"{"description":"desc","files":{"test":{"content":"foo"}}}"#,
        ),
        (
            GistOptions::builder(files.clone())
                .description("desc".to_string())
                .public(false)
                .build(),
            r#"{"description":"desc","public":false,"files":{"test":{"content":"foo"}}}"#,
        ),
    ];
    for (k, v) in tests {
        assert_eq!(k.to_json_string(), v);
    }
}

#[test]
fn pullreq_edits() {
    let tests = vec![
        (
            PullEditOptions::builder().title("test".to_string()).build(),
            r#"{"title":"test"}"#,
        ),
        (
            PullEditOptions::builder()
                .title("test".to_string())
                .body("desc".to_string())
                .build(),
            r#"{"title":"test","body":"desc"}"#,
        ),
        (
            PullEditOptions::builder().state("closed".to_string()).build(),
            r#"{"state":"closed"}"#,
        ),
    ];
    for (k, v) in tests {
        assert_eq!(k.to_json_string(), v);
    }
}

#[test]
fn status_reqs() {
    let tests = vec![
        (
            StatusOptions::builder(StatusState::Pending).build(),
            r#"{"state":"pending"}"#,
        ),
        (
            StatusOptions::builder(StatusState::Success)
                .target_url("http://acme.com".to_string())
                .build(),
            r#"{"state":"success","target_url":"http://acme.com"}"#,
        ),
        (
            StatusOptions::builder(StatusState::Error)
                .description("desc".to_string())
                .build(),
            r#"{"state":"error","description":"desc"}"#,
        ),
        (
            StatusOptions::builder(StatusState::Failure)
                .target_url("http://acme.com".to_string())
                .description("desc".to_string())
                .build(),
            r#"{"state":"failure","target_url":"http://acme.com","description":"desc"}"#,
        ),
    ];
    for (k, v) in tests {
        assert_eq!(k.to_json_string(), v);
    }
}

#[test]
fn issue_list_reqs() {
    let tests = vec![
        (IssueListOptions::builder().build(), None),
        (
            IssueListOptions::builder().state(StdState::Closed).build(),
            Some("state=closed".to_owned()),
        ),
        (
            IssueListOptions::builder()
                .labels(vec!["foo".to_string(), "bar".to_string()])
                .build(),
            Some("labels=foo%2Cbar".to_owned()),
        ),
    ];
    for (k, v) in tests {
        assert_eq!(k.serialize(), v);
    }
}

#[test]
fn pull_list_reqs() {
    let tests = vec![
        (PullListOptions::builder().build(), None),
        (
            PullListOptions::builder().state(StdState::Closed).build(),
            Some("state=closed".to_owned()),
        ),
    ];
    for (k, v) in tests {
        assert_eq!(k.serialize(), v);
    }
}

#[test]
fn setting_an_option_twice_replaces_it() {
    let opts = IssueListOptions::builder()
        .state(StdState::Open)
        .state(StdState::Closed)
        .build();
    assert_eq!(opts.serialize(), Some("state=closed".to_owned()));
}

#[test]
fn issue_options_encode_every_field() {
    let opts = hubcaps::rep::IssueOptions::new(
        "broken build".to_string(),
        Some("the build broke".to_string()),
        Some("octocat".to_string()),
        Some(7),
        vec!["bug".to_string(), "ci".to_string()],
    );
    assert_eq!(
        opts.to_json_string(),
        r#"{"title":"broken build","body":"the build broke","assignee":"octocat","milestone":7,"labels":["bug","ci"]}"#
    );
}

#[test]
fn repo_options_encode_team_id() {
    let opts = hubcaps::rep::RepoOptions::builder("widgets".to_string())
        .team_id(-3)
        .auto_init(true)
        .build();
    assert_eq!(
        opts.to_json_string(),
        r#"{"name":"widgets","team_id":-3,"auto_init":true}"#
    );
}

#[test]
fn hook_config_entries_replace_by_key() {
    let opts = hubcaps::rep::HookCreateOptions::web()
        .url("https://one.example".to_string())
        .url("https://two.example".to_string())
        .build();
    assert_eq!(
        opts.to_json_string(),
        r#"{"name":"web","config":{"url":"https://two.example"},"events":[],"active":true}"#
    );
}
