use hubcaps::errors::{ClientError, Error};
use hubcaps::executor::{attach_credentials, Github, Method, Response};
use hubcaps::json::Json;
use hubcaps::pagination::{classify_page, drain_pages, next_link, PaginatedSeq, Pulled};
use hubcaps::params::Params;
use hubcaps::rep::Label;
use hubcaps::Credentials;

fn anonymous_client() -> Github {
    Github::new("hubcaps/test".to_string(), Credentials::Anonymous)
}

fn response(status: u16, headers: Vec<(&str, &str)>, body: &str) -> Response {
    let mut hs = Params::new();
    for (k, v) in headers {
        hs.insert(k, v.to_string());
    }
    Response {
        status,
        headers: hs,
        body: body.to_string(),
    }
}

#[test]
fn execute_success_decodes_single_item() {
    let gh = anonymous_client();
    let body = r#"[{"url":"https://api.github.com/repos/acme/widgets/labels/enhancement","name":"enhancement","color":"84b6eb"}]"#;
    let result = gh.execute(Some(response(200, vec![], body)));
    let value = result.unwrap().unwrap();
    let items = match &value {
        Json::Arr(v) => v,
        _ => panic!("expected an array"),
    };
    assert_eq!(items.len(), 1);
    let label = Label::from_json(&items[0]).unwrap();
    assert_eq!(
        label.url,
        "https://api.github.com/repos/acme/widgets/labels/enhancement"
    );
    assert_eq!(label.name, "enhancement");
    assert_eq!(label.color, "84b6eb");
}

#[test]
fn execute_unit_success_on_empty_body() {
    let gh = anonymous_client();
    let result = gh.execute(Some(response(204, vec![], "")));
    assert!(matches!(result, Ok(None)));
}

#[test]
fn execute_reports_transport_failure() {
    let gh = anonymous_client();
    assert!(matches!(gh.execute(None), Err(Error::Transport)));
}

#[test]
fn execute_reports_codec_failure() {
    let gh = anonymous_client();
    let result = gh.execute(Some(response(200, vec![], "not json")));
    assert!(matches!(result, Err(Error::Codec)));
}

#[test]
fn execute_fault_carries_structured_error() {
    let gh = anonymous_client();
    let body = r#"{"message":"Validation Failed","errors":[{"resource":"Label","code":"custom","message":"already exists"}]}"#;
    match gh.execute(Some(response(422, vec![], body))) {
        Err(Error::Fault { code, error }) => {
            assert_eq!(code, 422);
            assert_eq!(error.message, "Validation Failed");
            let entries = error.errors.unwrap();
            assert_eq!(entries.len(), 1);
            assert_eq!(entries[0].resource, "Label");
            assert_eq!(entries[0].code, "custom");
            assert_eq!(entries[0].message.as_deref(), Some("already exists"));
        }
        other => panic!("expected a fault, got {:?}", other),
    }
}

#[test]
fn execute_fault_on_malformed_error_body() {
    let gh = anonymous_client();
    match gh.execute(Some(response(500, vec![], "<html>boom</html>"))) {
        Err(Error::Fault { code, error }) => {
            assert_eq!(code, 500);
            assert_eq!(error.message, "500");
            assert!(error.errors.is_none());
        }
        other => panic!("expected a fault, got {:?}", other),
    }
}

#[test]
fn execute_fault_on_empty_error_body() {
    let gh = anonymous_client();
    match gh.execute(Some(response(404, vec![], ""))) {
        Err(Error::Fault { code, .. }) => assert_eq!(code, 404),
        other => panic!("expected a fault, got {:?}", other),
    }
}

#[test]
fn execute_reports_rate_limiting_with_reset() {
    let gh = anonymous_client();
    let result = gh.execute(Some(response(
        429,
        vec![("x-ratelimit-reset", "1500000000")],
        "",
    )));
    assert!(matches!(
        result,
        Err(Error::RateLimited {
            reset: Some(1500000000)
        })
    ));
}

#[test]
fn execute_reports_rate_limiting_without_reset() {
    let gh = anonymous_client();
    let result = gh.execute(Some(response(429, vec![], "")));
    assert!(matches!(result, Err(Error::RateLimited { reset: None })));
}

#[test]
fn token_attachment_is_idempotent() {
    let creds = Credentials::Token("SECRET-REDACTED".to_string());
    let gh = Github::new("hubcaps/test".to_string(), creds);
    let mut req = gh.build_request(Method::Get, "/user", None);
    assert_eq!(req.headers.key_occurrences("authorization"), 1);
    assert_eq!(
        req.headers.get("authorization").cloned(),
        Some("token SECRET-REDACTED".to_string())
    );
    let again = Credentials::Token("SECRET-REDACTED".to_string());
    attach_credentials(&again, &mut req);
    attach_credentials(&again, &mut req);
    assert_eq!(req.headers.key_occurrences("authorization"), 1);
    assert_eq!(
        req.headers.get("authorization").cloned(),
        Some("token SECRET-REDACTED".to_string())
    );
}

#[test]
fn client_credentials_attach_as_query_pairs() {
    let creds = Credentials::Client("id123".to_string(), "SECRET-REDACTED".to_string());
    let gh = Github::new("hubcaps/test".to_string(), creds);
    let req = gh.build_request(Method::Get, "/user", None);
    assert_eq!(req.query.get("client_id").cloned(), Some("id123".to_string()));
    assert_eq!(
        req.query.get("client_secret").cloned(),
        Some("SECRET-REDACTED".to_string())
    );
    assert_eq!(req.headers.key_occurrences("authorization"), 0);
}

#[test]
fn build_request_sets_agent_and_accept() {
    let gh = anonymous_client();
    let req = gh.build_request(Method::Get, "/repos/acme/widgets", None);
    assert_eq!(req.url, "https://api.github.com/repos/acme/widgets");
    assert_eq!(req.headers.get("user-agent").cloned(), Some("hubcaps/test".to_string()));
    assert_eq!(
        req.headers.get("accept").cloned(),
        Some("application/json".to_string())
    );
    assert!(req.headers.get("content-type").is_none());
    let with_body = gh.build_request(Method::Post, "/repos/acme/widgets", Some("{}".to_string()));
    assert_eq!(
        with_body.headers.get("content-type").cloned(),
        Some("application/json".to_string())
    );
}

#[test]
fn malformed_host_is_a_configuration_error() {
    let result = Github::try_with_host(
        "not a url".to_string(),
        "hubcaps/test".to_string(),
        Credentials::Anonymous,
    );
    assert!(matches!(result, Err(Error::Config)));
    let ok = Github::try_with_host(
        "https://ghe.example.com".to_string(),
        "hubcaps/test".to_string(),
        Credentials::Anonymous,
    );
    assert!(ok.is_ok());
}

#[test]
fn next_link_finds_the_continuation() {
    let header = r#"<https://api.github.com/repositories/1/labels?page=2>; rel="next", <https://api.github.com/repositories/1/labels?page=9>; rel="last""#;
    assert_eq!(
        next_link(header),
        Some("https://api.github.com/repositories/1/labels?page=2".to_string())
    );
    let last_only = r#"<https://api.github.com/repositories/1/labels?page=9>; rel="last""#;
    assert_eq!(next_link(last_only), None);
    assert_eq!(next_link(""), None);
}

fn label_json(name: &str) -> String {
    format!(
        r#"{{"url":"https://api.github.com/repos/acme/widgets/labels/{}","name":"{}","color":"ededed"}}"#,
        name, name
    )
}

#[test]
fn paginate_two_pages_yields_labels_in_order() {
    let gh = anonymous_client();
    let mut seq = gh.paginate("/repos/acme/widgets/labels");

    let page1_body = format!("[{},{}]", label_json("bug"), label_json("enhancement"));
    let page2_body = format!("[{}]", label_json("question"));
    let next_url = "https://api.github.com/repositories/42/labels?page=2";
    let link = format!("<{}>; rel=\"next\"", next_url);

    let mut fetched: Vec<String> = Vec::new();
    let mut labels: Vec<Label> = Vec::new();
    let mut ended = false;
    while !ended {
        match seq.pull() {
            Pulled::Item(item) => labels.push(Label::from_json(&item).unwrap()),
            Pulled::Fetch(url) => {
                fetched.push(url.clone());
                let resp = if fetched.len() == 1 {
                    response(200, vec![("link", link.as_str())], page1_body.as_str())
                } else {
                    response(200, vec![], page2_body.as_str())
                };
                match classify_page(Some(resp), "x-ratelimit-reset") {
                    Ok((items, next)) => seq.feed_page(items, next),
                    Err(e) => seq.feed_error(e),
                }
            }
            Pulled::Done => ended = true,
            Pulled::Failed(e) => panic!("unexpected error {:?}", e),
        }
    }

    assert_eq!(
        fetched,
        vec![
            "https://api.github.com/repos/acme/widgets/labels".to_string(),
            next_url.to_string()
        ]
    );
    let names: Vec<String> = labels.iter().map(|l| l.name.clone()).collect();
    assert_eq!(names, vec!["bug", "enhancement", "question"]);

    // Exhaustion is permanent: every further pull says so.
    for _ in 0..3 {
        assert!(matches!(seq.pull(), Pulled::Done));
    }
}

#[test]
fn paginate_decode_failure_is_terminal() {
    let gh = anonymous_client();
    let mut seq = gh.paginate("/repos/acme/widgets/labels");
    match seq.pull() {
        Pulled::Fetch(_) => match classify_page(
            Some(response(200, vec![], "not json")),
            "x-ratelimit-reset",
        ) {
            Ok(_) => panic!("expected a decode failure"),
            Err(e) => seq.feed_error(e),
        },
        other => panic!("expected a fetch, got a different pull: {:?}", discr(&other)),
    }
    // The error is reported exactly once, then the sequence is exhausted.
    assert!(matches!(seq.pull(), Pulled::Failed(Error::Codec)));
    assert!(matches!(seq.pull(), Pulled::Done));
    assert!(matches!(seq.pull(), Pulled::Done));
}

fn discr(p: &Pulled) -> &'static str {
    match p {
        Pulled::Item(_) => "item",
        Pulled::Fetch(_) => "fetch",
        Pulled::Done => "done",
        Pulled::Failed(_) => "failed",
    }
}

#[test]
fn drain_counts_one_fetch_per_page() {
    let one = Json::Str("alpha".to_string());
    let two = Json::Str("beta".to_string());
    let three = Json::Str("gamma".to_string());
    let pages = vec![
        (vec![one, two], Some("https://x.example/p2".to_string())),
        (vec![], Some("https://x.example/p3".to_string())),
        (vec![three], None),
    ];
    let (items, fetches) = drain_pages("https://x.example/p1".to_string(), pages);
    assert_eq!(fetches, 3);
    let texts: Vec<String> = items.iter().map(|j| j.encode()).collect();
    assert_eq!(texts, vec!["\"alpha\"", "\"beta\"", "\"gamma\""]);
}

#[test]
fn empty_page_with_cursor_still_advances() {
    let gh = anonymous_client();
    let mut seq = gh.paginate("/repos/acme/widgets/labels");
    match seq.pull() {
        Pulled::Fetch(_) => {
            seq.feed_page(Vec::new(), Some("https://x.example/p2".to_string()));
        }
        _ => panic!("expected a fetch"),
    }
    match seq.pull() {
        Pulled::Fetch(url) => assert_eq!(url, "https://x.example/p2"),
        _ => panic!("expected the next fetch"),
    }
}

#[test]
fn repo_tuple_reads_the_repository_url() {
    let item = sample_issue("https://api.github.com/repos/octocat/Hello-World");
    assert_eq!(
        item.try_repo_tuple(),
        Some(("Hello-World".to_string(), "octocat".to_string()))
    );
    let bad = sample_issue("not a url");
    assert_eq!(bad.try_repo_tuple(), None);
}

fn sample_issue(repository_url: &str) -> hubcaps::rep::SearchIssuesItem {
    hubcaps::rep::SearchIssuesItem {
        url: String::new(),
        repository_url: repository_url.to_string(),
        labels_url: String::new(),
        comments_url: String::new(),
        events_url: String::new(),
        html_url: String::new(),
        id: 1,
        number: 1,
        title: "t".to_string(),
        user: sample_user(),
        labels: vec![],
        state: "open".to_string(),
        locked: false,
        assignee: None,
        assignees: vec![],
        comments: 0,
        created_at: String::new(),
        updated_at: String::new(),
        closed_at: None,
        pull_request: None,
        body: None,
    }
}

fn sample_user() -> hubcaps::rep::User {
    hubcaps::rep::User {
        login: "octocat".to_string(),
        id: 1,
        avatar_url: String::new(),
        gravatar_id: String::new(),
        url: String::new(),
        html_url: String::new(),
        followers_url: String::new(),
        following_url: String::new(),
        gists_url: String::new(),
        starred_url: String::new(),
        subscriptions_url: String::new(),
        organizations_url: String::new(),
        repos_url: String::new(),
        events_url: String::new(),
        received_events_url: String::new(),
        site_admin: false,
    }
}

#[test]
fn add_labels_scenario() {
    // A single-item call against the labels resource of a pull request:
    // a success fixture yields the typed one-element result, a validation
    // fixture yields the fault with the API's own message.
    let gh = anonymous_client();
    let body = hubcaps::rep::strings_to_json(&vec!["enhancement".to_string()]).encode();
    assert_eq!(body, r#"["enhancement"]"#);
    let req = gh.build_request(
        Method::Post,
        "/repos/acme/widgets/pulls/121/labels",
        Some(body),
    );
    assert_eq!(
        req.url,
        "https://api.github.com/repos/acme/widgets/pulls/121/labels"
    );

    let ok_body = format!("[{}]", label_json("enhancement"));
    match gh.execute(Some(response(200, vec![], ok_body.as_str()))) {
        Ok(Some(Json::Arr(items))) => {
            assert_eq!(items.len(), 1);
            assert_eq!(Label::from_json(&items[0]).unwrap().name, "enhancement");
        }
        other => panic!("expected a one-element array, got {:?}", other),
    }

    let err_body = r#"{"message":"Validation Failed"}"#;
    match gh.execute(Some(response(422, vec![], err_body))) {
        Err(Error::Fault { code, error }) => {
            assert_eq!(code, 422);
            assert_eq!(error.message, "Validation Failed");
        }
        other => panic!("expected a fault, got {:?}", other),
    }
}

#[test]
fn label_round_trip_through_text() {
    let label = Label {
        url: "https://api.github.com/repos/acme/widgets/labels/bug".to_string(),
        name: "bug".to_string(),
        color: "fc2929".to_string(),
    };
    let text = label.to_json_string();
    let value = hubcaps::json_parse::parse_json(text.as_str()).unwrap();
    let back = Label::from_json(&value).unwrap();
    assert_eq!(back.url, label.url);
    assert_eq!(back.name, label.name);
    assert_eq!(back.color, label.color);
}
