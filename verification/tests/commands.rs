use focus_core::commands::{
    dispatch_agent, get_api_keys_status, get_repo_details, save_api_keys, search_repos, Action,
    Event, Outcome, Reply, Session,
};
use focus_core::credentials::{Lookup, Service, Written};
use focus_core::error::ApiError;
use focus_core::github::{Repo, RepoDetails, RepoFile};
use focus_core::http::{Body, HttpRequest, HttpResponse, Method};
use focus_core::json::Json;
use focus_core::jules::AgentResponse;
use std::collections::HashMap;

/// A host in memory: a secret store that may be out of reach or refuse
/// single accounts, and a network that answers by address.
struct FakeHost {
    outage: Option<String>,
    read_only: Vec<Service>,
    secrets: HashMap<&'static str, String>,
    answers: HashMap<String, Reply>,
    lookups: Vec<Service>,
    writes: Vec<Service>,
    sent: Vec<HttpRequest>,
}

fn host() -> FakeHost {
    FakeHost {
        outage: None,
        read_only: vec![],
        secrets: HashMap::new(),
        answers: HashMap::new(),
        lookups: vec![],
        writes: vec![],
        sent: vec![],
    }
}

fn host_with(github: Option<&str>, jules: Option<&str>) -> FakeHost {
    let mut fake = host();
    if let Some(secret) = github {
        fake.secrets.insert(Service::GitHub.account_name(), secret.to_string());
    }
    if let Some(secret) = jules {
        fake.secrets.insert(Service::Jules.account_name(), secret.to_string());
    }
    fake
}

fn ok(body: &str) -> Reply {
    Reply::Response(HttpResponse { status: 200, body: Body::Bytes(body.as_bytes().to_vec()) })
}

fn status(code: u16) -> Reply {
    Reply::Response(HttpResponse { status: code, body: Body::Bytes(vec![]) })
}

fn perform(fake: &mut FakeHost, action: Action) -> Event {
    match action {
        Action::Lookup { service } => {
            fake.lookups.push(service);
            Event::Looked(match (&fake.outage, fake.secrets.get(service.account_name())) {
                (Some(reason), _) => Lookup::Unavailable(reason.clone()),
                (None, Some(secret)) => Lookup::Found(secret.clone()),
                (None, None) => Lookup::NotFound,
            })
        }
        Action::Write { service, secret } => {
            fake.writes.push(service);
            if let Some(reason) = &fake.outage {
                Event::Wrote(Written::Unavailable(reason.clone()))
            } else if fake.read_only.contains(&service) {
                Event::Wrote(Written::Unavailable("read only".to_string()))
            } else {
                fake.secrets.insert(service.account_name(), secret);
                Event::Wrote(Written::Stored)
            }
        }
        Action::Send { request } => {
            let reply = fake
                .answers
                .get(&request.url)
                .cloned()
                .unwrap_or(Reply::Unsent("no route".to_string()));
            fake.sent.push(request);
            Event::Replied(reply)
        }
        Action::Finish => panic!("a finished session was driven on"),
    }
}

fn drive(fake: &mut FakeHost, mut session: Session) -> Outcome {
    for _ in 0..5 {
        let action = session.pending();
        if action == Action::Finish {
            break;
        }
        let event = perform(fake, action);
        session = session.advance(event);
    }
    session.outcome().expect("the session did not finish in four steps")
}

const SEARCH_URL: &str = "https://api.github.com/search/repositories";
const SESSIONS_URL: &str = "https://api.jules.ai/v1/sessions";
const FOUND: &str = r#"{"items":[{"id":1,"name":"focus","private":false,"description":null}]}"#;
const STARTED: &str = r#"{"session_id":"sess_001","status":"RUNNING","plan":["step 1"]}"#;

#[test]
fn status_is_true_only_with_both_keys() {
    for (github, jules, expected) in [
        (None, None, false),
        (Some("g"), None, false),
        (None, Some("j"), false),
        (Some("g"), Some("j"), true),
    ] {
        let mut fake = host_with(github, jules);
        assert_eq!(
            drive(&mut fake, get_api_keys_status()),
            Outcome::KeysStatus(expected)
        );
        assert_eq!(fake.writes, vec![]);
        assert_eq!(fake.sent, vec![]);
    }
}

#[test]
fn status_accepts_empty_secrets() {
    let mut fake = host_with(Some(""), Some(""));
    assert_eq!(drive(&mut fake, get_api_keys_status()), Outcome::KeysStatus(true));
}

#[test]
fn status_is_false_when_the_store_is_out_of_reach() {
    let mut fake = host_with(Some("g"), Some("j"));
    fake.outage = Some("locked".to_string());
    assert_eq!(drive(&mut fake, get_api_keys_status()), Outcome::KeysStatus(false));
}

#[test]
fn status_looks_the_second_key_up_only_after_the_first() {
    let mut fake = host_with(None, Some("j"));
    drive(&mut fake, get_api_keys_status());
    assert_eq!(fake.lookups, vec![Service::GitHub]);
    let mut fake = host_with(Some("g"), None);
    drive(&mut fake, get_api_keys_status());
    assert_eq!(fake.lookups, vec![Service::GitHub, Service::Jules]);
}

#[test]
fn saved_keys_are_reported_as_kept() {
    let mut fake = host();
    assert_eq!(
        drive(&mut fake, save_api_keys("g-key".to_string(), "j-key".to_string())),
        Outcome::KeysSaved
    );
    assert_eq!(fake.writes, vec![Service::GitHub, Service::Jules]);
    assert_eq!(fake.secrets.get("github_token"), Some(&"g-key".to_string()));
    assert_eq!(fake.secrets.get("jules_token"), Some(&"j-key".to_string()));
    assert_eq!(drive(&mut fake, get_api_keys_status()), Outcome::KeysStatus(true));
}

#[test]
fn saving_replaces_earlier_keys() {
    let mut fake = host_with(Some("old-g"), Some("old-j"));
    drive(&mut fake, save_api_keys("new-g".to_string(), String::new()));
    assert_eq!(fake.secrets.get("github_token"), Some(&"new-g".to_string()));
    assert_eq!(fake.secrets.get("jules_token"), Some(&String::new()));
}

#[test]
fn saving_stops_at_the_first_failed_write() {
    let mut fake = host_with(None, Some("old-j"));
    fake.outage = Some("locked".to_string());
    assert_eq!(
        drive(&mut fake, save_api_keys("g".to_string(), "j".to_string())),
        Outcome::Failed(ApiError::StoreUnavailable { reason: "locked".to_string() })
    );
    assert_eq!(fake.writes, vec![Service::GitHub]);
    assert_eq!(fake.secrets.get("github_token"), None);
    assert_eq!(fake.secrets.get("jules_token"), Some(&"old-j".to_string()));
}

#[test]
fn saving_may_leave_the_first_key_written_alone() {
    let mut fake = host_with(None, Some("old-j"));
    fake.read_only = vec![Service::Jules];
    assert_eq!(
        drive(&mut fake, save_api_keys("g".to_string(), "j".to_string())),
        Outcome::Failed(ApiError::StoreUnavailable { reason: "read only".to_string() })
    );
    assert_eq!(fake.secrets.get("github_token"), Some(&"g".to_string()));
    assert_eq!(fake.secrets.get("jules_token"), Some(&"old-j".to_string()));
}

#[test]
fn search_without_a_token_sends_nothing() {
    let mut fake = host_with(None, Some("j"));
    fake.answers.insert(SEARCH_URL.to_string(), ok(FOUND));
    assert_eq!(
        drive(&mut fake, search_repos("focus".to_string())),
        Outcome::Failed(ApiError::CredentialMissing { service: Service::GitHub })
    );
    assert_eq!(fake.sent, vec![]);
    assert_eq!(fake.lookups, vec![Service::GitHub]);
}

#[test]
fn search_with_a_token_sends_one_request() {
    let mut fake = host_with(Some("g-key"), None);
    fake.answers.insert(SEARCH_URL.to_string(), ok(FOUND));
    assert_eq!(
        drive(&mut fake, search_repos("focus".to_string())),
        Outcome::Repos(vec![Repo {
            id: 1,
            name: "focus".to_string(),
            private: false,
            description: None,
        }])
    );
    assert_eq!(fake.sent.len(), 1);
    assert_eq!(fake.sent[0].method, Method::Get);
    assert_eq!(fake.sent[0].query[0].value, "focus");
    assert_eq!(fake.sent[0].headers[1].value, "Bearer g-key");
}

#[test]
fn search_reports_an_unreachable_store_as_such() {
    let mut fake = host_with(Some("g-key"), None);
    fake.outage = Some("no keyring".to_string());
    assert_eq!(
        drive(&mut fake, search_repos("focus".to_string())),
        Outcome::Failed(ApiError::StoreUnavailable { reason: "no keyring".to_string() })
    );
    assert_eq!(fake.sent, vec![]);
}

#[test]
fn search_reports_what_the_network_did() {
    let mut fake = host_with(Some("g-key"), None);
    assert_eq!(
        drive(&mut fake, search_repos("focus".to_string())),
        Outcome::Failed(ApiError::Transport { reason: "no route".to_string() })
    );
    fake.answers.insert(SEARCH_URL.to_string(), status(403));
    assert_eq!(
        drive(&mut fake, search_repos("focus".to_string())),
        Outcome::Failed(ApiError::Http { service: Service::GitHub, status: 403 })
    );
}

#[test]
fn details_send_three_requests_in_order() {
    let mut fake = host_with(Some("g-key"), None);
    let base = "https://api.github.com/repos/o/r";
    fake.answers.insert(format!("{}/issues", base), status(404));
    fake.answers.insert(
        format!("{}/pulls", base),
        ok(r#"[{"id":10,"title":"Fix","user":{"login":"octocat"},"state":"open"}]"#),
    );
    fake.answers.insert(
        format!("{}/readme", base),
        ok(r#"{"name":"README.md","content":"","encoding":"base64"}"#),
    );
    let outcome = drive(&mut fake, get_repo_details("o".to_string(), "r".to_string()));
    let urls: Vec<&str> = fake.sent.iter().map(|request| request.url.as_str()).collect();
    assert_eq!(
        urls,
        vec![
            "https://api.github.com/repos/o/r/issues",
            "https://api.github.com/repos/o/r/pulls",
            "https://api.github.com/repos/o/r/readme",
        ]
    );
    match outcome {
        Outcome::Details(RepoDetails { issues, prs, files }) => {
            assert_eq!(issues, vec![]);
            assert_eq!(prs.len(), 1);
            assert_eq!(prs[0].user.login, "octocat");
            assert_eq!(
                files,
                vec![RepoFile {
                    name: "README.md".to_string(),
                    content: "Fetched from GitHub".to_string(),
                }]
            );
        }
        other => panic!("no details: {:?}", other),
    }
}

#[test]
fn details_stop_at_the_first_request_that_cannot_be_sent() {
    let mut fake = host_with(Some("g-key"), None);
    fake.answers.insert("https://api.github.com/repos/o/r/issues".to_string(), ok("[]"));
    assert_eq!(
        drive(&mut fake, get_repo_details("o".to_string(), "r".to_string())),
        Outcome::Failed(ApiError::Transport { reason: "no route".to_string() })
    );
    assert_eq!(fake.sent.len(), 2);
}

#[test]
fn details_without_a_token_send_nothing() {
    let mut fake = host();
    assert_eq!(
        drive(&mut fake, get_repo_details("o".to_string(), "r".to_string())),
        Outcome::Failed(ApiError::CredentialMissing { service: Service::GitHub })
    );
    assert_eq!(fake.sent, vec![]);
}

#[test]
fn dispatch_uses_the_agent_token() {
    let mut fake = host_with(Some("g-key"), Some("j-key"));
    fake.answers.insert(SESSIONS_URL.to_string(), ok(STARTED));
    assert_eq!(
        drive(&mut fake, dispatch_agent("task-1".to_string(), "Do it".to_string())),
        Outcome::Session(AgentResponse {
            session_id: "sess_001".to_string(),
            status: "RUNNING".to_string(),
            plan: vec!["step 1".to_string()],
        })
    );
    assert_eq!(fake.lookups, vec![Service::Jules]);
    assert_eq!(fake.sent.len(), 1);
    assert_eq!(fake.sent[0].method, Method::Post);
    assert_eq!(fake.sent[0].headers[0].value, "Bearer j-key");
}

#[test]
fn dispatch_without_a_token_names_the_agent() {
    let mut fake = host_with(Some("g-key"), None);
    fake.answers.insert(SESSIONS_URL.to_string(), ok(STARTED));
    assert_eq!(
        drive(&mut fake, dispatch_agent("task-1".to_string(), "Do it".to_string())),
        Outcome::Failed(ApiError::CredentialMissing { service: Service::Jules })
    );
    assert_eq!(fake.sent, vec![]);
}

#[test]
fn an_event_that_answers_nothing_changes_nothing() {
    let session = search_repos("q".to_string());
    let session = session.advance(Event::Wrote(Written::Stored));
    assert_eq!(session, Session::SearchToken { query: "q".to_string() });
    let session = session.advance(Event::Replied(ok(FOUND)));
    assert_eq!(session, Session::SearchToken { query: "q".to_string() });
    let session = get_api_keys_status().advance(Event::Replied(status(200)));
    assert_eq!(session, Session::StatusGithub);
    let session = save_api_keys("g".to_string(), "j".to_string())
        .advance(Event::Looked(Lookup::Found("x".to_string())));
    assert_eq!(session.pending(), Action::Write {
        service: Service::GitHub,
        secret: "g".to_string(),
    });
}

#[test]
fn a_finished_session_stays_finished() {
    let done = get_api_keys_status().advance(Event::Looked(Lookup::NotFound));
    assert_eq!(done.pending(), Action::Finish);
    let still = done.advance(Event::Looked(Lookup::Found("g".to_string())));
    assert_eq!(still.outcome(), Some(Outcome::KeysStatus(false)));
}

#[test]
fn an_unfinished_session_has_no_outcome() {
    assert_eq!(search_repos("q".to_string()).outcome(), None);
    assert_eq!(save_api_keys(String::new(), String::new()).outcome(), None);
}

#[test]
fn reports_hand_over_documents_or_messages() {
    assert_eq!(Outcome::KeysSaved.report(), Ok(Json::Null));
    assert_eq!(Outcome::KeysStatus(true).report(), Ok(Json::Bool(true)));
    assert_eq!(Outcome::Repos(vec![]).report(), Ok(Json::Array(vec![])));
    assert_eq!(
        Outcome::Failed(ApiError::CredentialMissing { service: Service::GitHub }).report(),
        Err("GitHub API Key not found. Please set it in Settings.".to_string())
    );
    assert_eq!(
        Outcome::Failed(ApiError::Http { service: Service::Jules, status: 502 }).report(),
        Err("Jules API error: 502 Bad Gateway".to_string())
    );
    let session = AgentResponse {
        session_id: "s".to_string(),
        status: "RUNNING".to_string(),
        plan: vec![],
    };
    assert_eq!(Outcome::Session(session.clone()).report(), Ok(session.to_json()));
}
