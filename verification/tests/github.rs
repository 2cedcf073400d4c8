use focus_core::credentials::Service;
use focus_core::error::ApiError;
use focus_core::github::{
    get_details, is_file_description, is_readme_delivery, issues_listed, issues_request,
    prs_listed, pulls_request, readme_files, readme_request, repos_from_items, repos_to_json,
    search, search_request, search_results, Issue, Repo, RepoDetails, RepoFile, User, PR,
};
use focus_core::http::{Body, Field, HttpResponse, Method};
use focus_core::json::{Json, Member};

fn answer(status: u16, body: &str) -> HttpResponse {
    HttpResponse { status, body: Body::Bytes(body.as_bytes().to_vec()) }
}

fn named(name: &str, value: &str) -> Field {
    Field { name: name.to_string(), value: value.to_string() }
}

fn read_repo(text: &str) -> Option<Repo> {
    Repo::from_json(&Json::parse(text.as_bytes()).unwrap())
}

const ISSUES: &str = r#"[
    {"id": 1, "title": "Crash on start", "state": "open", "body": "It crashes.", "number": 7},
    {"id": 2, "title": "Typo", "state": "closed", "body": null}
]"#;

const PULLS: &str = r#"[
    {"id": 10, "title": "Fix crash", "user": {"login": "octocat", "id": 583231}, "state": "open"}
]"#;

const README: &str = r#"{"name": "README.md", "content": "SGVsbG8=", "encoding": "base64"}"#;

#[test]
fn test_repo_deserialization() {
    let json = r#"
        {
            "id": 12345,
            "name": "test-repo",
            "private": false,
            "description": "A test repo"
        }
        "#;
    let repo: Repo = Repo::from_json(&Json::parse(json.as_bytes()).unwrap()).unwrap();
    assert_eq!(repo.name, "test-repo");
    assert!(!repo.private);
}

#[test]
fn repo_fields_match_the_document() {
    let repo = read_repo(
        r#"{"id":12345,"name":"test-repo","private":false,"description":"A test repo"}"#,
    )
    .unwrap();
    assert_eq!(
        repo,
        Repo {
            id: 12345,
            name: "test-repo".to_string(),
            private: false,
            description: Some("A test repo".to_string()),
        }
    );
}

#[test]
fn repo_description_may_be_null_or_missing() {
    let with_null = read_repo(r#"{"id":1,"name":"a","private":true,"description":null}"#);
    let without = read_repo(r#"{"id":1,"name":"a","private":true}"#);
    let expected = Repo { id: 1, name: "a".to_string(), private: true, description: None };
    assert_eq!(with_null, Some(expected.clone()));
    assert_eq!(without, Some(expected));
}

#[test]
fn repo_passes_over_members_it_does_not_model() {
    let repo = read_repo(
        r#"{"full_name":"o/a","id":1,"owner":{"login":"o"},"name":"a","private":false,"fork":true}"#,
    );
    assert_eq!(
        repo,
        Some(Repo { id: 1, name: "a".to_string(), private: false, description: None })
    );
}

#[test]
fn repo_needs_every_required_member_in_its_type() {
    assert_eq!(read_repo(r#"{"name":"a","private":false}"#), None);
    assert_eq!(read_repo(r#"{"id":1,"private":false}"#), None);
    assert_eq!(read_repo(r#"{"id":1,"name":"a"}"#), None);
    assert_eq!(read_repo(r#"{"id":"1","name":"a","private":false}"#), None);
    assert_eq!(read_repo(r#"{"id":-1,"name":"a","private":false}"#), None);
    assert_eq!(read_repo(r#"{"id":1.5,"name":"a","private":false}"#), None);
    assert_eq!(read_repo(r#"{"id":1,"name":null,"private":false}"#), None);
    assert_eq!(read_repo(r#"{"id":1,"name":"a","private":"no"}"#), None);
    assert_eq!(read_repo(r#"{"id":1,"name":"a","private":false,"description":3}"#), None);
    assert_eq!(read_repo(r#"[1,"a",false,null]"#), None);
    assert_eq!(read_repo("null"), None);
}

#[test]
fn repo_round_trip() {
    let repos = vec![
        Repo { id: 0, name: String::new(), private: false, description: None },
        Repo {
            id: u64::MAX,
            name: "focus-hub".to_string(),
            private: true,
            description: Some("A \"quoted\" text".to_string()),
        },
    ];
    for repo in &repos {
        assert_eq!(Repo::from_json(&repo.to_json()), Some(repo.clone()));
    }
    match repos_to_json(&repos) {
        Json::Array(items) => assert_eq!(repos_from_items(&items), Some(repos)),
        other => panic!("not an array: {:?}", other),
    }
}

#[test]
fn repo_is_written_member_by_member() {
    let repo = Repo { id: 7, name: "a".to_string(), private: true, description: None };
    assert_eq!(
        repo.to_json(),
        Json::Object(vec![
            Member { name: "id".to_string(), value: Json::Number(Some(7)) },
            Member { name: "name".to_string(), value: Json::Text("a".to_string()) },
            Member { name: "private".to_string(), value: Json::Bool(true) },
            Member { name: "description".to_string(), value: Json::Null },
        ])
    );
}

#[test]
fn issue_and_pull_request_round_trip() {
    let issue = Issue {
        id: 3,
        title: "t".to_string(),
        state: "open".to_string(),
        body: Some("b".to_string()),
    };
    assert_eq!(Issue::from_json(&issue.to_json()), Some(issue));
    let pr = PR {
        id: 4,
        title: "t".to_string(),
        user: User { login: "octocat".to_string() },
        state: "closed".to_string(),
    };
    assert_eq!(PR::from_json(&pr.to_json()), Some(pr));
    let user = User { login: "octocat".to_string() };
    assert_eq!(User::from_json(&user.to_json()), Some(user));
}

#[test]
fn pull_request_needs_a_user_with_a_login() {
    let read = |text: &str| PR::from_json(&Json::parse(text.as_bytes()).unwrap());
    assert_eq!(read(r#"{"id":1,"title":"t","state":"open"}"#), None);
    assert_eq!(read(r#"{"id":1,"title":"t","user":{},"state":"open"}"#), None);
    assert_eq!(read(r#"{"id":1,"title":"t","user":"octocat","state":"open"}"#), None);
    assert_eq!(
        read(r#"{"id":1,"title":"t","user":{"login":"octocat"},"state":"open"}"#),
        Some(PR {
            id: 1,
            title: "t".to_string(),
            user: User { login: "octocat".to_string() },
            state: "open".to_string(),
        })
    );
}

#[test]
fn search_request_is_a_get_with_the_query_and_both_headers() {
    let request = search_request("verus lang", "tok");
    assert_eq!(request.method, Method::Get);
    assert_eq!(request.url, "https://api.github.com/search/repositories");
    assert_eq!(request.query, vec![named("q", "verus lang")]);
    assert_eq!(
        request.headers,
        vec![named("User-Agent", "focus-hub"), named("Authorization", "Bearer tok")]
    );
    assert_eq!(request.body, None);
}

#[test]
fn detail_requests_address_the_repository() {
    let issues = issues_request("rust-lang", "rust", "tok");
    let pulls = pulls_request("rust-lang", "rust", "tok");
    let readme = readme_request("rust-lang", "rust", "tok");
    assert_eq!(issues.url, "https://api.github.com/repos/rust-lang/rust/issues");
    assert_eq!(pulls.url, "https://api.github.com/repos/rust-lang/rust/pulls");
    assert_eq!(readme.url, "https://api.github.com/repos/rust-lang/rust/readme");
    for request in [issues, pulls, readme] {
        assert_eq!(request.method, Method::Get);
        assert_eq!(request.query, vec![]);
        assert_eq!(
            request.headers,
            vec![named("User-Agent", "focus-hub"), named("Authorization", "Bearer tok")]
        );
        assert_eq!(request.body, None);
    }
}

#[test]
fn search_unwraps_the_items() {
    let response = answer(
        200,
        r#"{"total_count": 2, "incomplete_results": false, "items": [
            {"id": 1, "name": "a", "private": false, "description": "first"},
            {"id": 2, "name": "b", "private": true, "description": null}
        ]}"#,
    );
    assert_eq!(
        search(&response),
        Ok(vec![
            Repo {
                id: 1,
                name: "a".to_string(),
                private: false,
                description: Some("first".to_string()),
            },
            Repo { id: 2, name: "b".to_string(), private: true, description: None },
        ])
    );
    assert_eq!(search(&answer(200, r#"{"items": []}"#)), Ok(vec![]));
}

#[test]
fn search_fails_with_the_status_outside_the_success_class() {
    let body = r#"{"items": []}"#;
    assert_eq!(
        search(&answer(401, body)),
        Err(ApiError::Http { service: Service::GitHub, status: 401 })
    );
    assert_eq!(
        search(&answer(199, body)),
        Err(ApiError::Http { service: Service::GitHub, status: 199 })
    );
    assert_eq!(
        search(&answer(300, body)),
        Err(ApiError::Http { service: Service::GitHub, status: 300 })
    );
    let unread = HttpResponse { status: 503, body: Body::Unreadable("reset".to_string()) };
    assert_eq!(
        search(&unread),
        Err(ApiError::Http { service: Service::GitHub, status: 503 })
    );
}

#[test]
fn search_fails_on_a_body_that_lists_no_repositories() {
    assert_eq!(search(&answer(200, "not json")), Err(ApiError::Decode));
    assert_eq!(search(&answer(200, "")), Err(ApiError::Decode));
    assert_eq!(search(&answer(200, r#"{"total_count": 0}"#)), Err(ApiError::Decode));
    assert_eq!(search(&answer(200, r#"{"items": {}}"#)), Err(ApiError::Decode));
    assert_eq!(search(&answer(200, r#"[]"#)), Err(ApiError::Decode));
    assert_eq!(
        search(&answer(200, r#"{"items": [{"id": 1, "name": "a", "private": false}, {"id": 2}]}"#)),
        Err(ApiError::Decode)
    );
}

#[test]
fn search_fails_on_a_body_that_could_not_be_read() {
    let response = HttpResponse { status: 200, body: Body::Unreadable("reset".to_string()) };
    assert_eq!(search(&response), Err(ApiError::Transport { reason: "reset".to_string() }));
}

#[test]
fn search_results_read_a_parsed_answer() {
    let doc = Json::Object(vec![Member {
        name: "items".to_string(),
        value: Json::Array(vec![Repo {
            id: 5,
            name: "e".to_string(),
            private: false,
            description: None,
        }
        .to_json()]),
    }]);
    assert_eq!(
        search_results(&doc),
        Some(vec![Repo { id: 5, name: "e".to_string(), private: false, description: None }])
    );
    assert_eq!(search_results(&Json::Null), None);
}

#[test]
fn details_hold_issues_pulls_and_the_readme_placeholder() {
    let details =
        get_details(&answer(200, ISSUES), &answer(200, PULLS), &answer(200, README)).unwrap();
    assert_eq!(
        details,
        RepoDetails {
            issues: vec![
                Issue {
                    id: 1,
                    title: "Crash on start".to_string(),
                    state: "open".to_string(),
                    body: Some("It crashes.".to_string()),
                },
                Issue {
                    id: 2,
                    title: "Typo".to_string(),
                    state: "closed".to_string(),
                    body: None,
                },
            ],
            prs: vec![PR {
                id: 10,
                title: "Fix crash".to_string(),
                user: User { login: "octocat".to_string() },
                state: "open".to_string(),
            }],
            files: vec![RepoFile {
                name: "README.md".to_string(),
                content: "Fetched from GitHub".to_string(),
            }],
        }
    );
}

#[test]
fn failed_issues_leave_the_pull_requests() {
    let details =
        get_details(&answer(404, "Not Found"), &answer(200, PULLS), &answer(200, README))
            .unwrap();
    assert_eq!(details.issues, vec![]);
    assert_eq!(details.prs.len(), 1);
    assert_eq!(details.prs[0].title, "Fix crash");
    assert_eq!(details.files.len(), 1);
}

#[test]
fn failed_pulls_leave_the_issues() {
    let details =
        get_details(&answer(200, ISSUES), &answer(500, ""), &answer(404, "")).unwrap();
    assert_eq!(details.issues.len(), 2);
    assert_eq!(details.prs, vec![]);
    assert_eq!(details.files, vec![]);
}

#[test]
fn every_failed_status_leaves_empty_details() {
    let unread = HttpResponse { status: 502, body: Body::Unreadable("reset".to_string()) };
    assert_eq!(
        get_details(&unread, &answer(403, "{}"), &answer(301, README)),
        Ok(RepoDetails { issues: vec![], prs: vec![], files: vec![] })
    );
}

#[test]
fn a_listing_of_the_success_class_must_be_readable() {
    let ok_issues = answer(200, ISSUES);
    let ok_pulls = answer(200, PULLS);
    let readme = answer(200, README);
    assert_eq!(get_details(&answer(200, "{}"), &ok_pulls, &readme), Err(ApiError::Decode));
    assert_eq!(get_details(&ok_issues, &answer(200, "oops"), &readme), Err(ApiError::Decode));
    assert_eq!(
        get_details(&ok_issues, &answer(200, r#"[{"id": 1}]"#), &readme),
        Err(ApiError::Decode)
    );
    let unread = HttpResponse { status: 200, body: Body::Unreadable("cut".to_string()) };
    assert_eq!(
        get_details(&unread, &answer(200, "oops"), &readme),
        Err(ApiError::Transport { reason: "cut".to_string() })
    );
    assert_eq!(
        get_details(&answer(200, "oops"), &unread, &readme),
        Err(ApiError::Decode)
    );
}

#[test]
fn the_readme_never_fails_the_details() {
    let issues = answer(200, ISSUES);
    let pulls = answer(200, PULLS);
    let unread = HttpResponse { status: 200, body: Body::Unreadable("cut".to_string()) };
    for readme in [
        answer(200, "not json"),
        answer(200, r#"{"name": "README.md", "content": "SGVsbG8="}"#),
        answer(200, r#"{"name": "README.md", "content": 1, "encoding": "base64"}"#),
        answer(404, README),
        unread,
    ] {
        let details = get_details(&issues, &pulls, &readme).unwrap();
        assert_eq!(details.issues.len(), 2);
        assert_eq!(details.prs.len(), 1);
        assert_eq!(details.files, vec![]);
    }
}

#[test]
fn the_readme_content_is_not_decoded() {
    let other = r#"{"name": "OTHER.txt", "content": "plain", "encoding": "none", "size": 5}"#;
    assert_eq!(
        readme_files(&answer(200, other)),
        vec![RepoFile {
            name: "README.md".to_string(),
            content: "Fetched from GitHub".to_string(),
        }]
    );
    assert!(is_readme_delivery(&answer(200, other)));
    assert!(!is_readme_delivery(&answer(404, other)));
    assert!(is_file_description(&Json::parse(other.as_bytes()).unwrap()));
    assert!(!is_file_description(&Json::parse(b"{}").unwrap()));
}

#[test]
fn listings_read_one_response_each() {
    assert_eq!(issues_listed(&answer(200, "[]")), Ok(vec![]));
    assert_eq!(issues_listed(&answer(404, "gone")), Ok(vec![]));
    assert_eq!(issues_listed(&answer(200, r#"[{"id": 1, "title": "t"}]"#)), Err(ApiError::Decode));
    assert_eq!(issues_listed(&answer(200, PULLS)).map(|issues| issues.len()), Ok(1));
    assert_eq!(prs_listed(&answer(200, "[]")), Ok(vec![]));
    assert_eq!(prs_listed(&answer(500, "[")), Ok(vec![]));
    assert_eq!(prs_listed(&answer(200, ISSUES)), Err(ApiError::Decode));
}

#[test]
fn details_are_written_with_their_three_members() {
    let details = RepoDetails {
        issues: vec![],
        prs: vec![],
        files: vec![RepoFile { name: "README.md".to_string(), content: "x".to_string() }],
    };
    assert_eq!(
        details.to_json(),
        Json::Object(vec![
            Member { name: "issues".to_string(), value: Json::Array(vec![]) },
            Member { name: "prs".to_string(), value: Json::Array(vec![]) },
            Member {
                name: "files".to_string(),
                value: Json::Object(vec![Member {
                    name: "README.md".to_string(),
                    value: Json::Text("x".to_string()),
                }]),
            },
        ])
    );
}
