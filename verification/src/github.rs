//! The repository host: its records, the requests that ask for them, and the
//! reading of its responses.

use crate::credentials::Service;
use crate::error::{ApiError, ApiErrorView};
use crate::http::{
    answer_document, authorization, bearer, body_document, is_success, status_is_success, Field,
    HttpRequest, HttpRequestView, HttpResponse, HttpResponseView, Method,
};
use crate::json::{
    lemma_each_round_trip, member_from, read_each, write_each, Json, JsonView, Member,
};
use crate::views::{option_view, option_views, result_view, result_views, views_of};
use vstd::prelude::*;
use vstd::string::*;

verus! {

/// One repository of a search result.
#[derive(Clone, Debug, PartialEq, Eq)]
pub struct Repo {
    pub id: u64,
    pub name: String,
    pub private: bool,
    pub description: Option<String>,
}

/// The mathematical value of a [`Repo`].
pub struct RepoView {
    pub id: u64,
    pub name: Seq<char>,
    pub private: bool,
    pub description: Option<Seq<char>>,
}

impl View for Repo {
    type V = RepoView;

    open spec fn view(&self) -> RepoView {
        RepoView {
            id: self.id,
            name: self.name@,
            private: self.private,
            description: option_view(self.description),
        }
    }
}

/// The account that opened a pull request.
#[derive(Clone, Debug, PartialEq, Eq)]
pub struct User {
    pub login: String,
}

/// The mathematical value of a [`User`].
pub struct UserView {
    pub login: Seq<char>,
}

impl View for User {
    type V = UserView;

    open spec fn view(&self) -> UserView {
        UserView { login: self.login@ }
    }
}

/// One issue of a repository.
#[derive(Clone, Debug, PartialEq, Eq)]
pub struct Issue {
    pub id: u64,
    pub title: String,
    /// The state as the host words it; the set of states is not closed.
    pub state: String,
    pub body: Option<String>,
}

/// The mathematical value of an [`Issue`].
pub struct IssueView {
    pub id: u64,
    pub title: Seq<char>,
    pub state: Seq<char>,
    pub body: Option<Seq<char>>,
}

impl View for Issue {
    type V = IssueView;

    open spec fn view(&self) -> IssueView {
        IssueView {
            id: self.id,
            title: self.title@,
            state: self.state@,
            body: option_view(self.body),
        }
    }
}

/// One pull request of a repository.
#[derive(Clone, Debug, PartialEq, Eq)]
pub struct PR {
    pub id: u64,
    pub title: String,
    pub user: User,
    pub state: String,
}

/// The mathematical value of a [`PR`].
pub struct PRView {
    pub id: u64,
    pub title: Seq<char>,
    pub user: UserView,
    pub state: Seq<char>,
}

impl View for PR {
    type V = PRView;

    open spec fn view(&self) -> PRView {
        PRView { id: self.id, title: self.title@, user: self.user@, state: self.state@ }
    }
}

/// The repository that `doc` describes: an object with an unsigned `id`, a
/// text `name`, a boolean `private` and a `description` that is a text, `null`
/// or left out. Other members are passed over.
pub open spec fn repo_of(doc: JsonView) -> Option<RepoView> {
    match (
        doc.u64_member("id"@),
        doc.text_member("name"@),
        doc.bool_member("private"@),
        doc.optional_text_member("description"@),
    ) {
        (Some(id), Some(name), Some(private), Some(description)) => Some(
            RepoView { id, name, private, description },
        ),
        _ => None,
    }
}

/// The user that `doc` describes: an object with a text `login`.
pub open spec fn user_of(doc: JsonView) -> Option<UserView> {
    match doc.text_member("login"@) {
        Some(login) => Some(UserView { login }),
        None => None,
    }
}

/// The issue that `doc` describes: an object with an unsigned `id`, texts
/// `title` and `state`, and a `body` that is a text, `null` or left out.
pub open spec fn issue_of(doc: JsonView) -> Option<IssueView> {
    match (
        doc.u64_member("id"@),
        doc.text_member("title"@),
        doc.text_member("state"@),
        doc.optional_text_member("body"@),
    ) {
        (Some(id), Some(title), Some(state), Some(body)) => Some(
            IssueView { id, title, state, body },
        ),
        _ => None,
    }
}

/// The pull request that `doc` describes: an object with an unsigned `id`,
/// texts `title` and `state`, and a `user` that describes a user.
pub open spec fn pr_of(doc: JsonView) -> Option<PRView> {
    match (
        doc.u64_member("id"@),
        doc.text_member("title"@),
        match doc.member("user"@) {
            Some(user) => user_of(user),
            None => None,
        },
        doc.text_member("state"@),
    ) {
        (Some(id), Some(title), Some(user), Some(state)) => Some(
            PRView { id, title, user, state },
        ),
        _ => None,
    }
}

impl Repo {
    /// Reads a repository from a document.
    pub fn from_json(doc: &Json) -> (r: Option<Repo>)
        ensures
            option_view(r) == repo_of(doc@),
    {
        let id = doc.u64_member("id");
        let name = doc.text_member("name");
        let private = doc.bool_member("private");
        let description = doc.optional_text_member("description");
        match (id, name, private, description) {
            (Some(id), Some(name), Some(private), Some(description)) => Some(
                Repo { id, name, private, description },
            ),
            _ => None,
        }
    }
}

impl User {
    /// Reads a user from a document.
    pub fn from_json(doc: &Json) -> (r: Option<User>)
        ensures
            option_view(r) == user_of(doc@),
    {
        match doc.text_member("login") {
            Some(login) => Some(User { login }),
            None => None,
        }
    }
}

impl Issue {
    /// Reads an issue from a document.
    pub fn from_json(doc: &Json) -> (r: Option<Issue>)
        ensures
            option_view(r) == issue_of(doc@),
    {
        let id = doc.u64_member("id");
        let title = doc.text_member("title");
        let state = doc.text_member("state");
        let body = doc.optional_text_member("body");
        match (id, title, state, body) {
            (Some(id), Some(title), Some(state), Some(body)) => Some(
                Issue { id, title, state, body },
            ),
            _ => None,
        }
    }
}

impl PR {
    /// Reads a pull request from a document.
    pub fn from_json(doc: &Json) -> (r: Option<PR>)
        ensures
            option_view(r) == pr_of(doc@),
    {
        let id = doc.u64_member("id");
        let title = doc.text_member("title");
        let user = match doc.member("user") {
            Some(user) => User::from_json(user),
            None => None,
        };
        let state = doc.text_member("state");
        match (id, title, user, state) {
            (Some(id), Some(title), Some(user), Some(state)) => Some(
                PR { id, title, user, state },
            ),
            _ => None,
        }
    }
}

/// The repositories that the items describe, where each of them describes one.
pub open spec fn repos_in(items: Seq<JsonView>) -> Option<Seq<RepoView>> {
    read_each(items, |item: JsonView| repo_of(item))
}

/// The issues that the items describe, where each of them describes one.
pub open spec fn issues_in(items: Seq<JsonView>) -> Option<Seq<IssueView>> {
    read_each(items, |item: JsonView| issue_of(item))
}

/// The pull requests that the items describe, where each of them describes one.
pub open spec fn prs_in(items: Seq<JsonView>) -> Option<Seq<PRView>> {
    read_each(items, |item: JsonView| pr_of(item))
}

/// Reads a repository from each item.
pub fn repos_from_items(items: &Vec<Json>) -> (r: Option<Vec<Repo>>)
    ensures
        option_views(r) == repos_in(views_of(items@)),
{
    let mut out: Vec<Repo> = Vec::new();
    let mut i: usize = 0;
    while i < items.len()
        invariant
            i <= items.len(),
            out.len() == i,
            forall|k: int| 0 <= k < i ==> repo_of(#[trigger] items[k]@) == Some(out[k]@),
        decreases items.len() - i,
    {
        match Repo::from_json(&items[i]) {
            Some(repo) => out.push(repo),
            None => {
                proof {
                    let read = |item: JsonView| repo_of(item);
                    assert(views_of(items@)[i as int] == items[i as int]@);
                    assert(read(views_of(items@)[i as int]) is None);
                }
                return None;
            },
        }
        i += 1;
    }
    assert forall|k: int| 0 <= k < items.len() implies repo_of(
        #[trigger] views_of(items@)[k],
    ) is Some by {
        assert(repo_of(items[k]@) == Some(out[k]@));
    }
    assert(views_of(out@) =~= repos_in(views_of(items@))->0);
    Some(out)
}

/// Reads an issue from each item.
pub fn issues_from_items(items: &Vec<Json>) -> (r: Option<Vec<Issue>>)
    ensures
        option_views(r) == issues_in(views_of(items@)),
{
    let mut out: Vec<Issue> = Vec::new();
    let mut i: usize = 0;
    while i < items.len()
        invariant
            i <= items.len(),
            out.len() == i,
            forall|k: int| 0 <= k < i ==> issue_of(#[trigger] items[k]@) == Some(out[k]@),
        decreases items.len() - i,
    {
        match Issue::from_json(&items[i]) {
            Some(issue) => out.push(issue),
            None => {
                proof {
                    let read = |item: JsonView| issue_of(item);
                    assert(views_of(items@)[i as int] == items[i as int]@);
                    assert(read(views_of(items@)[i as int]) is None);
                }
                return None;
            },
        }
        i += 1;
    }
    assert forall|k: int| 0 <= k < items.len() implies issue_of(
        #[trigger] views_of(items@)[k],
    ) is Some by {
        assert(issue_of(items[k]@) == Some(out[k]@));
    }
    assert(views_of(out@) =~= issues_in(views_of(items@))->0);
    Some(out)
}

/// Reads a pull request from each item.
pub fn prs_from_items(items: &Vec<Json>) -> (r: Option<Vec<PR>>)
    ensures
        option_views(r) == prs_in(views_of(items@)),
{
    let mut out: Vec<PR> = Vec::new();
    let mut i: usize = 0;
    while i < items.len()
        invariant
            i <= items.len(),
            out.len() == i,
            forall|k: int| 0 <= k < i ==> pr_of(#[trigger] items[k]@) == Some(out[k]@),
        decreases items.len() - i,
    {
        match PR::from_json(&items[i]) {
            Some(pr) => out.push(pr),
            None => {
                proof {
                    let read = |item: JsonView| pr_of(item);
                    assert(views_of(items@)[i as int] == items[i as int]@);
                    assert(read(views_of(items@)[i as int]) is None);
                }
                return None;
            },
        }
        i += 1;
    }
    assert forall|k: int| 0 <= k < items.len() implies pr_of(
        #[trigger] views_of(items@)[k],
    ) is Some by {
        assert(pr_of(items[k]@) == Some(out[k]@));
    }
    assert(views_of(out@) =~= prs_in(views_of(items@))->0);
    Some(out)
}

/// A file of a repository, by name, with its content.
#[derive(Clone, Debug, PartialEq, Eq)]
pub struct RepoFile {
    pub name: String,
    pub content: String,
}

impl View for RepoFile {
    type V = (Seq<char>, Seq<char>);

    open spec fn view(&self) -> (Seq<char>, Seq<char>) {
        (self.name@, self.content@)
    }
}

/// What is known of one repository.
#[derive(Clone, Debug, PartialEq, Eq)]
pub struct RepoDetails {
    pub issues: Vec<Issue>,
    pub prs: Vec<PR>,
    /// The files that were fetched, each under its name.
    pub files: Vec<RepoFile>,
}

/// The mathematical value of a [`RepoDetails`].
pub struct RepoDetailsView {
    pub issues: Seq<IssueView>,
    pub prs: Seq<PRView>,
    /// The name and the content of each file.
    pub files: Seq<(Seq<char>, Seq<char>)>,
}

impl View for RepoDetails {
    type V = RepoDetailsView;

    open spec fn view(&self) -> RepoDetailsView {
        RepoDetailsView {
            issues: views_of(self.issues@),
            prs: views_of(self.prs@),
            files: views_of(self.files@),
        }
    }
}

/// The address of the search endpoint.
pub open spec fn search_url() -> Seq<char> {
    "https://api.github.com/search/repositories"@
}

/// The address under which the endpoints of the repository `owner`/`repo` lie.
pub open spec fn repo_url(owner: Seq<char>, repo: Seq<char>) -> Seq<char> {
    "https://api.github.com/repos/"@ + owner + "/"@ + repo
}

/// The headers of every request to the repository host.
pub open spec fn github_headers(token: Seq<char>) -> Seq<(Seq<char>, Seq<char>)> {
    seq![("User-Agent"@, "focus-hub"@), ("Authorization"@, bearer(token))]
}

/// The request that searches the repositories for `query`.
pub open spec fn search_request_of(query: Seq<char>, token: Seq<char>) -> HttpRequestView {
    HttpRequestView {
        method: Method::Get,
        url: search_url(),
        query: seq![("q"@, query)],
        headers: github_headers(token),
        body: None,
    }
}

/// The request that fetches what lies under `leaf` in the repository
/// `owner`/`repo`.
pub open spec fn repo_request_of(
    owner: Seq<char>,
    repo: Seq<char>,
    leaf: Seq<char>,
    token: Seq<char>,
) -> HttpRequestView {
    HttpRequestView {
        method: Method::Get,
        url: repo_url(owner, repo) + leaf,
        query: Seq::empty(),
        headers: github_headers(token),
        body: None,
    }
}

fn headers(token: &str) -> (fields: Vec<Field>)
    ensures
        views_of(fields@) == github_headers(token@),
{
    let mut fields: Vec<Field> = Vec::new();
    fields.push(
        Field { name: String::from_str("User-Agent"), value: String::from_str("focus-hub") },
    );
    fields.push(authorization(token));
    assert(views_of(fields@) =~= github_headers(token@));
    fields
}

/// Builds the request that searches the repositories for `query`.
pub fn search_request(query: &str, token: &str) -> (request: HttpRequest)
    ensures
        request@ == search_request_of(query@, token@),
{
    let mut parameters: Vec<Field> = Vec::new();
    parameters.push(Field { name: String::from_str("q"), value: String::from_str(query) });
    assert(views_of(parameters@) =~= seq![("q"@, query@)]);
    HttpRequest {
        method: Method::Get,
        url: String::from_str("https://api.github.com/search/repositories"),
        query: parameters,
        headers: headers(token),
        body: None,
    }
}

fn repo_request(owner: &str, repo: &str, leaf: &str, token: &str) -> (request: HttpRequest)
    ensures
        request@ == repo_request_of(owner@, repo@, leaf@, token@),
{
    let url = String::from_str("https://api.github.com/repos/").concat(owner).concat("/").concat(
        repo,
    ).concat(leaf);
    let parameters: Vec<Field> = Vec::new();
    assert(views_of(parameters@) =~= Seq::empty());
    HttpRequest { method: Method::Get, url, query: parameters, headers: headers(token), body: None }
}

/// Builds the request that lists the issues of `owner`/`repo`.
pub fn issues_request(owner: &str, repo: &str, token: &str) -> (request: HttpRequest)
    ensures
        request@ == repo_request_of(owner@, repo@, "/issues"@, token@),
{
    repo_request(owner, repo, "/issues", token)
}

/// Builds the request that lists the pull requests of `owner`/`repo`.
pub fn pulls_request(owner: &str, repo: &str, token: &str) -> (request: HttpRequest)
    ensures
        request@ == repo_request_of(owner@, repo@, "/pulls"@, token@),
{
    repo_request(owner, repo, "/pulls", token)
}

/// Builds the request that fetches the README of `owner`/`repo`.
pub fn readme_request(owner: &str, repo: &str, token: &str) -> (request: HttpRequest)
    ensures
        request@ == repo_request_of(owner@, repo@, "/readme"@, token@),
{
    repo_request(owner, repo, "/readme", token)
}

/// The repositories in the answer to a search: those of the array `items`.
pub open spec fn repos_of(doc: JsonView) -> Option<Seq<RepoView>> {
    match doc.array_member("items"@) {
        Some(items) => repos_in(items),
        None => None,
    }
}

/// What a search comes to, given the response to its request.
pub open spec fn search_outcome(response: HttpResponseView) -> Result<
    Seq<RepoView>,
    ApiErrorView,
> {
    match answer_document(Service::GitHub, response) {
        Err(error) => Err(error),
        Ok(doc) => match repos_of(doc) {
            Some(repos) => Ok(repos),
            None => Err(ApiErrorView::Decode),
        },
    }
}

/// Reads the repositories from the answer to a search.
pub fn search_results(doc: &Json) -> (r: Option<Vec<Repo>>)
    ensures
        option_views(r) == repos_of(doc@),
{
    match doc.array_member("items") {
        Some(items) => repos_from_items(items),
        None => None,
    }
}

/// Reads the response to a search request.
///
/// A status outside the success class fails with that status, a body that
/// could not be read with a transport failure, and a body that does not list
/// repositories under `items` with a decoding failure.
pub fn search(response: &HttpResponse) -> (r: Result<Vec<Repo>, ApiError>)
    ensures
        result_views(r) == search_outcome(response@),
{
    match response.document(Service::GitHub) {
        Err(error) => Err(error),
        Ok(doc) => match search_results(&doc) {
            Some(repos) => Ok(repos),
            None => Err(ApiError::Decode),
        },
    }
}

/// The issues in the answer to a listing: those of the array that it is.
pub open spec fn issues_of(doc: JsonView) -> Option<Seq<IssueView>> {
    match doc {
        JsonView::Array(items) => issues_in(items),
        _ => None,
    }
}

/// The pull requests in the answer to a listing: those of the array that it is.
pub open spec fn prs_of(doc: JsonView) -> Option<Seq<PRView>> {
    match doc {
        JsonView::Array(items) => prs_in(items),
        _ => None,
    }
}

/// The issues that a response lists. A status outside the success class
/// lists none and is no failure.
pub open spec fn issues_outcome(response: HttpResponseView) -> Result<
    Seq<IssueView>,
    ApiErrorView,
> {
    if status_is_success(response.status) {
        match body_document(response.body) {
            Err(error) => Err(error),
            Ok(doc) => match issues_of(doc) {
                Some(issues) => Ok(issues),
                None => Err(ApiErrorView::Decode),
            },
        }
    } else {
        Ok(Seq::empty())
    }
}

/// The pull requests that a response lists. A status outside the success
/// class lists none and is no failure.
pub open spec fn prs_outcome(response: HttpResponseView) -> Result<Seq<PRView>, ApiErrorView> {
    if status_is_success(response.status) {
        match body_document(response.body) {
            Err(error) => Err(error),
            Ok(doc) => match prs_of(doc) {
                Some(prs) => Ok(prs),
                None => Err(ApiErrorView::Decode),
            },
        }
    } else {
        Ok(Seq::empty())
    }
}

/// Whether `doc` describes a file: an object with texts `name`, `content`
/// and `encoding`.
pub open spec fn describes_file(doc: JsonView) -> bool {
    &&& doc.text_member("name"@) is Some
    &&& doc.text_member("content"@) is Some
    &&& doc.text_member("encoding"@) is Some
}

/// Whether a response delivers a README: a status of the success class and a
/// body that describes a file.
pub open spec fn delivers_readme(response: HttpResponseView) -> bool {
    &&& status_is_success(response.status)
    &&& body_document(response.body) matches Ok(doc)
    &&& describes_file(doc)
}

/// The name under which a delivered README is recorded.
pub open spec fn readme_name() -> Seq<char> {
    "README.md"@
}

/// What is recorded in place of the content of a delivered README. The
/// content itself is not decoded.
pub open spec fn readme_placeholder() -> Seq<char> {
    "Fetched from GitHub"@
}

/// The files that the response to the README request yields: the placeholder
/// under the README's name where a README was delivered, and nothing else.
pub open spec fn files_outcome(response: HttpResponseView) -> Seq<(Seq<char>, Seq<char>)> {
    if delivers_readme(response) {
        seq![(readme_name(), readme_placeholder())]
    } else {
        Seq::empty()
    }
}

/// What fetching the details comes to, given the three responses.
pub open spec fn details_outcome(
    issues: HttpResponseView,
    pulls: HttpResponseView,
    readme: HttpResponseView,
) -> Result<RepoDetailsView, ApiErrorView> {
    match issues_outcome(issues) {
        Err(error) => Err(error),
        Ok(issues) => match prs_outcome(pulls) {
            Err(error) => Err(error),
            Ok(prs) => Ok(RepoDetailsView { issues, prs, files: files_outcome(readme) }),
        },
    }
}

/// Reads the issues that a response lists.
pub fn issues_listed(response: &HttpResponse) -> (r: Result<Vec<Issue>, ApiError>)
    ensures
        result_views(r) == issues_outcome(response@),
{
    if !is_success(response.status) {
        let none: Vec<Issue> = Vec::new();
        assert(views_of(none@) =~= Seq::empty());
        return Ok(none);
    }
    match response.body.document() {
        Err(error) => Err(error),
        Ok(doc) => {
            let listed = match doc.items() {
                Some(items) => issues_from_items(items),
                None => None,
            };
            match listed {
                Some(issues) => Ok(issues),
                None => Err(ApiError::Decode),
            }
        },
    }
}

/// Reads the pull requests that a response lists.
pub fn prs_listed(response: &HttpResponse) -> (r: Result<Vec<PR>, ApiError>)
    ensures
        result_views(r) == prs_outcome(response@),
{
    if !is_success(response.status) {
        let none: Vec<PR> = Vec::new();
        assert(views_of(none@) =~= Seq::empty());
        return Ok(none);
    }
    match response.body.document() {
        Err(error) => Err(error),
        Ok(doc) => {
            let listed = match doc.items() {
                Some(items) => prs_from_items(items),
                None => None,
            };
            match listed {
                Some(prs) => Ok(prs),
                None => Err(ApiError::Decode),
            }
        },
    }
}

/// Tells whether `doc` describes a file.
pub fn is_file_description(doc: &Json) -> (b: bool)
    ensures
        b == describes_file(doc@),
{
    doc.text_member("name").is_some() && doc.text_member("content").is_some() && doc.text_member(
        "encoding",
    ).is_some()
}

/// Tells whether a response delivers a README.
pub fn is_readme_delivery(response: &HttpResponse) -> (b: bool)
    ensures
        b == delivers_readme(response@),
{
    if !is_success(response.status) {
        return false;
    }
    match response.body.document() {
        Ok(doc) => is_file_description(&doc),
        Err(_) => false,
    }
}

/// Records what the response to the README request yields.
pub fn readme_files(response: &HttpResponse) -> (files: Vec<RepoFile>)
    ensures
        views_of(files@) == files_outcome(response@),
{
    let mut files: Vec<RepoFile> = Vec::new();
    assert(views_of(files@) =~= Seq::empty());
    if is_readme_delivery(response) {
        files.push(
            RepoFile {
                name: String::from_str("README.md"),
                content: String::from_str("Fetched from GitHub"),
            },
        );
        assert(views_of(files@) =~= seq![(readme_name(), readme_placeholder())]);
    }
    files
}

/// Reads the responses to the three requests for the details of a repository.
///
/// A listing that was answered with a status outside the success class
/// counts as empty. A listing of the success class must be readable, else the
/// whole fails: the issues are read before the pull requests. The README
/// never fails the whole.
pub fn get_details(issues: &HttpResponse, pulls: &HttpResponse, readme: &HttpResponse) -> (r:
    Result<RepoDetails, ApiError>)
    ensures
        result_view(r) == details_outcome(issues@, pulls@, readme@),
{
    let listed_issues = match issues_listed(issues) {
        Ok(listed) => listed,
        Err(error) => {
            return Err(error);
        },
    };
    let listed_prs = match prs_listed(pulls) {
        Ok(listed) => listed,
        Err(error) => {
            return Err(error);
        },
    };
    let files = readme_files(readme);
    Ok(RepoDetails { issues: listed_issues, prs: listed_prs, files })
}

/// A listing of issues that failed with a status outside the success class
/// costs nothing else: the details are delivered with no issues and with the
/// pull requests that their own response lists.
pub proof fn lemma_failed_issues_keep_pulls(
    issues: HttpResponseView,
    pulls: HttpResponseView,
    readme: HttpResponseView,
)
    requires
        !status_is_success(issues.status),
        prs_outcome(pulls) is Ok,
    ensures
        details_outcome(issues, pulls, readme) matches Ok(details) && details.issues
            == Seq::<IssueView>::empty() && details.prs == prs_outcome(pulls)->Ok_0,
{
}

/// The document that is written for a text that may be missing.
pub open spec fn optional_text_json(text: Option<Seq<char>>) -> JsonView {
    match text {
        Some(text) => JsonView::Text(text),
        None => JsonView::Null,
    }
}

/// The document that is written for a repository.
pub open spec fn repo_json(repo: RepoView) -> JsonView {
    JsonView::Object(
        seq![
            ("id"@, JsonView::Number(Some(repo.id))),
            ("name"@, JsonView::Text(repo.name)),
            ("private"@, JsonView::Bool(repo.private)),
            ("description"@, optional_text_json(repo.description)),
        ],
    )
}

fn optional_text(text: &Option<String>) -> (doc: Json)
    ensures
        doc@ == optional_text_json(option_view(*text)),
{
    match text {
        Some(text) => Json::Text(text.clone()),
        None => Json::Null,
    }
}

fn member(name: &str, value: Json) -> (member: Member)
    ensures
        member@ == (name@, value@),
{
    Member { name: String::from_str(name), value }
}

impl Repo {
    /// Writes the repository as a document.
    pub fn to_json(&self) -> (doc: Json)
        ensures
            doc@ == repo_json(self@),
    {
        let mut members: Vec<Member> = Vec::new();
        members.push(member("id", Json::Number(Some(self.id))));
        members.push(member("name", Json::Text(self.name.clone())));
        members.push(member("private", Json::Bool(self.private)));
        members.push(member("description", optional_text(&self.description)));
        let doc = Json::Object(members);
        proof {
            doc.lemma_object_view();
            assert(views_of(members@) =~= repo_json(self@)->Object_0);
        }
        doc
    }
}

/// A repository that is written as a document and read again is the same
/// repository.
pub proof fn lemma_repo_round_trip(repo: RepoView)
    ensures
        repo_of(repo_json(repo)) == Some(repo),
{
    reveal_strlit("id");
    reveal_strlit("name");
    reveal_strlit("private");
    reveal_strlit("description");
    reveal_with_fuel(member_from, 5);
    let members = repo_json(repo)->Object_0;
    assert(members[0].0.len() == 2);
    assert(members[1].0.len() == 4);
    assert(members[2].0.len() == 7);
    assert(members[3].0.len() == 11);
}

/// The document that is written for a user.
pub open spec fn user_json(user: UserView) -> JsonView {
    JsonView::Object(seq![("login"@, JsonView::Text(user.login))])
}

/// The document that is written for an issue.
pub open spec fn issue_json(issue: IssueView) -> JsonView {
    JsonView::Object(
        seq![
            ("id"@, JsonView::Number(Some(issue.id))),
            ("title"@, JsonView::Text(issue.title)),
            ("state"@, JsonView::Text(issue.state)),
            ("body"@, optional_text_json(issue.body)),
        ],
    )
}

/// The document that is written for a pull request.
pub open spec fn pr_json(pr: PRView) -> JsonView {
    JsonView::Object(
        seq![
            ("id"@, JsonView::Number(Some(pr.id))),
            ("title"@, JsonView::Text(pr.title)),
            ("user"@, user_json(pr.user)),
            ("state"@, JsonView::Text(pr.state)),
        ],
    )
}

/// The document that is written for a list of repositories: the array of
/// their documents.
pub open spec fn repos_json(repos: Seq<RepoView>) -> JsonView {
    JsonView::Array(write_each(repos, |repo: RepoView| repo_json(repo)))
}

/// The document that is written for a list of issues.
pub open spec fn issues_json(issues: Seq<IssueView>) -> JsonView {
    JsonView::Array(write_each(issues, |issue: IssueView| issue_json(issue)))
}

/// The document that is written for a list of pull requests.
pub open spec fn prs_json(prs: Seq<PRView>) -> JsonView {
    JsonView::Array(write_each(prs, |pr: PRView| pr_json(pr)))
}

/// The document that is written for the files: an object with one member for
/// each file, the content under the name.
pub open spec fn files_json(files: Seq<(Seq<char>, Seq<char>)>) -> JsonView {
    JsonView::Object(
        Seq::new(files.len(), |i: int| (files[i].0, JsonView::Text(files[i].1))),
    )
}

/// The document that is written for the details of a repository.
pub open spec fn details_json(details: RepoDetailsView) -> JsonView {
    JsonView::Object(
        seq![
            ("issues"@, issues_json(details.issues)),
            ("prs"@, prs_json(details.prs)),
            ("files"@, files_json(details.files)),
        ],
    )
}

impl User {
    /// Writes the user as a document.
    pub fn to_json(&self) -> (doc: Json)
        ensures
            doc@ == user_json(self@),
    {
        let mut members: Vec<Member> = Vec::new();
        members.push(member("login", Json::Text(self.login.clone())));
        let doc = Json::Object(members);
        proof {
            doc.lemma_object_view();
            assert(views_of(members@) =~= user_json(self@)->Object_0);
        }
        doc
    }
}

impl Issue {
    /// Writes the issue as a document.
    pub fn to_json(&self) -> (doc: Json)
        ensures
            doc@ == issue_json(self@),
    {
        let mut members: Vec<Member> = Vec::new();
        members.push(member("id", Json::Number(Some(self.id))));
        members.push(member("title", Json::Text(self.title.clone())));
        members.push(member("state", Json::Text(self.state.clone())));
        members.push(member("body", optional_text(&self.body)));
        let doc = Json::Object(members);
        proof {
            doc.lemma_object_view();
            assert(views_of(members@) =~= issue_json(self@)->Object_0);
        }
        doc
    }
}

impl PR {
    /// Writes the pull request as a document.
    pub fn to_json(&self) -> (doc: Json)
        ensures
            doc@ == pr_json(self@),
    {
        let mut members: Vec<Member> = Vec::new();
        members.push(member("id", Json::Number(Some(self.id))));
        members.push(member("title", Json::Text(self.title.clone())));
        members.push(member("user", self.user.to_json()));
        members.push(member("state", Json::Text(self.state.clone())));
        let doc = Json::Object(members);
        proof {
            doc.lemma_object_view();
            assert(views_of(members@) =~= pr_json(self@)->Object_0);
        }
        doc
    }
}

/// Writes a list of repositories as a document.
pub fn repos_to_json(repos: &Vec<Repo>) -> (doc: Json)
    ensures
        doc@ == repos_json(views_of(repos@)),
{
    let mut items: Vec<Json> = Vec::new();
    let mut i: usize = 0;
    while i < repos.len()
        invariant
            i <= repos.len(),
            items.len() == i,
            forall|k: int| 0 <= k < i ==> (#[trigger] items[k])@ == repo_json(repos[k]@),
        decreases repos.len() - i,
    {
        items.push(repos[i].to_json());
        i += 1;
    }
    let doc = Json::Array(items);
    proof {
        doc.lemma_array_view();
        assert(views_of(items@) =~= repos_json(views_of(repos@))->Array_0);
    }
    doc
}

/// Writes a list of issues as a document.
pub fn issues_to_json(issues: &Vec<Issue>) -> (doc: Json)
    ensures
        doc@ == issues_json(views_of(issues@)),
{
    let mut items: Vec<Json> = Vec::new();
    let mut i: usize = 0;
    while i < issues.len()
        invariant
            i <= issues.len(),
            items.len() == i,
            forall|k: int| 0 <= k < i ==> (#[trigger] items[k])@ == issue_json(issues[k]@),
        decreases issues.len() - i,
    {
        items.push(issues[i].to_json());
        i += 1;
    }
    let doc = Json::Array(items);
    proof {
        doc.lemma_array_view();
        assert(views_of(items@) =~= issues_json(views_of(issues@))->Array_0);
    }
    doc
}

/// Writes a list of pull requests as a document.
pub fn prs_to_json(prs: &Vec<PR>) -> (doc: Json)
    ensures
        doc@ == prs_json(views_of(prs@)),
{
    let mut items: Vec<Json> = Vec::new();
    let mut i: usize = 0;
    while i < prs.len()
        invariant
            i <= prs.len(),
            items.len() == i,
            forall|k: int| 0 <= k < i ==> (#[trigger] items[k])@ == pr_json(prs[k]@),
        decreases prs.len() - i,
    {
        items.push(prs[i].to_json());
        i += 1;
    }
    let doc = Json::Array(items);
    proof {
        doc.lemma_array_view();
        assert(views_of(items@) =~= prs_json(views_of(prs@))->Array_0);
    }
    doc
}

fn files_to_json(files: &Vec<RepoFile>) -> (doc: Json)
    ensures
        doc@ == files_json(views_of(files@)),
{
    let mut members: Vec<Member> = Vec::new();
    let mut i: usize = 0;
    while i < files.len()
        invariant
            i <= files.len(),
            members.len() == i,
            forall|k: int|
                0 <= k < i ==> (#[trigger] members[k])@ == (
                    files[k].name@,
                    JsonView::Text(files[k].content@),
                ),
        decreases files.len() - i,
    {
        members.push(
            Member { name: files[i].name.clone(), value: Json::Text(files[i].content.clone()) },
        );
        i += 1;
    }
    let doc = Json::Object(members);
    proof {
        doc.lemma_object_view();
        assert(views_of(members@) =~= files_json(views_of(files@))->Object_0);
    }
    doc
}

impl RepoDetails {
    /// Writes the details as a document.
    pub fn to_json(&self) -> (doc: Json)
        ensures
            doc@ == details_json(self@),
    {
        let mut members: Vec<Member> = Vec::new();
        members.push(member("issues", issues_to_json(&self.issues)));
        members.push(member("prs", prs_to_json(&self.prs)));
        members.push(member("files", files_to_json(&self.files)));
        let doc = Json::Object(members);
        proof {
            doc.lemma_object_view();
            assert(views_of(members@) =~= details_json(self@)->Object_0);
        }
        doc
    }
}

/// A user that is written as a document and read again is the same user.
pub proof fn lemma_user_round_trip(user: UserView)
    ensures
        user_of(user_json(user)) == Some(user),
{
    reveal_with_fuel(member_from, 2);
}

/// An issue that is written as a document and read again is the same issue.
pub proof fn lemma_issue_round_trip(issue: IssueView)
    ensures
        issue_of(issue_json(issue)) == Some(issue),
{
    reveal_strlit("id");
    reveal_strlit("title");
    reveal_strlit("state");
    reveal_strlit("body");
    reveal_with_fuel(member_from, 5);
    let members = issue_json(issue)->Object_0;
    assert(members[0].0.len() == 2);
    assert(members[1].0[0] == 't');
    assert(members[2].0[0] == 's');
    assert(members[3].0.len() == 4);
    assert(members[1].0.len() == 5);
    assert(members[2].0.len() == 5);
}

/// A pull request that is written as a document and read again is the same
/// pull request.
pub proof fn lemma_pr_round_trip(pr: PRView)
    ensures
        pr_of(pr_json(pr)) == Some(pr),
{
    reveal_strlit("id");
    reveal_strlit("title");
    reveal_strlit("user");
    reveal_strlit("state");
    reveal_with_fuel(member_from, 5);
    lemma_user_round_trip(pr.user);
    let members = pr_json(pr)->Object_0;
    assert(members[0].0.len() == 2);
    assert(members[1].0[0] == 't');
    assert(members[2].0.len() == 4);
    assert(members[3].0[0] == 's');
    assert(members[1].0.len() == 5);
    assert(members[3].0.len() == 5);
}

/// A list of repositories that is written as a document and read again is
/// the same list.
pub proof fn lemma_repos_round_trip(repos: Seq<RepoView>)
    ensures
        repos_json(repos) matches JsonView::Array(items) && repos_in(items) == Some(repos),
{
    assert forall|i: int| 0 <= i < repos.len() implies repo_of(repo_json(#[trigger] repos[i]))
        == Some(repos[i]) by {
        lemma_repo_round_trip(repos[i]);
    }
    lemma_each_round_trip(
        repos,
        |repo: RepoView| repo_json(repo),
        |item: JsonView| repo_of(item),
    );
}

} // verus!
