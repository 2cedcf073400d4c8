//! The five commands, one step at a time.
//!
//! A command never acts. It is a [`Session`] that names the one thing the
//! host is to do next ([`Session::pending`]): look a secret up, write one,
//! or send a request. The host does it and hands back what happened
//! ([`Session::advance`]); this goes on until the session is finished and
//! gives its [`Outcome`]. What a session does with every event is the
//! function [`advance_of`]; the executable code is proved to compute it.

use crate::credentials::{Lookup, LookupView, Service, Written, WrittenView};
use crate::error::{message_of, ApiError, ApiErrorView};
use crate::github::{
    details_json, details_outcome, get_details, issues_request, pulls_request, readme_request,
    repo_request_of, repos_json, repos_to_json, search, search_outcome, search_request,
    search_request_of, Repo, RepoDetails, RepoDetailsView, RepoView,
};
use crate::json::{Json, JsonView};
use crate::http::{HttpRequest, HttpRequestView, HttpResponse, HttpResponseView};
use crate::jules::{
    session_json, session_outcome, session_request, session_request_of, start_session,
    AgentResponse, AgentResponseView,
};
use crate::views::{option_view, result_view, views_of};
use vstd::prelude::*;

verus! {

/// What the host reports of sending a request.
#[derive(Clone, Debug, PartialEq, Eq)]
pub enum Reply {
    /// The response that came back.
    Response(HttpResponse),
    /// The request could not be sent; the text says why.
    Unsent(String),
}

/// The mathematical value of a [`Reply`].
pub enum ReplyView {
    Response(HttpResponseView),
    Unsent(Seq<char>),
}

impl View for Reply {
    type V = ReplyView;

    open spec fn view(&self) -> ReplyView {
        match self {
            Reply::Response(response) => ReplyView::Response(response@),
            Reply::Unsent(reason) => ReplyView::Unsent(reason@),
        }
    }
}

/// What the host is to do next.
#[derive(Debug, PartialEq, Eq)]
pub enum Action {
    /// Look up the token of `service` in the secret store.
    Lookup { service: Service },
    /// Write `secret` as the token of `service` to the secret store.
    Write { service: Service, secret: String },
    /// Send `request`.
    Send { request: HttpRequest },
    /// Nothing: the session is finished.
    Finish,
}

/// The mathematical value of an [`Action`].
pub enum ActionView {
    Lookup { service: Service },
    Write { service: Service, secret: Seq<char> },
    Send { request: HttpRequestView },
    Finish,
}

impl View for Action {
    type V = ActionView;

    open spec fn view(&self) -> ActionView {
        match self {
            Action::Lookup { service } => ActionView::Lookup { service: *service },
            Action::Write { service, secret } => ActionView::Write {
                service: *service,
                secret: secret@,
            },
            Action::Send { request } => ActionView::Send { request: request@ },
            Action::Finish => ActionView::Finish,
        }
    }
}

/// What happened when the host did what was pending.
#[derive(Clone, Debug, PartialEq, Eq)]
pub enum Event {
    /// The answer to [`Action::Lookup`].
    Looked(Lookup),
    /// The answer to [`Action::Write`].
    Wrote(Written),
    /// The answer to [`Action::Send`].
    Replied(Reply),
}

/// The mathematical value of an [`Event`].
pub enum EventView {
    Looked(LookupView),
    Wrote(WrittenView),
    Replied(ReplyView),
}

impl View for Event {
    type V = EventView;

    open spec fn view(&self) -> EventView {
        match self {
            Event::Looked(lookup) => EventView::Looked(lookup@),
            Event::Wrote(written) => EventView::Wrote(written@),
            Event::Replied(reply) => EventView::Replied(reply@),
        }
    }
}

/// What a command came to.
#[derive(Clone, Debug, PartialEq, Eq)]
pub enum Outcome {
    /// The repositories that a search found.
    Repos(Vec<Repo>),
    /// The details of a repository.
    Details(RepoDetails),
    /// The session that the agent service started.
    Session(AgentResponse),
    /// Both keys were written.
    KeysSaved,
    /// Whether both keys are kept and can be fetched.
    KeysStatus(bool),
    /// The command failed.
    Failed(ApiError),
}

/// The mathematical value of an [`Outcome`].
pub enum OutcomeView {
    Repos(Seq<RepoView>),
    Details(RepoDetailsView),
    Session(AgentResponseView),
    KeysSaved,
    KeysStatus(bool),
    Failed(ApiErrorView),
}

impl View for Outcome {
    type V = OutcomeView;

    open spec fn view(&self) -> OutcomeView {
        match self {
            Outcome::Repos(repos) => OutcomeView::Repos(views_of(repos@)),
            Outcome::Details(details) => OutcomeView::Details(details@),
            Outcome::Session(session) => OutcomeView::Session(session@),
            Outcome::KeysSaved => OutcomeView::KeysSaved,
            Outcome::KeysStatus(both) => OutcomeView::KeysStatus(*both),
            Outcome::Failed(error) => OutcomeView::Failed(error@),
        }
    }
}

/// A command in progress: what it was asked, and how far it has come.
#[derive(Debug, PartialEq, Eq)]
pub enum Session {
    /// A search that waits for the token.
    SearchToken { query: String },
    /// A search that waits for the response.
    SearchReply { query: String, token: String },
    /// A fetch of details that waits for the token.
    DetailsToken { owner: String, repo: String },
    /// A fetch of details that waits for the issues.
    DetailsIssues { owner: String, repo: String, token: String },
    /// A fetch of details that waits for the pull requests.
    DetailsPulls { owner: String, repo: String, token: String, issues: HttpResponse },
    /// A fetch of details that waits for the README.
    DetailsReadme {
        owner: String,
        repo: String,
        token: String,
        issues: HttpResponse,
        pulls: HttpResponse,
    },
    /// A dispatch that waits for the token.
    DispatchToken { task_id: String, prompt: String },
    /// A dispatch that waits for the response.
    DispatchReply { task_id: String, prompt: String, token: String },
    /// A saving of keys that waits for the first write.
    SaveGithub { github: String, jules: String },
    /// A saving of keys that waits for the second write.
    SaveJules { jules: String },
    /// A status query that waits for the first lookup.
    StatusGithub,
    /// A status query that waits for the second lookup.
    StatusJules,
    /// A command that has come to its end.
    Finished { outcome: Outcome },
}

/// The mathematical value of a [`Session`].
pub enum SessionView {
    SearchToken { query: Seq<char> },
    SearchReply { query: Seq<char>, token: Seq<char> },
    DetailsToken { owner: Seq<char>, repo: Seq<char> },
    DetailsIssues { owner: Seq<char>, repo: Seq<char>, token: Seq<char> },
    DetailsPulls { owner: Seq<char>, repo: Seq<char>, token: Seq<char>, issues: HttpResponseView },
    DetailsReadme {
        owner: Seq<char>,
        repo: Seq<char>,
        token: Seq<char>,
        issues: HttpResponseView,
        pulls: HttpResponseView,
    },
    DispatchToken { task_id: Seq<char>, prompt: Seq<char> },
    DispatchReply { task_id: Seq<char>, prompt: Seq<char>, token: Seq<char> },
    SaveGithub { github: Seq<char>, jules: Seq<char> },
    SaveJules { jules: Seq<char> },
    StatusGithub,
    StatusJules,
    Finished { outcome: OutcomeView },
}

impl View for Session {
    type V = SessionView;

    open spec fn view(&self) -> SessionView {
        match self {
            Session::SearchToken { query } => SessionView::SearchToken { query: query@ },
            Session::SearchReply { query, token } => SessionView::SearchReply {
                query: query@,
                token: token@,
            },
            Session::DetailsToken { owner, repo } => SessionView::DetailsToken {
                owner: owner@,
                repo: repo@,
            },
            Session::DetailsIssues { owner, repo, token } => SessionView::DetailsIssues {
                owner: owner@,
                repo: repo@,
                token: token@,
            },
            Session::DetailsPulls { owner, repo, token, issues } => SessionView::DetailsPulls {
                owner: owner@,
                repo: repo@,
                token: token@,
                issues: issues@,
            },
            Session::DetailsReadme { owner, repo, token, issues, pulls } => {
                SessionView::DetailsReadme {
                    owner: owner@,
                    repo: repo@,
                    token: token@,
                    issues: issues@,
                    pulls: pulls@,
                }
            },
            Session::DispatchToken { task_id, prompt } => SessionView::DispatchToken {
                task_id: task_id@,
                prompt: prompt@,
            },
            Session::DispatchReply { task_id, prompt, token } => SessionView::DispatchReply {
                task_id: task_id@,
                prompt: prompt@,
                token: token@,
            },
            Session::SaveGithub { github, jules } => SessionView::SaveGithub {
                github: github@,
                jules: jules@,
            },
            Session::SaveJules { jules } => SessionView::SaveJules { jules: jules@ },
            Session::StatusGithub => SessionView::StatusGithub,
            Session::StatusJules => SessionView::StatusJules,
            Session::Finished { outcome } => SessionView::Finished { outcome: outcome@ },
        }
    }
}

/// The failure that a lookup which found nothing for `service` comes to: a
/// store that keeps no token is a missing credential, a store that could not
/// be reached is reported as such.
pub open spec fn lookup_failure(service: Service, lookup: LookupView) -> ApiErrorView {
    match lookup {
        LookupView::Unavailable(reason) => ApiErrorView::StoreUnavailable { reason },
        _ => ApiErrorView::CredentialMissing { service },
    }
}

/// The session that has failed with `error`.
pub open spec fn failed(error: ApiErrorView) -> SessionView {
    SessionView::Finished { outcome: OutcomeView::Failed(error) }
}

/// The outcome of a search, given the response to its request.
pub open spec fn search_finish(response: HttpResponseView) -> OutcomeView {
    match search_outcome(response) {
        Ok(repos) => OutcomeView::Repos(repos),
        Err(error) => OutcomeView::Failed(error),
    }
}

/// The outcome of a fetch of details, given the three responses.
pub open spec fn details_finish(
    issues: HttpResponseView,
    pulls: HttpResponseView,
    readme: HttpResponseView,
) -> OutcomeView {
    match details_outcome(issues, pulls, readme) {
        Ok(details) => OutcomeView::Details(details),
        Err(error) => OutcomeView::Failed(error),
    }
}

/// The outcome of a dispatch, given the response to its request.
pub open spec fn dispatch_finish(response: HttpResponseView) -> OutcomeView {
    match session_outcome(response) {
        Ok(session) => OutcomeView::Session(session),
        Err(error) => OutcomeView::Failed(error),
    }
}

/// What the host is to do next for `session`.
pub open spec fn pending_of(session: SessionView) -> ActionView {
    match session {
        SessionView::SearchToken { .. } => ActionView::Lookup { service: Service::GitHub },
        SessionView::SearchReply { query, token } => ActionView::Send {
            request: search_request_of(query, token),
        },
        SessionView::DetailsToken { .. } => ActionView::Lookup { service: Service::GitHub },
        SessionView::DetailsIssues { owner, repo, token } => ActionView::Send {
            request: repo_request_of(owner, repo, "/issues"@, token),
        },
        SessionView::DetailsPulls { owner, repo, token, .. } => ActionView::Send {
            request: repo_request_of(owner, repo, "/pulls"@, token),
        },
        SessionView::DetailsReadme { owner, repo, token, .. } => ActionView::Send {
            request: repo_request_of(owner, repo, "/readme"@, token),
        },
        SessionView::DispatchToken { .. } => ActionView::Lookup { service: Service::Jules },
        SessionView::DispatchReply { task_id, prompt, token } => ActionView::Send {
            request: session_request_of(task_id, prompt, token),
        },
        SessionView::SaveGithub { github, .. } => ActionView::Write {
            service: Service::GitHub,
            secret: github,
        },
        SessionView::SaveJules { jules } => ActionView::Write {
            service: Service::Jules,
            secret: jules,
        },
        SessionView::StatusGithub => ActionView::Lookup { service: Service::GitHub },
        SessionView::StatusJules => ActionView::Lookup { service: Service::Jules },
        SessionView::Finished { .. } => ActionView::Finish,
    }
}

/// Whether `event` is an answer to `action`.
pub open spec fn answers(event: EventView, action: ActionView) -> bool {
    match (action, event) {
        (ActionView::Lookup { .. }, EventView::Looked(_)) => true,
        (ActionView::Write { .. }, EventView::Wrote(_)) => true,
        (ActionView::Send { .. }, EventView::Replied(_)) => true,
        _ => false,
    }
}

/// The session that `session` becomes when the host hands back `event`.
///
/// An event that is no answer to what was pending changes nothing. A missing
/// token, an unreachable store, a request that could not be sent and a write
/// that failed each end the session at once, so that nothing is asked of the
/// host after them.
pub open spec fn advance_of(session: SessionView, event: EventView) -> SessionView {
    match (session, event) {
        (SessionView::SearchToken { query }, EventView::Looked(lookup)) => match lookup {
            LookupView::Found(token) => SessionView::SearchReply { query, token },
            _ => failed(lookup_failure(Service::GitHub, lookup)),
        },
        (SessionView::SearchReply { .. }, EventView::Replied(reply)) => match reply {
            ReplyView::Response(response) => SessionView::Finished {
                outcome: search_finish(response),
            },
            ReplyView::Unsent(reason) => failed(ApiErrorView::Transport { reason }),
        },
        (SessionView::DetailsToken { owner, repo }, EventView::Looked(lookup)) => match lookup {
            LookupView::Found(token) => SessionView::DetailsIssues { owner, repo, token },
            _ => failed(lookup_failure(Service::GitHub, lookup)),
        },
        (SessionView::DetailsIssues { owner, repo, token }, EventView::Replied(reply)) => {
            match reply {
                ReplyView::Response(issues) => SessionView::DetailsPulls {
                    owner,
                    repo,
                    token,
                    issues,
                },
                ReplyView::Unsent(reason) => failed(ApiErrorView::Transport { reason }),
            }
        },
        (
            SessionView::DetailsPulls { owner, repo, token, issues },
            EventView::Replied(reply),
        ) => match reply {
            ReplyView::Response(pulls) => SessionView::DetailsReadme {
                owner,
                repo,
                token,
                issues,
                pulls,
            },
            ReplyView::Unsent(reason) => failed(ApiErrorView::Transport { reason }),
        },
        (SessionView::DetailsReadme { issues, pulls, .. }, EventView::Replied(reply)) => {
            match reply {
                ReplyView::Response(readme) => SessionView::Finished {
                    outcome: details_finish(issues, pulls, readme),
                },
                ReplyView::Unsent(reason) => failed(ApiErrorView::Transport { reason }),
            }
        },
        (SessionView::DispatchToken { task_id, prompt }, EventView::Looked(lookup)) => {
            match lookup {
                LookupView::Found(token) => SessionView::DispatchReply { task_id, prompt, token },
                _ => failed(lookup_failure(Service::Jules, lookup)),
            }
        },
        (SessionView::DispatchReply { .. }, EventView::Replied(reply)) => match reply {
            ReplyView::Response(response) => SessionView::Finished {
                outcome: dispatch_finish(response),
            },
            ReplyView::Unsent(reason) => failed(ApiErrorView::Transport { reason }),
        },
        (SessionView::SaveGithub { jules, .. }, EventView::Wrote(written)) => match written {
            WrittenView::Stored => SessionView::SaveJules { jules },
            WrittenView::Unavailable(reason) => failed(ApiErrorView::StoreUnavailable { reason }),
        },
        (SessionView::SaveJules { .. }, EventView::Wrote(written)) => match written {
            WrittenView::Stored => SessionView::Finished { outcome: OutcomeView::KeysSaved },
            WrittenView::Unavailable(reason) => failed(ApiErrorView::StoreUnavailable { reason }),
        },
        (SessionView::StatusGithub, EventView::Looked(lookup)) => match lookup {
            LookupView::Found(_) => SessionView::StatusJules,
            _ => SessionView::Finished { outcome: OutcomeView::KeysStatus(false) },
        },
        (SessionView::StatusJules, EventView::Looked(lookup)) => SessionView::Finished {
            outcome: OutcomeView::KeysStatus(lookup is Found),
        },
        _ => session,
    }
}

/// What `session` came to, once it is finished.
pub open spec fn outcome_of(session: SessionView) -> Option<OutcomeView> {
    match session {
        SessionView::Finished { outcome } => Some(outcome),
        _ => None,
    }
}

/// Starts a search of the repositories for `query`.
pub fn search_repos(query: String) -> (session: Session)
    ensures
        session@ == (SessionView::SearchToken { query: query@ }),
{
    Session::SearchToken { query }
}

/// Starts a fetch of the details of the repository `owner`/`repo`.
pub fn get_repo_details(owner: String, repo: String) -> (session: Session)
    ensures
        session@ == (SessionView::DetailsToken { owner: owner@, repo: repo@ }),
{
    Session::DetailsToken { owner, repo }
}

/// Starts the dispatch of the task `task_id` with `prompt` to the agent.
pub fn dispatch_agent(task_id: String, prompt: String) -> (session: Session)
    ensures
        session@ == (SessionView::DispatchToken { task_id: task_id@, prompt: prompt@ }),
{
    Session::DispatchToken { task_id, prompt }
}

/// Starts the saving of both keys, the repository host's first.
pub fn save_api_keys(github: String, jules: String) -> (session: Session)
    ensures
        session@ == (SessionView::SaveGithub { github: github@, jules: jules@ }),
{
    Session::SaveGithub { github, jules }
}

/// Starts the query whether both keys are kept.
pub fn get_api_keys_status() -> (session: Session)
    ensures
        session@ == SessionView::StatusGithub,
{
    Session::StatusGithub
}

fn lookup_error(service: Service, lookup: Lookup) -> (error: ApiError)
    ensures
        error@ == lookup_failure(service, lookup@),
{
    match lookup {
        Lookup::Unavailable(reason) => ApiError::StoreUnavailable { reason },
        _ => ApiError::CredentialMissing { service },
    }
}

fn fail(error: ApiError) -> (session: Session)
    ensures
        session@ == failed(error@),
{
    Session::Finished { outcome: Outcome::Failed(error) }
}

impl Session {
    /// What the host is to do next.
    pub fn pending(&self) -> (action: Action)
        ensures
            action@ == pending_of(self@),
    {
        match self {
            Session::SearchToken { .. } => Action::Lookup { service: Service::GitHub },
            Session::SearchReply { query, token } => Action::Send {
                request: search_request(query.as_str(), token.as_str()),
            },
            Session::DetailsToken { .. } => Action::Lookup { service: Service::GitHub },
            Session::DetailsIssues { owner, repo, token } => Action::Send {
                request: issues_request(owner.as_str(), repo.as_str(), token.as_str()),
            },
            Session::DetailsPulls { owner, repo, token, .. } => Action::Send {
                request: pulls_request(owner.as_str(), repo.as_str(), token.as_str()),
            },
            Session::DetailsReadme { owner, repo, token, .. } => Action::Send {
                request: readme_request(owner.as_str(), repo.as_str(), token.as_str()),
            },
            Session::DispatchToken { .. } => Action::Lookup { service: Service::Jules },
            Session::DispatchReply { task_id, prompt, token } => Action::Send {
                request: session_request(task_id.as_str(), prompt.as_str(), token.as_str()),
            },
            Session::SaveGithub { github, .. } => Action::Write {
                service: Service::GitHub,
                secret: github.clone(),
            },
            Session::SaveJules { jules } => Action::Write {
                service: Service::Jules,
                secret: jules.clone(),
            },
            Session::StatusGithub => Action::Lookup { service: Service::GitHub },
            Session::StatusJules => Action::Lookup { service: Service::Jules },
            Session::Finished { .. } => Action::Finish,
        }
    }

    /// Takes in what happened when the host did what was pending.
    pub fn advance(self, event: Event) -> (next: Session)
        ensures
            next@ == advance_of(self@, event@),
    {
        match (self, event) {
            (Session::SearchToken { query }, Event::Looked(lookup)) => match lookup {
                Lookup::Found(token) => Session::SearchReply { query, token },
                other => fail(lookup_error(Service::GitHub, other)),
            },
            (Session::SearchReply { .. }, Event::Replied(reply)) => match reply {
                Reply::Response(response) => {
                    let outcome = match search(&response) {
                        Ok(repos) => Outcome::Repos(repos),
                        Err(error) => Outcome::Failed(error),
                    };
                    Session::Finished { outcome }
                },
                Reply::Unsent(reason) => fail(ApiError::Transport { reason }),
            },
            (Session::DetailsToken { owner, repo }, Event::Looked(lookup)) => match lookup {
                Lookup::Found(token) => Session::DetailsIssues { owner, repo, token },
                other => fail(lookup_error(Service::GitHub, other)),
            },
            (Session::DetailsIssues { owner, repo, token }, Event::Replied(reply)) => {
                match reply {
                    Reply::Response(issues) => Session::DetailsPulls { owner, repo, token, issues },
                    Reply::Unsent(reason) => fail(ApiError::Transport { reason }),
                }
            },
            (Session::DetailsPulls { owner, repo, token, issues }, Event::Replied(reply)) => {
                match reply {
                    Reply::Response(pulls) => Session::DetailsReadme {
                        owner,
                        repo,
                        token,
                        issues,
                        pulls,
                    },
                    Reply::Unsent(reason) => fail(ApiError::Transport { reason }),
                }
            },
            (Session::DetailsReadme { issues, pulls, .. }, Event::Replied(reply)) => {
                match reply {
                    Reply::Response(readme) => {
                        let outcome = match get_details(&issues, &pulls, &readme) {
                            Ok(details) => Outcome::Details(details),
                            Err(error) => Outcome::Failed(error),
                        };
                        Session::Finished { outcome }
                    },
                    Reply::Unsent(reason) => fail(ApiError::Transport { reason }),
                }
            },
            (Session::DispatchToken { task_id, prompt }, Event::Looked(lookup)) => {
                match lookup {
                    Lookup::Found(token) => Session::DispatchReply { task_id, prompt, token },
                    other => fail(lookup_error(Service::Jules, other)),
                }
            },
            (Session::DispatchReply { .. }, Event::Replied(reply)) => match reply {
                Reply::Response(response) => {
                    let outcome = match start_session(&response) {
                        Ok(session) => Outcome::Session(session),
                        Err(error) => Outcome::Failed(error),
                    };
                    Session::Finished { outcome }
                },
                Reply::Unsent(reason) => fail(ApiError::Transport { reason }),
            },
            (Session::SaveGithub { jules, .. }, Event::Wrote(written)) => match written {
                Written::Stored => Session::SaveJules { jules },
                Written::Unavailable(reason) => fail(ApiError::StoreUnavailable { reason }),
            },
            (Session::SaveJules { .. }, Event::Wrote(written)) => match written {
                Written::Stored => Session::Finished { outcome: Outcome::KeysSaved },
                Written::Unavailable(reason) => fail(ApiError::StoreUnavailable { reason }),
            },
            (Session::StatusGithub, Event::Looked(lookup)) => match lookup {
                Lookup::Found(_) => Session::StatusJules,
                _ => Session::Finished { outcome: Outcome::KeysStatus(false) },
            },
            (Session::StatusJules, Event::Looked(lookup)) => {
                let both = match lookup {
                    Lookup::Found(_) => true,
                    _ => false,
                };
                Session::Finished { outcome: Outcome::KeysStatus(both) }
            },
            (session, _) => session,
        }
    }

    /// What the command came to: `Some` once the session is finished.
    pub fn outcome(self) -> (r: Option<Outcome>)
        ensures
            option_view(r) == outcome_of(self@),
    {
        match self {
            Session::Finished { outcome } => Some(outcome),
            _ => None,
        }
    }
}

/// What is handed to the caller of a command: the document of what the
/// command delivered, or the text that tells of its failure. Saving the keys
/// delivers `null`, the status query a boolean.
pub open spec fn report_of(outcome: OutcomeView) -> Result<JsonView, Seq<char>> {
    match outcome {
        OutcomeView::Repos(repos) => Ok(repos_json(repos)),
        OutcomeView::Details(details) => Ok(details_json(details)),
        OutcomeView::Session(session) => Ok(session_json(session)),
        OutcomeView::KeysSaved => Ok(JsonView::Null),
        OutcomeView::KeysStatus(both) => Ok(JsonView::Bool(both)),
        OutcomeView::Failed(error) => Err(message_of(error)),
    }
}

impl Outcome {
    /// Words the outcome for the caller of the command.
    pub fn report(&self) -> (r: Result<Json, String>)
        ensures
            result_view(r) == report_of(self@),
    {
        match self {
            Outcome::Repos(repos) => Ok(repos_to_json(repos)),
            Outcome::Details(details) => Ok(details.to_json()),
            Outcome::Session(session) => Ok(session.to_json()),
            Outcome::KeysSaved => Ok(Json::Null),
            Outcome::KeysStatus(both) => Ok(Json::Bool(*both)),
            Outcome::Failed(error) => Err(error.message()),
        }
    }
}

} // verus!
