//! A model of the host, and what the commands come to when they run in it.
//!
//! The host is everything a command cannot do itself: a secret store that
//! keeps texts under account names, and a network that answers requests. The
//! model fixes how both behave and lets a session run to its end in it, so
//! that whole commands can be reasoned about, beyond their single steps.

use crate::commands::{
    advance_of, answers, details_finish, pending_of, ActionView, EventView, OutcomeView, ReplyView,
    SessionView,
};
use crate::credentials::{LookupView, Service, WrittenView};
use crate::error::ApiErrorView;
use crate::github::repo_request_of;
use crate::http::HttpRequestView;
use vstd::prelude::*;

verus! {

/// The state of the host.
pub struct Host {
    /// Why the secret store cannot be reached, where it cannot.
    pub outage: Option<Seq<char>>,
    /// The secrets that the store keeps, by account name.
    pub secrets: Map<Seq<char>, Seq<char>>,
    /// What sending each request is answered with.
    pub network: spec_fn(HttpRequestView) -> ReplyView,
    /// The requests that were sent so far, in order.
    pub sent: Seq<HttpRequestView>,
}

impl Host {
    /// Whether the token of `service` is kept and can be fetched.
    pub open spec fn keeps(self, service: Service) -> bool {
        self.outage is None && self.secrets.contains_key(service.account())
    }

    /// What looking up the token of `service` reports.
    pub open spec fn lookup(self, service: Service) -> LookupView {
        match self.outage {
            Some(reason) => LookupView::Unavailable(reason),
            None => if self.secrets.contains_key(service.account()) {
                LookupView::Found(self.secrets[service.account()])
            } else {
                LookupView::NotFound
            },
        }
    }

    /// What writing a secret reports.
    pub open spec fn written(self) -> WrittenView {
        match self.outage {
            Some(reason) => WrittenView::Unavailable(reason),
            None => WrittenView::Stored,
        }
    }

    /// What the host hands back when it has done `action`.
    pub open spec fn answer(self, action: ActionView) -> EventView {
        match action {
            ActionView::Lookup { service } => EventView::Looked(self.lookup(service)),
            ActionView::Write { .. } => EventView::Wrote(self.written()),
            ActionView::Send { request } => EventView::Replied((self.network)(request)),
            ActionView::Finish => EventView::Wrote(WrittenView::Stored),
        }
    }

    /// The host after it has done `action`: a write that the store took in is
    /// kept, a request is on record as sent, and nothing else changes.
    pub open spec fn after(self, action: ActionView) -> Host {
        match action {
            ActionView::Write { service, secret } => match self.outage {
                Some(_) => self,
                None => Host { secrets: self.secrets.insert(service.account(), secret), ..self },
            },
            ActionView::Send { request } => Host { sent: self.sent.push(request), ..self },
            _ => self,
        }
    }
}

/// The most answers that `session` can still take in before it is finished.
pub open spec fn steps_left(session: SessionView) -> nat {
    match session {
        SessionView::SearchToken { .. } => 2,
        SessionView::SearchReply { .. } => 1,
        SessionView::DetailsToken { .. } => 4,
        SessionView::DetailsIssues { .. } => 3,
        SessionView::DetailsPulls { .. } => 2,
        SessionView::DetailsReadme { .. } => 1,
        SessionView::DispatchToken { .. } => 2,
        SessionView::DispatchReply { .. } => 1,
        SessionView::SaveGithub { .. } => 2,
        SessionView::SaveJules { .. } => 1,
        SessionView::StatusGithub => 2,
        SessionView::StatusJules => 1,
        SessionView::Finished { .. } => 0,
    }
}

/// Runs `session` in `host` to its end: what it comes to, and the host as it
/// is left.
pub open spec fn run(session: SessionView, host: Host) -> (OutcomeView, Host)
    decreases steps_left(session),
{
    match session {
        SessionView::Finished { outcome } => (outcome, host),
        _ => {
            let action = pending_of(session);
            run(advance_of(session, host.answer(action)), host.after(action))
        },
    }
}

/// Every answer to what is pending brings a session nearer to its end, and a
/// finished session asks for nothing more.
pub proof fn lemma_answers_bring_the_end(session: SessionView, event: EventView)
    ensures
        answers(event, pending_of(session)) ==> steps_left(
            advance_of(session, event),
        ) < steps_left(session),
        steps_left(session) == 0 <==> pending_of(session) is Finish,
        steps_left(advance_of(session, event)) <= steps_left(session),
{
}

/// The two tokens are kept under different account names.
pub proof fn lemma_accounts_differ()
    ensures
        Service::GitHub.account() != Service::Jules.account(),
{
    reveal_strlit("github_token");
    reveal_strlit("jules_token");
    assert(Service::GitHub.account().len() == 12);
    assert(Service::Jules.account().len() == 11);
}

/// The status query answers `true` exactly where both tokens are kept and can
/// be fetched: with none, with either one alone and with an unreachable store
/// it answers `false`. It leaves the host as it found it.
pub proof fn lemma_status_tells_whether_both_are_kept(host: Host)
    ensures
        run(SessionView::StatusGithub, host) == (
            OutcomeView::KeysStatus(host.keeps(Service::GitHub) && host.keeps(Service::Jules)),
            host,
        ),
{
    reveal_with_fuel(run, 3);
}

/// A search with no token in a store that can be reached fails for the
/// missing credential and sends no request.
pub proof fn lemma_search_without_token_sends_nothing(query: Seq<char>, host: Host)
    requires
        host.outage is None,
        !host.secrets.contains_key(Service::GitHub.account()),
    ensures
        run(SessionView::SearchToken { query }, host).0 == OutcomeView::Failed(
            ApiErrorView::CredentialMissing { service: Service::GitHub },
        ),
        run(SessionView::SearchToken { query }, host).1.sent == host.sent,
{
    reveal_with_fuel(run, 3);
}

/// No command sends a request before it has found its token: where the
/// lookup finds none, the command fails and the host is left as it was.
pub proof fn lemma_no_token_no_request(session: SessionView, host: Host)
    requires
        session is SearchToken || session is DetailsToken || session is DispatchToken,
        !(host.answer(pending_of(session)) matches EventView::Looked(LookupView::Found(_))),
    ensures
        run(session, host).0 is Failed,
        run(session, host).1 == host,
{
    reveal_with_fuel(run, 3);
}

/// Where the store can be reached, saving both keys succeeds, and a status
/// query that follows it answers `true`.
pub proof fn lemma_saved_keys_are_kept(github: Seq<char>, jules: Seq<char>, host: Host)
    requires
        host.outage is None,
    ensures
        run(SessionView::SaveGithub { github, jules }, host).0 == OutcomeView::KeysSaved,
        run(
            SessionView::StatusGithub,
            run(SessionView::SaveGithub { github, jules }, host).1,
        ).0 == OutcomeView::KeysStatus(true),
{
    reveal_with_fuel(run, 3);
    lemma_accounts_differ();
    let saved = run(SessionView::SaveGithub { github, jules }, host).1;
    assert(saved.secrets == host.secrets.insert(Service::GitHub.account(), github).insert(
        Service::Jules.account(),
        jules,
    ));
    lemma_status_tells_whether_both_are_kept(saved);
}

/// Where the store cannot be reached, saving the keys fails at the first
/// write and leaves the host as it was.
pub proof fn lemma_failed_save_changes_nothing(github: Seq<char>, jules: Seq<char>, host: Host)
    requires
        host.outage is Some,
    ensures
        run(SessionView::SaveGithub { github, jules }, host) == (
            OutcomeView::Failed(ApiErrorView::StoreUnavailable { reason: host.outage->0 }),
            host,
        ),
{
    reveal_with_fuel(run, 3);
}

/// Where the token is found and every request gets a response, a fetch of
/// details sends the three requests for the issues, the pull requests and the
/// README, in this order and each once, and comes to what the three
/// responses hold.
pub proof fn lemma_details_ask_three_times(owner: Seq<char>, repo: Seq<char>, host: Host)
    requires
        host.lookup(Service::GitHub) matches LookupView::Found(token) && {
            &&& (host.network)(repo_request_of(owner, repo, "/issues"@, token)) is Response
            &&& (host.network)(repo_request_of(owner, repo, "/pulls"@, token)) is Response
            &&& (host.network)(repo_request_of(owner, repo, "/readme"@, token)) is Response
        },
    ensures
        ({
            let token = host.lookup(Service::GitHub)->Found_0;
            let issues = repo_request_of(owner, repo, "/issues"@, token);
            let pulls = repo_request_of(owner, repo, "/pulls"@, token);
            let readme = repo_request_of(owner, repo, "/readme"@, token);
            let end = run(SessionView::DetailsToken { owner, repo }, host);
            &&& end.1.sent == host.sent.push(issues).push(pulls).push(readme)
            &&& end.1.secrets == host.secrets
            &&& end.0 == details_finish(
                (host.network)(issues)->Response_0,
                (host.network)(pulls)->Response_0,
                (host.network)(readme)->Response_0,
            )
        }),
{
    reveal_with_fuel(run, 5);
}

} // verus!
