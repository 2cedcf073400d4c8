//! The agent service: the request that starts a session, and the reading of
//! its response.

use crate::credentials::Service;
use crate::error::{ApiError, ApiErrorView};
use crate::http::{
    answer_document, authorization, bearer, Field, HttpRequest, HttpRequestView, HttpResponse,
    HttpResponseView, Method,
};
use crate::json::{
    lemma_each_round_trip, member_from, read_each, write_each, Json, JsonView, Member,
};
use crate::views::{option_view, option_views, result_view, views_of};
use vstd::prelude::*;
use vstd::string::*;

verus! {

/// What the agent service answers when a session was started.
#[derive(Clone, Debug, PartialEq, Eq)]
pub struct AgentResponse {
    pub session_id: String,
    pub status: String,
    /// The steps that the agent plans, in order.
    pub plan: Vec<String>,
}

/// The mathematical value of an [`AgentResponse`].
pub struct AgentResponseView {
    pub session_id: Seq<char>,
    pub status: Seq<char>,
    pub plan: Seq<Seq<char>>,
}

impl View for AgentResponse {
    type V = AgentResponseView;

    open spec fn view(&self) -> AgentResponseView {
        AgentResponseView {
            session_id: self.session_id@,
            status: self.status@,
            plan: views_of(self.plan@),
        }
    }
}

/// The texts that the items are, where each of them is one.
pub open spec fn texts_in(items: Seq<JsonView>) -> Option<Seq<Seq<char>>> {
    read_each(items, |item: JsonView| item.text())
}

/// The session that `doc` describes: an object with texts `session_id` and
/// `status` and an array `plan` of texts. Other members are passed over.
pub open spec fn session_of(doc: JsonView) -> Option<AgentResponseView> {
    match (
        doc.text_member("session_id"@),
        doc.text_member("status"@),
        match doc.array_member("plan"@) {
            Some(items) => texts_in(items),
            None => None,
        },
    ) {
        (Some(session_id), Some(status), Some(plan)) => Some(
            AgentResponseView { session_id, status, plan },
        ),
        _ => None,
    }
}

/// Reads a text from each item.
pub fn texts_from_items(items: &Vec<Json>) -> (r: Option<Vec<String>>)
    ensures
        option_views(r) == texts_in(views_of(items@)),
{
    let mut out: Vec<String> = Vec::new();
    let mut i: usize = 0;
    while i < items.len()
        invariant
            i <= items.len(),
            out.len() == i,
            forall|k: int| 0 <= k < i ==> (#[trigger] items[k]@).text() == Some(out[k]@),
        decreases items.len() - i,
    {
        match items[i].text() {
            Some(text) => out.push(text),
            None => {
                proof {
                    let read = |item: JsonView| item.text();
                    assert(views_of(items@)[i as int] == items[i as int]@);
                    assert(read(views_of(items@)[i as int]) is None);
                }
                return None;
            },
        }
        i += 1;
    }
    assert forall|k: int| 0 <= k < items.len() implies (#[trigger] views_of(
        items@,
    )[k]).text() is Some by {
        assert(items[k]@.text() == Some(out[k]@));
    }
    assert(views_of(out@) =~= texts_in(views_of(items@))->0);
    Some(out)
}

impl AgentResponse {
    /// Reads a session from a document.
    pub fn from_json(doc: &Json) -> (r: Option<AgentResponse>)
        ensures
            option_view(r) == session_of(doc@),
    {
        let session_id = doc.text_member("session_id");
        let status = doc.text_member("status");
        let plan = match doc.array_member("plan") {
            Some(items) => texts_from_items(items),
            None => None,
        };
        match (session_id, status, plan) {
            (Some(session_id), Some(status), Some(plan)) => Some(
                AgentResponse { session_id, status, plan },
            ),
            _ => None,
        }
    }
}

/// The address of the endpoint that starts a session.
pub open spec fn sessions_url() -> Seq<char> {
    "https://api.jules.ai/v1/sessions"@
}

/// The document that asks for a session: the task and the prompt.
pub open spec fn session_body(task_id: Seq<char>, prompt: Seq<char>) -> JsonView {
    JsonView::Object(
        seq![("task_id"@, JsonView::Text(task_id)), ("prompt"@, JsonView::Text(prompt))],
    )
}

/// The request that starts a session for the task `task_id`.
pub open spec fn session_request_of(
    task_id: Seq<char>,
    prompt: Seq<char>,
    token: Seq<char>,
) -> HttpRequestView {
    HttpRequestView {
        method: Method::Post,
        url: sessions_url(),
        query: Seq::empty(),
        headers: seq![("Authorization"@, bearer(token))],
        body: Some(session_body(task_id, prompt)),
    }
}

/// Builds the request that starts a session for the task `task_id`.
pub fn session_request(task_id: &str, prompt: &str, token: &str) -> (request: HttpRequest)
    ensures
        request@ == session_request_of(task_id@, prompt@, token@),
{
    let mut members: Vec<Member> = Vec::new();
    members.push(
        Member { name: String::from_str("task_id"), value: Json::Text(String::from_str(task_id)) },
    );
    members.push(
        Member { name: String::from_str("prompt"), value: Json::Text(String::from_str(prompt)) },
    );
    let body = Json::Object(members);
    let mut headers: Vec<Field> = Vec::new();
    headers.push(authorization(token));
    let parameters: Vec<Field> = Vec::new();
    proof {
        body.lemma_object_view();
        assert(views_of(members@) =~= session_body(task_id@, prompt@)->Object_0);
        assert(views_of(headers@) =~= seq![("Authorization"@, bearer(token@))]);
        assert(views_of(parameters@) =~= Seq::empty());
    }
    HttpRequest {
        method: Method::Post,
        url: String::from_str("https://api.jules.ai/v1/sessions"),
        query: parameters,
        headers,
        body: Some(body),
    }
}

/// What starting a session comes to, given the response to its request.
pub open spec fn session_outcome(response: HttpResponseView) -> Result<
    AgentResponseView,
    ApiErrorView,
> {
    match answer_document(Service::Jules, response) {
        Err(error) => Err(error),
        Ok(doc) => match session_of(doc) {
            Some(session) => Ok(session),
            None => Err(ApiErrorView::Decode),
        },
    }
}

/// Reads the response to the request that starts a session.
///
/// A status outside the success class fails with that status, a body that
/// could not be read with a transport failure, and a body that does not
/// describe a session with a decoding failure.
pub fn start_session(response: &HttpResponse) -> (r: Result<AgentResponse, ApiError>)
    ensures
        result_view(r) == session_outcome(response@),
{
    match response.document(Service::Jules) {
        Err(error) => Err(error),
        Ok(doc) => match AgentResponse::from_json(&doc) {
            Some(session) => Ok(session),
            None => Err(ApiError::Decode),
        },
    }
}

/// The document that is written for a plan: the array of its steps.
pub open spec fn plan_json(plan: Seq<Seq<char>>) -> JsonView {
    JsonView::Array(write_each(plan, |step: Seq<char>| JsonView::Text(step)))
}

/// The document that is written for a session.
pub open spec fn session_json(session: AgentResponseView) -> JsonView {
    JsonView::Object(
        seq![
            ("session_id"@, JsonView::Text(session.session_id)),
            ("status"@, JsonView::Text(session.status)),
            ("plan"@, plan_json(session.plan)),
        ],
    )
}

fn texts_to_json(texts: &Vec<String>) -> (doc: Json)
    ensures
        doc@ == plan_json(views_of(texts@)),
{
    let mut items: Vec<Json> = Vec::new();
    let mut i: usize = 0;
    while i < texts.len()
        invariant
            i <= texts.len(),
            items.len() == i,
            forall|k: int| 0 <= k < i ==> (#[trigger] items[k])@ == JsonView::Text(texts[k]@),
        decreases texts.len() - i,
    {
        items.push(Json::Text(texts[i].clone()));
        i += 1;
    }
    let doc = Json::Array(items);
    proof {
        doc.lemma_array_view();
        assert(views_of(items@) =~= plan_json(views_of(texts@))->Array_0);
    }
    doc
}

impl AgentResponse {
    /// Writes the session as a document.
    pub fn to_json(&self) -> (doc: Json)
        ensures
            doc@ == session_json(self@),
    {
        let mut members: Vec<Member> = Vec::new();
        members.push(
            Member {
                name: String::from_str("session_id"),
                value: Json::Text(self.session_id.clone()),
            },
        );
        members.push(
            Member { name: String::from_str("status"), value: Json::Text(self.status.clone()) },
        );
        members.push(Member { name: String::from_str("plan"), value: texts_to_json(&self.plan) });
        let doc = Json::Object(members);
        proof {
            doc.lemma_object_view();
            assert(views_of(members@) =~= session_json(self@)->Object_0);
        }
        doc
    }
}

/// A session that is written as a document and read again is the same
/// session.
pub proof fn lemma_session_round_trip(session: AgentResponseView)
    ensures
        session_of(session_json(session)) == Some(session),
{
    reveal_strlit("session_id");
    reveal_strlit("status");
    reveal_strlit("plan");
    reveal_with_fuel(member_from, 4);
    let members = session_json(session)->Object_0;
    assert(members[0].0.len() == 10);
    assert(members[1].0.len() == 6);
    assert(members[2].0.len() == 4);
    lemma_each_round_trip(
        session.plan,
        |step: Seq<char>| JsonView::Text(step),
        |item: JsonView| item.text(),
    );
}

} // verus!
