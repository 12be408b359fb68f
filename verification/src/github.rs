//! The tracker's side: what its webhooks say, where they lead in the chat,
//! and the requests that open issues and post comments.

use vstd::prelude::*;
use vstd::string::StringExecFns;
use crate::app_conf::AppConf;
use crate::app_conf::RepoConf;
use crate::braid::message_request;
use crate::braid::thread_url;
use crate::braid::thread_url_text;
use crate::braid::requests;
use crate::braid::send_braid_request;
use crate::braid::start_watching_thread;
use crate::braid::watch_request;
use crate::braid::BraidRequest;
use crate::braid::BraidRequestView;
use crate::ids::Id;
use crate::json::json_integer_at;
use crate::json::json_object_text;
use crate::json::json_parsed;
use crate::json::json_text_at;
use crate::json::no_members;
use crate::message::DecodeError;
use crate::message::Message;
use crate::message::MessageView;
use crate::message::new_thread_msg_in;
use crate::message::new_thread_view;
use crate::message::reply_to_thread;
use crate::message::reply_view;
use crate::text::decimal;
use crate::text::decimal_text;
use crate::text::same_text;
use crate::text::split_at_first;
use crate::tracking::add_watched_thread;
use crate::tracking::did_we_post_comment;
use crate::tracking::thread_for_issue;
use crate::tracking::track_comment;
use crate::tracking::WatchedThread;
use crate::tracking::WatchedThreadView;
use crate::tracking::CorrelationStore;
use crate::tracking::StoreView;

verus! {

/// An issue that the tracker has opened.
#[derive(Debug)]
pub struct GithubIssue {
    pub url: String,
    pub number: i64,
}

/// A request to the tracker: `body`, a JSON text, is posted to `url` with
/// `token` as the bearer's credential.
pub struct GithubRequest {
    pub token: String,
    pub url: String,
    pub body: String,
}

/// What a `GithubRequest` holds.
pub ghost struct GithubRequestView {
    pub token: Seq<char>,
    pub url: Seq<char>,
    pub body: Seq<char>,
}

impl View for GithubRequest {
    type V = GithubRequestView;

    open spec fn view(&self) -> GithubRequestView {
        GithubRequestView { token: self.token@, url: self.url@, body: self.body@ }
    }
}

/// Whether `name` selects the repository: by its short name, or, where
/// `name` holds a `/`, by owner and short name on either side of the first.
pub open spec fn selects(name: Seq<char>, r: RepoConf) -> bool {
    match name.index_of_first('/') {
        Some(i) => r.org@ == name.take(i) && r.repo@ == name.skip(i + 1),
        None => r.repo@ == name,
    }
}

/// The index of the first repository that `name` selects.
pub open spec fn repo_index(repos: Seq<RepoConf>, name: Seq<char>) -> Option<int> {
    if exists|i: int| 0 <= i < repos.len() && selects(name, #[trigger] repos[i]) {
        Some(
            choose|i: int|
                0 <= i < repos.len() && selects(name, #[trigger] repos[i]) && forall|j: int|
                    0 <= j < i ==> !selects(name, #[trigger] repos[j]),
        )
    } else {
        None
    }
}

/// Among the indices that satisfy a property, one is the least.
proof fn lemma_first_selected(repos: Seq<RepoConf>, name: Seq<char>, k: int)
    requires
        0 <= k < repos.len(),
        selects(name, repos[k]),
    ensures
        repo_index(repos, name) matches Some(i) && 0 <= i <= k && selects(name, repos[i])
            && forall|j: int| 0 <= j < i ==> !selects(name, #[trigger] repos[j]),
    decreases k,
{
    if exists|m: int| 0 <= m < k && selects(name, #[trigger] repos[m]) {
        let m = choose|m: int| 0 <= m < k && selects(name, #[trigger] repos[m]);
        lemma_first_selected(repos, name, m);
    } else {
        assert(0 <= k < repos.len() && selects(name, repos[k]) && forall|j: int|
            0 <= j < k ==> !selects(name, #[trigger] repos[j]));
    }
}

/// The first configured repository that `name` selects.
pub fn find_repo_conf<'a>(name: &str, conf: &'a AppConf) -> (r: Option<&'a RepoConf>)
    ensures
        match r {
            Some(found) => repo_index(conf.repos@, name@) matches Some(i) && *found
                == conf.repos@[i],
            None => repo_index(conf.repos@, name@) is None,
        },
{
    let parts = split_at_first(name, '/');
    let mut i: usize = 0;
    while i < conf.repos.len()
        invariant
            i <= conf.repos.len(),
            match parts {
                Some((org, repo)) => name@.index_of_first('/') matches Some(k) && org@
                    == name@.take(k) && repo@ == name@.skip(k + 1),
                None => name@.index_of_first('/') is None,
            },
            forall|j: int| 0 <= j < i ==> !selects(name@, #[trigger] conf.repos@[j]),
        decreases conf.repos.len() - i,
    {
        let candidate = &conf.repos[i];
        let hit = match parts {
            Some((org, repo)) => same_text(candidate.repo.as_str(), repo) && same_text(
                candidate.org.as_str(),
                org,
            ),
            None => same_text(candidate.repo.as_str(), name),
        };
        if hit {
            proof {
                lemma_first_selected(conf.repos@, name@, i as int);
            }
            return Some(candidate);
        }
        i = i + 1;
    }
    None
}

/// The address at which issues of a repository are opened.
pub open spec fn issues_url(org: Seq<char>, repo: Seq<char>) -> Seq<char> {
    "https://api.github.com"@ + "/repos/"@ + org + "/"@ + repo + "/issues"@
}

/// The request that opens an issue.
pub open spec fn issue_request(r: RepoConf, title: Seq<char>, content: Seq<char>)
    -> GithubRequestView {
    GithubRequestView {
        token: r.token@,
        url: issues_url(r.org@, r.repo@),
        body: json_object_text(no_members().insert("title"@, title).insert("body"@, content)),
    }
}

/// The request that opens an issue with this title and text in the
/// repository.
pub fn create_issue(github_conf: &RepoConf, title: String, content: String) -> (r: GithubRequest)
    ensures
        r@ == issue_request(*github_conf, title@, content@),
{
    let mut url = String::from_str("https://api.github.com");
    url.append("/repos/");
    url.append(github_conf.org.as_str());
    url.append("/");
    url.append(github_conf.repo.as_str());
    url.append("/issues");
    let mut object = crate::json::object_new();
    crate::json::object_insert(&mut object, "title", title);
    crate::json::object_insert(&mut object, "body", content);
    GithubRequest {
        token: github_conf.token.clone(),
        url,
        body: crate::json::object_text(&object),
    }
}

/// The issue that the tracker's answer to `create_issue` tells of: its
/// address and its number, where the answer is a JSON document that holds
/// both.
pub open spec fn issue_in(doc: Option<serde_json::Value>) -> Option<(Seq<char>, i64)> {
    match doc {
        Some(d) => match (json_text_at(d, "/html_url"@), json_integer_at(d, "/number"@)) {
            (Some(url), Some(number)) => Some((url, number)),
            _ => None,
        },
        None => None,
    }
}

/// Reads the tracker's answer to `create_issue`.
pub fn issue_from_response(body: &[u8]) -> (r: Option<GithubIssue>)
    ensures
        match r {
            Some(issue) => issue_in(json_parsed(body@)) == Some((issue.url@, issue.number)),
            None => issue_in(json_parsed(body@)) is None,
        },
{
    match crate::json::parse(body) {
        Some(doc) => {
            let url = crate::json::text_at(&doc, "/html_url");
            let number = crate::json::integer_at(&doc, "/number");
            match (url, number) {
                (Some(u), Some(n)) => Some(GithubIssue { url: u, number: n }),
                _ => None,
            }
        },
        None => None,
    }
}

/// The identifier of the comment that the tracker's answer to a posted
/// comment tells of.
pub open spec fn comment_id_in(doc: Option<serde_json::Value>) -> Option<i64> {
    match doc {
        Some(d) => json_integer_at(d, "/id"@),
        None => None,
    }
}

/// Reads the tracker's answer to a posted comment.
pub fn comment_id_from_response(body: &[u8]) -> (r: Option<i64>)
    ensures
        r == comment_id_in(json_parsed(body@)),
{
    match crate::json::parse(body) {
        Some(doc) => crate::json::integer_at(&doc, "/id"),
        None => None,
    }
}

/// What a webhook of the tracker says, field by field. A field that the
/// payload lacks, or holds with another type, is absent here.
pub struct WebhookPayload {
    /// `action`
    pub action: Option<String>,
    /// `repository.full_name`
    pub repository: Option<String>,
    /// `issue.number`
    pub issue_number: Option<i64>,
    /// `issue.user.login`
    pub issue_creator: Option<String>,
    /// `issue.title`
    pub issue_title: Option<String>,
    /// `issue.html_url`
    pub issue_url: Option<String>,
    /// `comment.id`
    pub comment_id: Option<i64>,
    /// `comment.user.login`
    pub commenter: Option<String>,
    /// `comment.body`
    pub comment_body: Option<String>,
    /// `sender.login`
    pub sender: Option<String>,
}

/// What a `WebhookPayload` holds.
pub ghost struct PayloadView {
    pub action: Option<Seq<char>>,
    pub repository: Option<Seq<char>>,
    pub issue_number: Option<i64>,
    pub issue_creator: Option<Seq<char>>,
    pub issue_title: Option<Seq<char>>,
    pub issue_url: Option<Seq<char>>,
    pub comment_id: Option<i64>,
    pub commenter: Option<Seq<char>>,
    pub comment_body: Option<Seq<char>>,
    pub sender: Option<Seq<char>>,
}

/// The text that an optional string holds.
pub open spec fn text_of(s: Option<String>) -> Option<Seq<char>> {
    match s {
        Some(t) => Some(t@),
        None => None,
    }
}

impl View for WebhookPayload {
    type V = PayloadView;

    open spec fn view(&self) -> PayloadView {
        PayloadView {
            action: text_of(self.action),
            repository: text_of(self.repository),
            issue_number: self.issue_number,
            issue_creator: text_of(self.issue_creator),
            issue_title: text_of(self.issue_title),
            issue_url: text_of(self.issue_url),
            comment_id: self.comment_id,
            commenter: text_of(self.commenter),
            comment_body: text_of(self.comment_body),
            sender: text_of(self.sender),
        }
    }
}

/// The fields of a payload, each read at its place in the document.
pub open spec fn payload_in(doc: serde_json::Value) -> PayloadView {
    PayloadView {
        action: json_text_at(doc, "/action"@),
        repository: json_text_at(doc, "/repository/full_name"@),
        issue_number: json_integer_at(doc, "/issue/number"@),
        issue_creator: json_text_at(doc, "/issue/user/login"@),
        issue_title: json_text_at(doc, "/issue/title"@),
        issue_url: json_text_at(doc, "/issue/html_url"@),
        comment_id: json_integer_at(doc, "/comment/id"@),
        commenter: json_text_at(doc, "/comment/user/login"@),
        comment_body: json_text_at(doc, "/comment/body"@),
        sender: json_text_at(doc, "/sender/login"@),
    }
}

/// Reads the fields of a payload out of a JSON document.
pub fn payload_of(doc: &serde_json::Value) -> (r: WebhookPayload)
    ensures
        r@ == payload_in(*doc),
{
    WebhookPayload {
        action: crate::json::text_at(doc, "/action"),
        repository: crate::json::text_at(doc, "/repository/full_name"),
        issue_number: crate::json::integer_at(doc, "/issue/number"),
        issue_creator: crate::json::text_at(doc, "/issue/user/login"),
        issue_title: crate::json::text_at(doc, "/issue/title"),
        issue_url: crate::json::text_at(doc, "/issue/html_url"),
        comment_id: crate::json::integer_at(doc, "/comment/id"),
        commenter: crate::json::text_at(doc, "/comment/user/login"),
        comment_body: crate::json::text_at(doc, "/comment/body"),
        sender: crate::json::text_at(doc, "/sender/login"),
    }
}

/// Reads a webhook's body: a JSON document gives its fields, anything else
/// is an error.
pub fn decode_webhook_payload(body: &[u8]) -> (r: Result<WebhookPayload, DecodeError>)
    ensures
        match r {
            Ok(p) => json_parsed(body@) matches Some(doc) && p@ == payload_in(doc),
            Err(e) => json_parsed(body@) is None && e == DecodeError::Malformed,
        },
{
    match crate::json::parse(body) {
        Some(doc) => Ok(payload_of(&doc)),
        None => Err(DecodeError::Malformed),
    }
}

/// What happened on the tracker, as a webhook's `action` names it.
#[derive(Clone, Copy, PartialEq, Eq, Structural, Debug)]
pub enum Action {
    /// An issue was opened.
    Opened,
    /// A comment was created.
    Created,
    /// An issue was closed.
    Closed,
    /// Anything else; nothing is done about it.
    Other,
}

/// The action that a text names.
pub open spec fn action_named(text: Seq<char>) -> Action {
    if text == "opened"@ {
        Action::Opened
    } else if text == "created"@ {
        Action::Created
    } else if text == "closed"@ {
        Action::Closed
    } else {
        Action::Other
    }
}

/// The action that a webhook's `action` field names.
pub fn action_of(text: &str) -> (r: Action)
    ensures
        r == action_named(text@),
{
    if same_text(text, "opened") {
        Action::Opened
    } else if same_text(text, "created") {
        Action::Created
    } else if same_text(text, "closed") {
        Action::Closed
    } else {
        Action::Other
    }
}

/// What the engine did about an event: the store after it, and the requests
/// to send, in order.
pub ghost struct Outcome {
    pub store: StoreView,
    pub requests: Seq<BraidRequestView>,
}

/// The outcome of an event about which nothing is done.
pub open spec fn nothing_done(s: StoreView) -> Outcome {
    Outcome { store: s, requests: Seq::empty() }
}

/// The chat message about a new issue.
pub open spec fn opened_text(creator: Seq<char>, title: Seq<char>, url: Seq<char>) -> Seq<char> {
    creator + " opened issue \""@ + title + "\"\n"@ + url
}

/// The chat message about a comment.
pub open spec fn commented_text(commenter: Seq<char>, body: Seq<char>) -> Seq<char> {
    commenter + " commented:\n"@ + body
}

/// The chat message about an issue that was closed.
pub open spec fn closed_text(closer: Option<Seq<char>>) -> Seq<char> {
    "issue has been closed by "@ + match closer {
        Some(c) => c,
        None => "an unknown user"@,
    }
}

/// What is done about an issue that was opened. An issue that a thread
/// follows already is left alone. Otherwise, where the payload names a
/// configured repository, the creator, the title and the address, thread
/// `thread_id` is opened under the repository's tag and set to follow the
/// issue, unless the store refuses the pair.
pub open spec fn opened_outcome(
    s: StoreView,
    issue_number: i64,
    p: PayloadView,
    conf: AppConf,
    thread_id: Id,
) -> Outcome {
    if p.repository is None || s.watches_issue(p.repository->0, issue_number) || repo_index(
        conf.repos@,
        p.repository->0,
    ) is None || p.issue_creator is None || p.issue_title is None || p.issue_url is None
        || s.watches_thread(thread_id) {
        nothing_done(s)
    } else {
        let tag = conf.repos@[repo_index(conf.repos@, p.repository->0)->0].tag_id;
        let content = opened_text(p.issue_creator->0, p.issue_title->0, p.issue_url->0);
        Outcome {
            store: s.add_watched_thread(thread_id, p.repository->0, issue_number),
            requests: seq![
                message_request(new_thread_view(thread_id, tag, content), conf.braid),
                watch_request(thread_id, conf.braid),
            ],
        }
    }
}

/// What is done about a comment on an issue: it is relayed into the thread
/// that follows the issue, unless no thread does, the bridge posted the
/// comment itself, or the payload lacks the comment's identifier, author or
/// text.
pub open spec fn comment_outcome(
    s: StoreView,
    issue_number: i64,
    repo_name: Seq<char>,
    p: PayloadView,
    conf: AppConf,
) -> Outcome {
    match s.thread_for_issue(repo_name, issue_number) {
        None => nothing_done(s),
        Some(w) => if p.comment_id is None || s.posted_comment(w.thread_id, p.comment_id->0)
            || p.commenter is None || p.comment_body is None {
            nothing_done(s)
        } else {
            Outcome {
                store: s,
                requests: seq![
                    message_request(
                        reply_view(w.thread_id, commented_text(p.commenter->0, p.comment_body->0)),
                        conf.braid,
                    ),
                ],
            }
        },
    }
}

/// What is done about an issue that was closed: the thread that follows it,
/// if one does, is told who closed it.
pub open spec fn closed_outcome(
    s: StoreView,
    issue_number: i64,
    repo_name: Seq<char>,
    p: PayloadView,
    conf: AppConf,
) -> Outcome {
    match s.thread_for_issue(repo_name, issue_number) {
        None => nothing_done(s),
        Some(w) => Outcome {
            store: s,
            requests: seq![
                message_request(reply_view(w.thread_id, closed_text(p.sender)), conf.braid),
            ],
        },
    }
}

/// What is done about a webhook: nothing unless it names a repository, an
/// issue and an action; otherwise what its action asks for.
pub open spec fn webhook_outcome(s: StoreView, p: PayloadView, conf: AppConf, thread_id: Id)
    -> Outcome {
    if p.repository is None || p.issue_number is None || p.action is None {
        nothing_done(s)
    } else {
        match action_named(p.action->0) {
            Action::Opened => opened_outcome(s, p.issue_number->0, p, conf, thread_id),
            Action::Created => comment_outcome(s, p.issue_number->0, p.repository->0, p, conf),
            Action::Closed => closed_outcome(s, p.issue_number->0, p.repository->0, p, conf),
            Action::Other => nothing_done(s),
        }
    }
}

/// Handles an issue that was opened; `thread_id` names the thread to open.
pub fn new_issue_from_webhook(
    issue_number: i64,
    payload: &WebhookPayload,
    conf: &AppConf,
    store: &mut CorrelationStore,
    thread_id: Id,
) -> (r: Vec<BraidRequest>)
    requires
        old(store).wf(),
    ensures
        final(store).wf(),
        final(store)@ == opened_outcome(old(store)@, issue_number, payload@, *conf, thread_id).store,
        requests(r@) == opened_outcome(
            old(store)@,
            issue_number,
            payload@,
            *conf,
            thread_id,
        ).requests,
{
    let mut out: Vec<BraidRequest> = Vec::new();
    let repo_name = match &payload.repository {
        Some(r) => r,
        None => { return out; },
    };
    if thread_for_issue(repo_name.as_str(), issue_number, store).is_some() {
        return out;
    }
    let repo_conf = match find_repo_conf(repo_name.as_str(), conf) {
        Some(c) => c,
        None => { return out; },
    };
    let creator = match &payload.issue_creator {
        Some(u) => u,
        None => { return out; },
    };
    let issue_title = match &payload.issue_title {
        Some(t) => t,
        None => { return out; },
    };
    let issue_url = match &payload.issue_url {
        Some(u) => u,
        None => { return out; },
    };
    let mut content = creator.clone();
    content.append(" opened issue \"");
    content.append(issue_title.as_str());
    content.append("\"\n");
    content.append(issue_url.as_str());
    let msg = new_thread_msg_in(thread_id, repo_conf.tag_id, content);
    if add_watched_thread(thread_id, repo_name.clone(), issue_number, store).is_err() {
        return out;
    }
    out.push(send_braid_request(msg, &conf.braid));
    out.push(start_watching_thread(thread_id, &conf.braid));
    proof {
        let o = opened_outcome(old(store)@, issue_number, payload@, *conf, thread_id);
    }
    out
}

/// Handles a comment that was created on issue `issue_number` of `repo_name`.
pub fn comment_from_webhook(
    issue_number: i64,
    repo_name: &str,
    payload: &WebhookPayload,
    conf: &AppConf,
    store: &CorrelationStore,
) -> (r: Vec<BraidRequest>)
    requires
        store.wf(),
    ensures
        requests(r@) == comment_outcome(store@, issue_number, repo_name@, payload@, *conf).requests,
{
    let mut out: Vec<BraidRequest> = Vec::new();
    let thread_id = match thread_for_issue(repo_name, issue_number, store) {
        Some(thread) => thread.thread_id,
        None => { return out; },
    };
    let comment_id = match payload.comment_id {
        Some(i) => i,
        None => { return out; },
    };
    if did_we_post_comment(thread_id, comment_id, store) {
        return out;
    }
    let commenter = match &payload.commenter {
        Some(c) => c,
        None => { return out; },
    };
    let comment_body = match &payload.comment_body {
        Some(b) => b,
        None => { return out; },
    };
    let mut content = commenter.clone();
    content.append(" commented:\n");
    content.append(comment_body.as_str());
    out.push(send_braid_request(reply_to_thread(thread_id, content), &conf.braid));
    proof {
        let o = comment_outcome(store@, issue_number, repo_name@, payload@, *conf);
    }
    out
}

/// Handles issue `issue_number` of `repo_name` having been closed.
pub fn closed_issue_from_webhook(
    issue_number: i64,
    repo_name: &str,
    payload: &WebhookPayload,
    conf: &AppConf,
    store: &CorrelationStore,
) -> (r: Vec<BraidRequest>)
    requires
        store.wf(),
    ensures
        requests(r@) == closed_outcome(store@, issue_number, repo_name@, payload@, *conf).requests,
{
    let mut out: Vec<BraidRequest> = Vec::new();
    let thread_id = match thread_for_issue(repo_name, issue_number, store) {
        Some(thread) => thread.thread_id,
        None => { return out; },
    };
    let mut content = String::from_str("issue has been closed by ");
    match &payload.sender {
        Some(closer) => content.append(closer.as_str()),
        None => content.append("an unknown user"),
    }
    out.push(send_braid_request(reply_to_thread(thread_id, content), &conf.braid));
    proof {
        let o = closed_outcome(store@, issue_number, repo_name@, payload@, *conf);
    }
    out
}

/// Handles a webhook whose payload was read; `thread_id` names the thread
/// to open, should one be opened.
pub fn route_webhook(
    payload: &WebhookPayload,
    conf: &AppConf,
    store: &mut CorrelationStore,
    thread_id: Id,
) -> (r: Vec<BraidRequest>)
    requires
        old(store).wf(),
    ensures
        final(store).wf(),
        final(store)@ == webhook_outcome(old(store)@, payload@, *conf, thread_id).store,
        requests(r@) == webhook_outcome(old(store)@, payload@, *conf, thread_id).requests,
{
    let none: Vec<BraidRequest> = Vec::new();
    let repo_name = match &payload.repository {
        Some(r) => r,
        None => { return none; },
    };
    let issue_number = match payload.issue_number {
        Some(i) => i,
        None => { return none; },
    };
    let action = match &payload.action {
        Some(a) => a,
        None => { return none; },
    };
    match action_of(action.as_str()) {
        Action::Opened => new_issue_from_webhook(issue_number, payload, conf, store, thread_id),
        Action::Created => comment_from_webhook(
            issue_number,
            repo_name.as_str(),
            payload,
            conf,
            store,
        ),
        Action::Closed => closed_issue_from_webhook(
            issue_number,
            repo_name.as_str(),
            payload,
            conf,
            store,
        ),
        Action::Other => none,
    }
}

/// What is done about a webhook's body: nothing where it is no JSON
/// document, and otherwise what its payload asks for.
pub open spec fn body_outcome(s: StoreView, body: Seq<u8>, conf: AppConf, thread_id: Id)
    -> Outcome {
    match json_parsed(body) {
        Some(doc) => webhook_outcome(s, payload_in(doc), conf, thread_id),
        None => nothing_done(s),
    }
}

/// Handles the body of a webhook whose signature was found good. A thread
/// that is opened gets an identifier drawn at random.
pub fn update_from_github(msg_body: &[u8], conf: &AppConf, store: &mut CorrelationStore) -> (r:
    Vec<BraidRequest>)
    requires
        old(store).wf(),
    ensures
        final(store).wf(),
        exists|thread_id: Id|
            {
                &&& final(store)@ == (#[trigger] body_outcome(
                    old(store)@,
                    msg_body@,
                    *conf,
                    thread_id,
                )).store
                &&& requests(r@) == body_outcome(old(store)@, msg_body@, *conf, thread_id).requests
            },
{
    let thread_id = Id::random();
    match decode_webhook_payload(msg_body) {
        Ok(payload) => {
            let out = route_webhook(&payload, conf, store, thread_id);
            assert(final(store)@ == body_outcome(old(store)@, msg_body@, *conf, thread_id).store);
            out
        },
        Err(_) => {
            let none: Vec<BraidRequest> = Vec::new();
            assert(store@ == body_outcome(old(store)@, msg_body@, *conf, thread_id).store);
            none
        },
    }
}

/// The address at which comments on an issue are posted.
pub open spec fn comments_url(repo_name: Seq<char>, issue_number: i64) -> Seq<char> {
    "https://api.github.com"@ + "/repos/"@ + repo_name + "/issues/"@ + decimal(
        issue_number as int,
    ) + "/comments"@
}

/// The text of the comment that carries a chat message to the tracker.
pub open spec fn relayed_text(nickname: Option<Seq<char>>, thread_url: Seq<char>, content: Seq<char>)
    -> Seq<char> {
    let author = match nickname {
        Some(n) => n,
        None => "a chat user"@,
    };
    author + " commented via [braid]("@ + thread_url + "):\n"@ + content
}

/// The request that carries a chat message to the issue that its thread
/// follows, if the issue's repository is configured.
pub open spec fn comment_request(
    thread: WatchedThreadView,
    msg: MessageView,
    conf: AppConf,
    nickname: Option<Seq<char>>,
) -> Option<GithubRequestView> {
    match repo_index(conf.repos@, thread.repository) {
        Some(i) => Some(
            GithubRequestView {
                token: conf.repos@[i].token@,
                url: comments_url(thread.repository, thread.issue_number),
                body: json_object_text(
                    no_members().insert(
                        "body"@,
                        relayed_text(
                            nickname,
                            thread_url_text(conf.braid.site_url@, msg.group_id, msg.thread_id),
                            msg.content,
                        ),
                    ),
                ),
            },
        ),
        None => None,
    }
}

/// Turns a chat message in a thread that follows an issue into the request
/// that posts it as a comment on the issue. `nickname` is what the chat
/// platform answered when asked for the author's name.
pub fn update_from_braid(
    thread: &WatchedThread,
    msg: &Message,
    conf: &AppConf,
    nickname: Option<String>,
) -> (r: Option<GithubRequest>)
    ensures
        match r {
            Some(request) => comment_request(thread@, msg@, *conf, text_of(nickname)) == Some(
                request@,
            ),
            None => comment_request(thread@, msg@, *conf, text_of(nickname)) is None,
        },
{
    let repo_conf = match find_repo_conf(thread.repository.as_str(), conf) {
        Some(c) => c,
        None => { return None; },
    };
    let mut url = String::from_str("https://api.github.com");
    url.append("/repos/");
    url.append(thread.repository.as_str());
    url.append("/issues/");
    let number = decimal_text(thread.issue_number);
    url.append(number.as_str());
    url.append("/comments");
    let mut comment = match nickname {
        Some(n) => n,
        None => String::from_str("a chat user"),
    };
    comment.append(" commented via [braid](");
    let link = thread_url(&conf.braid, msg);
    comment.append(link.as_str());
    comment.append("):\n");
    comment.append(msg.content.as_str());
    let mut object = crate::json::object_new();
    crate::json::object_insert(&mut object, "body", comment);
    Some(
        GithubRequest {
            token: repo_conf.token.clone(),
            url,
            body: crate::json::object_text(&object),
        },
    )
}

/// The store after the tracker answered a posted comment: the comment is on
/// record for the thread where the answer names it.
pub open spec fn after_comment_posted(s: StoreView, response: Seq<u8>, thread_id: Id)
    -> StoreView {
    match comment_id_in(json_parsed(response)) {
        Some(id) => s.track_comment(thread_id, id),
        None => s,
    }
}

/// Puts on record the comment that the tracker says it created for a
/// message of thread `thread_id`, so that the webhook about it is known for
/// an echo. Answers whether the tracker's answer named a comment.
pub fn record_posted_comment(response: &[u8], thread_id: Id, store: &mut CorrelationStore) -> (r:
    bool)
    requires
        old(store).wf(),
    ensures
        final(store).wf(),
        final(store)@ == after_comment_posted(old(store)@, response@, thread_id),
        r == comment_id_in(json_parsed(response@)) is Some,
{
    match comment_id_from_response(response) {
        Some(id) => {
            track_comment(thread_id, id, store);
            true
        },
        None => false,
    }
}

/// The action that each of the three names stands for.
proof fn lemma_action_names()
    ensures
        action_named("opened"@) == Action::Opened,
        action_named("created"@) == Action::Created,
        action_named("closed"@) == Action::Closed,
{
    reveal_strlit("opened");
    reveal_strlit("created");
    reveal_strlit("closed");
    assert("closed"@.len() == 6);
    assert("opened"@[0] == 'o');
}

/// A comment that the bridge has on record as its own is not relayed: once
/// `track_comment` was given the thread that follows the issue and the
/// comment's identifier, the webhook about that comment changes nothing and
/// asks for no request.
pub proof fn law_echo_is_suppressed(s: StoreView, p: PayloadView, conf: AppConf, thread_id: Id)
    requires
        s.wf(),
        p.action == Some("created"@),
        p.repository is Some,
        p.issue_number is Some,
        p.comment_id is Some,
        s.thread_for_issue(p.repository->0, p.issue_number->0) is Some,
    ensures
        ({
            let thread = s.thread_for_issue(p.repository->0, p.issue_number->0)->0.thread_id;
            let after = s.track_comment(thread, p.comment_id->0);
            webhook_outcome(after, p, conf, thread_id) == nothing_done(after)
        }),
{
    lemma_action_names();
    let w = s.thread_for_issue(p.repository->0, p.issue_number->0)->0;
    let t = s.track_comment(w.thread_id, p.comment_id->0);
    assert(t.watched == s.watched);
    let c = crate::tracking::PostedComment { thread_id: w.thread_id, comment_id: p.comment_id->0 };
    assert(t.posted[t.posted.len() - 1] == c);
}

/// A comment by someone else on a followed issue is relayed exactly once:
/// where the store has no record of the comment for the thread, and the
/// payload names the comment, its author and its text, the webhook changes
/// nothing and asks for one request, which carries the comment into the
/// thread.
pub proof fn law_foreign_comment_is_relayed_once(
    s: StoreView,
    p: PayloadView,
    conf: AppConf,
    thread_id: Id,
)
    requires
        s.wf(),
        p.action == Some("created"@),
        p.repository is Some,
        p.issue_number is Some,
        p.comment_id is Some,
        p.commenter is Some,
        p.comment_body is Some,
        s.thread_for_issue(p.repository->0, p.issue_number->0) is Some,
        !s.posted_comment(
            s.thread_for_issue(p.repository->0, p.issue_number->0)->0.thread_id,
            p.comment_id->0,
        ),
    ensures
        webhook_outcome(s, p, conf, thread_id).store == s,
        webhook_outcome(s, p, conf, thread_id).requests == seq![
            message_request(
                reply_view(
                    s.thread_for_issue(p.repository->0, p.issue_number->0)->0.thread_id,
                    commented_text(p.commenter->0, p.comment_body->0),
                ),
                conf.braid,
            ),
        ],
{
    lemma_action_names();
}

/// An issue that was opened is announced once, however often the webhook
/// comes: where the first delivery finds a payload that names a configured
/// repository, the creator, the title and the address, an issue that no
/// thread follows and a thread that follows nothing, it adds one row and
/// asks for the message that opens the thread and for the subscription; a
/// second delivery, whatever thread it would open, changes nothing and asks
/// for nothing.
pub proof fn law_opened_twice_announced_once(
    s: StoreView,
    p: PayloadView,
    conf: AppConf,
    first: Id,
    second: Id,
)
    requires
        s.wf(),
        p.action == Some("opened"@),
        p.repository is Some,
        p.issue_number is Some,
        repo_index(conf.repos@, p.repository->0) is Some,
        p.issue_creator is Some,
        p.issue_title is Some,
        p.issue_url is Some,
        !s.watches_issue(p.repository->0, p.issue_number->0),
        !s.watches_thread(first),
    ensures
        ({
            let once = webhook_outcome(s, p, conf, first);
            let twice = webhook_outcome(once.store, p, conf, second);
            let tag = conf.repos@[repo_index(conf.repos@, p.repository->0)->0].tag_id;
            let content = opened_text(p.issue_creator->0, p.issue_title->0, p.issue_url->0);
            &&& once.store.watched == s.watched.push(
                WatchedThreadView {
                    thread_id: first,
                    issue_number: p.issue_number->0,
                    repository: p.repository->0,
                },
            )
            &&& once.store.posted == s.posted
            &&& once.requests == seq![
                message_request(new_thread_view(first, tag, content), conf.braid),
                watch_request(first, conf.braid),
            ]
            &&& twice == nothing_done(once.store)
        }),
{
    lemma_action_names();
    let once = webhook_outcome(s, p, conf, first);
    let n = s.watched.len() as int;
    assert(crate::tracking::about_issue(once.store.watched[n], p.repository->0, p.issue_number->0));
}

/// Whatever a webhook says, it leaves every issue with at most one thread
/// and every thread with at most one issue: a store that is well formed
/// stays so.
pub proof fn law_webhook_keeps_store_well_formed(
    s: StoreView,
    p: PayloadView,
    conf: AppConf,
    thread_id: Id,
)
    requires
        s.wf(),
    ensures
        webhook_outcome(s, p, conf, thread_id).store.wf(),
{
    if p.repository is Some && p.issue_number is Some {
        crate::tracking::law_store_stays_well_formed(
            s,
            thread_id,
            p.repository->0,
            p.issue_number->0,
            0,
        );
    }
}

} // verus!
