//! Commands: what a chat message asks of the bot, and what the bot answers.

use vstd::prelude::*;
use vstd::string::StringExecFns;
use crate::app_conf::AppConf;
use crate::app_conf::RepoConf;
use crate::braid::message_request;
use crate::braid::requests;
use crate::braid::send_braid_request;
use crate::braid::thread_url;
use crate::braid::thread_url_text;
use crate::braid::BraidRequest;
use crate::braid::BraidRequestView;
use crate::github::create_issue;
use crate::github::find_repo_conf;
use crate::github::issue_from_response;
use crate::github::issue_in;
use crate::github::issue_request;
use crate::github::nothing_done;
use crate::github::repo_index;
use crate::github::GithubRequest;
use crate::github::GithubRequestView;
use crate::github::Outcome;
use crate::ids::Id;
use crate::json::json_parsed;
use crate::message::new_thread_msg_in;
use crate::message::new_thread_view;
use crate::message::response_to;
use crate::message::response_view;
use crate::message::Message;
use crate::message::MessageView;
use crate::text::join_from;
use crate::text::joined;
use crate::text::same_text;
use crate::text::texts;
use crate::text::words;
use crate::text::words_of;
use crate::tracking::add_watched_thread;
use crate::tracking::CorrelationStore;
use crate::tracking::StoreView;

verus! {

/// What `regex::Regex::replace` makes of `haystack` when the leftmost match
/// of `pattern` in it is replaced by `replacement`; nothing where
/// `regex::Regex::new` refuses the pattern.
pub uninterp spec fn regex_replaced(
    pattern: Seq<char>,
    haystack: Seq<char>,
    replacement: Seq<char>,
) -> Option<Seq<char>>;

/// `regex::Regex::new`, then `regex::Regex::replace`: `haystack` with the
/// leftmost match of `pattern` replaced.
#[verifier::external_body]
fn replace_first(pattern: &str, haystack: &str, replacement: &str) -> (r: Option<String>)
    ensures
        match r {
            Some(text) => regex_replaced(pattern@, haystack@, replacement@) == Some(text@),
            None => regex_replaced(pattern@, haystack@, replacement@) is None,
        },
{
    let re = regex::Regex::new(pattern).ok()?;
    Some(re.replace(haystack, replacement).into_owned())
}

/// A message's text without the bot's name in front: a `/`, word characters
/// and a word's end, at the very start, are taken away.
pub open spec fn leading_name_stripped(content: Seq<char>) -> Seq<char> {
    match regex_replaced("^/(\\w+)\\b"@, content, ""@) {
        Some(rest) => rest,
        None => content,
    }
}

/// Takes the bot's name away from the front of a message's text.
pub fn strip_leading_name(msg: &str) -> (r: String)
    ensures
        r@ == leading_name_stripped(msg@),
{
    match replace_first("^/(\\w+)\\b", msg, "") {
        Some(rest) => rest,
        None => String::from_str(msg),
    }
}

/// What the bot says of itself.
pub open spec fn help_text(bot: Seq<char>) -> Seq<char> {
    "'/"@ + bot + " help' will make me respond with this message\n"@ + "'/"@ + bot
        + " list' will get you the connected github repos\n"@ + "'/"@ + bot
        + " create <repo> <text...>' and I'll create an issue in <repo> with the title 'text...'\n"@
}

/// Owner and short name of the first `n` repositories, one to a line.
pub open spec fn repos_text(repos: Seq<RepoConf>, n: int) -> Seq<char>
    decreases n,
{
    if n <= 0 {
        Seq::empty()
    } else {
        repos_text(repos, n - 1) + repos[n - 1].org@ + "/"@ + repos[n - 1].repo@ + "\n"@
    }
}

/// The text of an issue that was opened from the chat.
pub open spec fn issue_text(bot: Seq<char>, thread_url: Seq<char>) -> Seq<char> {
    "Created by "@ + bot + " bot from [chat]("@ + thread_url + ")"@
}

/// What a command leads to.
pub enum CommandStep {
    /// An answer into the chat.
    Reply(BraidRequest),
    /// A request to the tracker to open an issue in `repo`. What the tracker
    /// answers goes to `issue_created`.
    CreateIssue { request: GithubRequest, repo: RepoConf },
}

/// What a `CommandStep` holds.
pub ghost enum CommandStepView {
    Reply(BraidRequestView),
    CreateIssue { request: GithubRequestView, repo: RepoConf },
}

impl View for CommandStep {
    type V = CommandStepView;

    open spec fn view(&self) -> CommandStepView {
        match self {
            CommandStep::Reply(r) => CommandStepView::Reply(r@),
            CommandStep::CreateIssue { request, repo } => CommandStepView::CreateIssue {
                request: request@,
                repo: *repo,
            },
        }
    }
}

/// The answer with text `content` to `msg`, in its own thread.
pub open spec fn reply_step(msg: MessageView, content: Seq<char>, conf: AppConf)
    -> CommandStepView {
    CommandStepView::Reply(message_request(response_view(msg, content), conf.braid))
}

/// What `create` leads to: the second word selects the repository and the
/// words after it are the title. Without a repository that the word selects
/// the answer is an apology.
pub open spec fn create_step(ws: Seq<Seq<char>>, msg: MessageView, conf: AppConf)
    -> CommandStepView {
    if ws.len() < 2 || repo_index(conf.repos@, ws[1]) is None {
        reply_step(msg, "Don't know which repo you mean, sorry"@, conf)
    } else {
        let repo = conf.repos@[repo_index(conf.repos@, ws[1])->0];
        CommandStepView::CreateIssue {
            request: issue_request(
                repo,
                joined(ws, 2, ws.len() as int),
                issue_text(
                    conf.braid.name@,
                    thread_url_text(conf.braid.site_url@, msg.group_id, msg.thread_id),
                ),
            ),
            repo,
        }
    }
}

/// What the command in `body` leads to: `list` is answered with the
/// repositories, `create` opens an issue, and everything else, no word at
/// all included, is answered with the help text.
pub open spec fn command_step(body: Seq<char>, msg: MessageView, conf: AppConf)
    -> CommandStepView {
    let ws = words_of(body);
    if ws.len() > 0 && ws[0] == "list"@ {
        reply_step(msg, repos_text(conf.repos@, conf.repos@.len() as int), conf)
    } else if ws.len() > 0 && ws[0] == "create"@ {
        create_step(ws, msg, conf)
    } else {
        reply_step(msg, help_text(conf.braid.name@), conf)
    }
}

/// The answer that tells what the bot can do.
fn send_help_response(msg: &Message, conf: &AppConf) -> (r: CommandStep)
    ensures
        r@ == reply_step(msg@, help_text(conf.braid.name@), *conf),
{
    let bot = conf.braid.name.as_str();
    let mut help = String::from_str("'/");
    help.append(bot);
    help.append(" help' will make me respond with this message\n");
    help.append("'/");
    help.append(bot);
    help.append(" list' will get you the connected github repos\n");
    help.append("'/");
    help.append(bot);
    help.append(
        " create <repo> <text...>' and I'll create an issue in <repo> with the title 'text...'\n",
    );
    CommandStep::Reply(send_braid_request(response_to(msg, help), &conf.braid))
}

/// The answer that lists the configured repositories, in their order.
fn send_repos_list(msg: &Message, conf: &AppConf) -> (r: CommandStep)
    ensures
        r@ == reply_step(msg@, repos_text(conf.repos@, conf.repos@.len() as int), *conf),
{
    let mut reply = String::new();
    let mut i: usize = 0;
    while i < conf.repos.len()
        invariant
            i <= conf.repos.len(),
            reply@ == repos_text(conf.repos@, i as int),
        decreases conf.repos.len() - i,
    {
        reply.append(conf.repos[i].org.as_str());
        reply.append("/");
        reply.append(conf.repos[i].repo.as_str());
        reply.append("\n");
        i = i + 1;
    }
    CommandStep::Reply(send_braid_request(response_to(msg, reply), &conf.braid))
}

/// The step that `create` leads to, given the words of the command.
fn create_github_issue(ws: &Vec<String>, msg: &Message, conf: &AppConf) -> (r: CommandStep)
    ensures
        r@ == create_step(texts(ws@), msg@, *conf),
{
    let repo_conf = if ws.len() < 2 {
        None
    } else {
        find_repo_conf(ws[1].as_str(), conf)
    };
    match repo_conf {
        Some(repo) => {
            let title = join_from(ws, 2);
            let mut content = String::from_str("Created by ");
            content.append(conf.braid.name.as_str());
            content.append(" bot from [chat](");
            let link = thread_url(&conf.braid, msg);
            content.append(link.as_str());
            content.append(")");
            assert(content@ =~= issue_text(
                conf.braid.name@,
                thread_url_text(conf.braid.site_url@, msg.group_id, msg.thread_id),
            ));
            CommandStep::CreateIssue { request: create_issue(repo, title, content), repo: repo.clone() }
        },
        None => {
            let err_resp = String::from_str("Don't know which repo you mean, sorry");
            CommandStep::Reply(send_braid_request(response_to(msg, err_resp), &conf.braid))
        },
    }
}

/// Reads the command in `body`, a message's text without the bot's name.
pub fn interpret_command(body: &str, msg: &Message, conf: &AppConf) -> (r: CommandStep)
    ensures
        r@ == command_step(body@, msg@, *conf),
{
    let ws = words(body);
    if ws.len() > 0 {
        if same_text(ws[0].as_str(), "list") {
            return send_repos_list(msg, conf);
        }
        if same_text(ws[0].as_str(), "create") {
            return create_github_issue(&ws, msg, conf);
        }
    }
    send_help_response(msg, conf)
}

/// Reads the command that a message addressed to the bot holds.
pub fn parse_command(msg: &Message, conf: &AppConf) -> (r: CommandStep)
    ensures
        r@ == command_step(leading_name_stripped(msg.content@), msg@, *conf),
{
    let body = strip_leading_name(msg.content.as_str());
    interpret_command(body.as_str(), msg, conf)
}

/// The full name of a repository: owner, `/`, short name.
pub open spec fn full_name(repo: RepoConf) -> Seq<char> {
    repo.org@ + "/"@ + repo.repo@
}

/// What is done once the tracker has answered the request to open an issue
/// for `msg`. Where the answer tells of the issue, thread `thread_id` is
/// opened under the repository's tag, announces the issue and follows it,
/// unless the store refuses the pair, and then nothing is done. Where there
/// is no answer, or none that tells of an issue, `msg` is answered with an
/// apology and the store stays as it is.
pub open spec fn created_outcome(
    s: StoreView,
    response: Option<Seq<u8>>,
    msg: MessageView,
    repo: RepoConf,
    conf: AppConf,
    thread_id: Id,
) -> Outcome {
    let issue = match response {
        Some(body) => issue_in(json_parsed(body)),
        None => None,
    };
    match issue {
        Some((url, number)) => if s.watches_thread(thread_id) || s.watches_issue(
            full_name(repo),
            number,
        ) {
            nothing_done(s)
        } else {
            Outcome {
                store: s.add_watched_thread(thread_id, full_name(repo), number),
                requests: seq![
                    message_request(
                        new_thread_view(thread_id, repo.tag_id, "New issue opened: "@ + url),
                        conf.braid,
                    ),
                ],
            }
        },
        None => Outcome {
            store: s,
            requests: seq![
                message_request(response_view(msg, "Couldn't create issue, sorry"@), conf.braid),
            ],
        },
    }
}

/// The bytes that an optional answer holds.
pub open spec fn bytes_of(response: Option<&[u8]>) -> Option<Seq<u8>> {
    match response {
        Some(body) => Some(body@),
        None => None,
    }
}

/// Handles the tracker's answer to the request that `parse_command` made
/// for `msg`; `response` is the answer's body, if one came, and `thread_id`
/// names the thread to open.
pub fn issue_created_in(
    response: Option<&[u8]>,
    msg: &Message,
    repo: &RepoConf,
    conf: &AppConf,
    store: &mut CorrelationStore,
    thread_id: Id,
) -> (r: Vec<BraidRequest>)
    requires
        old(store).wf(),
    ensures
        final(store).wf(),
        final(store)@ == created_outcome(
            old(store)@,
            bytes_of(response),
            msg@,
            *repo,
            *conf,
            thread_id,
        ).store,
        requests(r@) == created_outcome(
            old(store)@,
            bytes_of(response),
            msg@,
            *repo,
            *conf,
            thread_id,
        ).requests,
{
    let mut out: Vec<BraidRequest> = Vec::new();
    let issue = match response {
        Some(body) => issue_from_response(body),
        None => None,
    };
    match issue {
        Some(gh_issue) => {
            let mut name = repo.org.clone();
            name.append("/");
            name.append(repo.repo.as_str());
            if add_watched_thread(thread_id, name, gh_issue.number, store).is_err() {
                return out;
            }
            let mut content = String::from_str("New issue opened: ");
            content.append(gh_issue.url.as_str());
            let opening = new_thread_msg_in(thread_id, repo.tag_id, content);
            out.push(send_braid_request(opening, &conf.braid));
        },
        None => {
            let err_resp = String::from_str("Couldn't create issue, sorry");
            out.push(send_braid_request(response_to(msg, err_resp), &conf.braid));
        },
    }
    proof {
        let o = created_outcome(old(store)@, bytes_of(response), msg@, *repo, *conf, thread_id);
    }
    out
}

/// Handles the tracker's answer to the request that `parse_command` made
/// for `msg`. A thread that is opened gets an identifier drawn at random.
pub fn issue_created(
    response: Option<&[u8]>,
    msg: &Message,
    repo: &RepoConf,
    conf: &AppConf,
    store: &mut CorrelationStore,
) -> (r: Vec<BraidRequest>)
    requires
        old(store).wf(),
    ensures
        final(store).wf(),
        exists|thread_id: Id|
            {
                &&& final(store)@ == (#[trigger] created_outcome(
                    old(store)@,
                    bytes_of(response),
                    msg@,
                    *repo,
                    *conf,
                    thread_id,
                )).store
                &&& requests(r@) == created_outcome(
                    old(store)@,
                    bytes_of(response),
                    msg@,
                    *repo,
                    *conf,
                    thread_id,
                ).requests
            },
{
    let thread_id = Id::random();
    let out = issue_created_in(response, msg, repo, conf, store, thread_id);
    assert(final(store)@ == created_outcome(
        old(store)@,
        bytes_of(response),
        msg@,
        *repo,
        *conf,
        thread_id,
    ).store);
    out
}

} // verus!
