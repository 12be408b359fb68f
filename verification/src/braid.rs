//! Requests to the chat platform. The engine composes them; the host sends
//! them.

use vstd::prelude::*;
use vstd::string::StringExecFns;
use crate::app_conf::BraidConf;
use crate::ids::hyphenated;
use crate::ids::Id;
use crate::message::Message;
use crate::message::MessageView;

verus! {

/// How a request is sent.
#[derive(Clone, Copy, PartialEq, Eq, Structural, Debug)]
pub enum Method {
    Get,
    Put,
}

/// A request to the chat platform, authenticated as the bot. A message, where
/// there is one, is the request's body.
pub struct BraidRequest {
    pub method: Method,
    pub url: String,
    pub username: String,
    pub password: String,
    pub message: Option<Message>,
}

/// What a `BraidRequest` holds.
pub ghost struct BraidRequestView {
    pub method: Method,
    pub url: Seq<char>,
    pub username: Seq<char>,
    pub password: Seq<char>,
    pub message: Option<MessageView>,
}

impl View for BraidRequest {
    type V = BraidRequestView;

    open spec fn view(&self) -> BraidRequestView {
        BraidRequestView {
            method: self.method,
            url: self.url@,
            username: self.username@,
            password: self.password@,
            message: match self.message {
                Some(m) => Some(m@),
                None => None,
            },
        }
    }
}

/// The requests that a list holds.
pub open spec fn requests(v: Seq<BraidRequest>) -> Seq<BraidRequestView> {
    Seq::new(v.len(), |i: int| v[i]@)
}

/// The address of a thread on the chat's site.
pub open spec fn thread_url_text(site_url: Seq<char>, group_id: Id, thread_id: Id) -> Seq<char> {
    site_url + "/"@ + hyphenated(group_id.value) + "/thread/"@ + hyphenated(thread_id.value)
}

/// The request that delivers `message`.
pub open spec fn message_request(message: MessageView, conf: BraidConf) -> BraidRequestView {
    BraidRequestView {
        method: Method::Put,
        url: conf.api_url@ + "/bots/message"@,
        username: conf.app_id@,
        password: conf.token@,
        message: Some(message),
    }
}

/// The request that asks for a user's nickname.
pub open spec fn nick_request(user_id: Id, conf: BraidConf) -> BraidRequestView {
    BraidRequestView {
        method: Method::Get,
        url: conf.api_url@ + "/bots/names/"@ + hyphenated(user_id.value),
        username: conf.app_id@,
        password: conf.token@,
        message: None,
    }
}

/// The request that subscribes the bot to a thread.
pub open spec fn watch_request(thread_id: Id, conf: BraidConf) -> BraidRequestView {
    BraidRequestView {
        method: Method::Put,
        url: conf.api_url@ + "/bots/subscribe/"@ + hyphenated(thread_id.value),
        username: conf.app_id@,
        password: conf.token@,
        message: None,
    }
}

/// The request that delivers `message` into its thread, or opens the thread
/// where the message names a tag and a thread that does not exist yet.
pub fn send_braid_request(message: Message, braid_conf: &BraidConf) -> (r: BraidRequest)
    ensures
        r@ == message_request(message@, *braid_conf),
{
    let mut url = braid_conf.api_url.clone();
    url.append("/bots/message");
    BraidRequest {
        method: Method::Put,
        url,
        username: braid_conf.app_id.clone(),
        password: braid_conf.token.clone(),
        message: Some(message),
    }
}

/// The request that asks the chat platform for the nickname of `user_id`.
pub fn get_user_nick(user_id: Id, braid_conf: &BraidConf) -> (r: BraidRequest)
    ensures
        r@ == nick_request(user_id, *braid_conf),
{
    let mut url = braid_conf.api_url.clone();
    url.append("/bots/names/");
    let id = user_id.hyphenated_text();
    url.append(id.as_str());
    BraidRequest {
        method: Method::Get,
        url,
        username: braid_conf.app_id.clone(),
        password: braid_conf.token.clone(),
        message: None,
    }
}

/// The nickname in the platform's answer to `get_user_nick`: the body of an
/// answer with status 200, and nothing otherwise.
pub fn nick_from_response(status: u16, body: Option<String>) -> (r: Option<String>)
    ensures
        r == if status == 200 {
            body
        } else {
            None
        },
{
    if status == 200 {
        body
    } else {
        None
    }
}

/// The address of the thread that `msg` stands in.
pub fn thread_url(braid_conf: &BraidConf, msg: &Message) -> (r: String)
    ensures
        r@ == thread_url_text(braid_conf.site_url@, msg.group_id, msg.thread_id),
{
    let mut url = braid_conf.site_url.clone();
    url.append("/");
    let group = msg.group_id.hyphenated_text();
    url.append(group.as_str());
    url.append("/thread/");
    let thread = msg.thread_id.hyphenated_text();
    url.append(thread.as_str());
    url
}

/// The request after which the chat platform tells the bot of every message
/// in thread `thread_id`.
pub fn start_watching_thread(thread_id: Id, braid_conf: &BraidConf) -> (r: BraidRequest)
    ensures
        r@ == watch_request(thread_id, *braid_conf),
{
    let mut url = braid_conf.api_url.clone();
    url.append("/bots/subscribe/");
    let id = thread_id.hyphenated_text();
    url.append(id.as_str());
    BraidRequest {
        method: Method::Put,
        url,
        username: braid_conf.app_id.clone(),
        password: braid_conf.token.clone(),
        message: None,
    }
}

} // verus!
