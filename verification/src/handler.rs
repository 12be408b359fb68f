//! Authentication of what comes in: no request is read further unless its
//! signature, a keyed hash of its body, is the one that the sender's secret
//! gives.

use vstd::prelude::*;
use vstd::utf8::decode_utf8;
use vstd::utf8::encode_utf8;
use vstd::utf8::valid_utf8;
use crate::app_conf::AppConf;
use crate::braid::get_user_nick;
use crate::braid::nick_request;
use crate::braid::requests;
use crate::braid::BraidRequest;
use crate::braid::BraidRequestView;
use crate::commands::command_step;
use crate::commands::leading_name_stripped;
use crate::commands::parse_command;
use crate::commands::CommandStep;
use crate::commands::CommandStepView;
use crate::github::body_outcome;
use crate::github::decode_webhook_payload;
use crate::github::nothing_done;
use crate::github::route_webhook;
use crate::github::Outcome;
use crate::ids::Id;
use crate::message::decode_chat_message;
use crate::message::decoded;
use crate::message::Message;
use crate::message::MessageView;
use crate::text::split_at_first;
use crate::tracking::issue_for_thread;
use crate::tracking::CorrelationStore;
use crate::tracking::StoreView;
use crate::tracking::WatchedThread;
use crate::tracking::WatchedThreadView;

verus! {

/// What `rustc_serialize::hex::FromHex::from_hex` reads from a text: the
/// bytes that its hexadecimal digits spell, or nothing where it refuses it.
pub uninterp spec fn hex_decoded(text: Seq<char>) -> Option<Seq<u8>>;

/// The HMAC of `data` under `key` with SHA-256, as OpenSSL computes it.
pub uninterp spec fn hmac_sha256(key: Seq<u8>, data: Seq<u8>) -> Seq<u8>;

/// The HMAC of `data` under `key` with SHA-1, as OpenSSL computes it.
pub uninterp spec fn hmac_sha1(key: Seq<u8>, data: Seq<u8>) -> Seq<u8>;

/// The longest key that OpenSSL takes.
pub const MAX_KEY_LEN: usize = 0x7fff_ffff;

/// `std::str::from_utf8`: the text that the bytes encode, where they are
/// valid UTF-8, and nothing where they are not.
#[verifier::external_body]
fn utf8_text(bytes: &[u8]) -> (r: Option<&str>)
    ensures
        r is Some == valid_utf8(bytes@),
        r matches Some(s) ==> s@ == decode_utf8(bytes@),
{
    std::str::from_utf8(bytes).ok()
}

/// `rustc_serialize::hex::FromHex::from_hex` on a `str`: the bytes that the
/// text spells in hexadecimal.
#[verifier::external_body]
fn from_hex(text: &str) -> (r: Option<Vec<u8>>)
    ensures
        match r {
            Some(bytes) => hex_decoded(text@) == Some(bytes@),
            None => hex_decoded(text@) is None,
        },
{
    rustc_serialize::hex::FromHex::from_hex(text).ok()
}

/// `openssl::sign::Signer` over `openssl::pkey::PKey::hmac` with
/// `MessageDigest::sha256`: the MAC, whenever OpenSSL gives one. The key's
/// length is bounded because `PKey::hmac` panics beyond it.
#[verifier::external_body]
fn sha256_mac(key: &[u8], data: &[u8]) -> (r: Option<Vec<u8>>)
    requires
        key@.len() <= MAX_KEY_LEN,
    ensures
        r matches Some(mac) ==> mac@ == hmac_sha256(key@, data@),
{
    let pkey = openssl::pkey::PKey::hmac(key).ok()?;
    let digest = openssl::hash::MessageDigest::sha256();
    let mut signer = openssl::sign::Signer::new(digest, &pkey).ok()?;
    signer.update(data).ok()?;
    signer.sign_to_vec().ok()
}

/// `openssl::sign::Signer` over `openssl::pkey::PKey::hmac` with
/// `MessageDigest::sha1`: the MAC, whenever OpenSSL gives one. The key's
/// length is bounded because `PKey::hmac` panics beyond it.
#[verifier::external_body]
fn sha1_mac(key: &[u8], data: &[u8]) -> (r: Option<Vec<u8>>)
    requires
        key@.len() <= MAX_KEY_LEN,
    ensures
        r matches Some(mac) ==> mac@ == hmac_sha1(key@, data@),
{
    let pkey = openssl::pkey::PKey::hmac(key).ok()?;
    let digest = openssl::hash::MessageDigest::sha1();
    let mut signer = openssl::sign::Signer::new(digest, &pkey).ok()?;
    signer.update(data).ok()?;
    signer.sign_to_vec().ok()
}

/// Whether the two byte strings are equal. Every byte is looked at, whatever
/// the bytes before it were, so that the time taken tells nothing of where
/// two strings of one length differ.
pub fn same_bytes(a: &[u8], b: &[u8]) -> (r: bool)
    ensures
        r == (a@ == b@),
{
    if a.len() != b.len() {
        return false;
    }
    let mut diff: u8 = 0;
    let mut i: usize = 0;
    while i < a.len()
        invariant
            a.len() == b.len(),
            i <= a.len(),
            diff == 0 <==> (forall|k: int| 0 <= k < i ==> a@[k] == b@[k]),
        decreases a.len() - i,
    {
        let x: u8 = a[i];
        let y: u8 = b[i];
        let ghost before = diff;
        diff = diff | (x ^ y);
        assert(diff == 0 <==> (before == 0 && x == y)) by (bit_vector)
            requires
                diff == before | (x ^ y),
        ;
        i = i + 1;
    }
    if diff == 0 {
        assert(a@ =~= b@);
    }
    diff == 0
}

/// Whether a claimed MAC is the computed one. A MAC that could not be read
/// or could not be computed matches nothing.
pub fn mac_accepted(claimed: &Option<Vec<u8>>, computed: &Option<Vec<u8>>) -> (r: bool)
    ensures
        r == (claimed is Some && computed is Some && claimed->0@ == computed->0@),
{
    match (claimed, computed) {
        (Some(c), Some(g)) => same_bytes(c.as_slice(), g.as_slice()),
        _ => false,
    }
}

/// The part of `s` behind its first `=`, or all of `s` where it holds none.
pub open spec fn after_equals(s: Seq<char>) -> Seq<char> {
    match s.index_of_first('=') {
        Some(i) => s.skip(i + 1),
        None => s,
    }
}

/// Whether `mac` is, in hexadecimal, the SHA-256 HMAC of `data` under `key`.
pub open spec fn braid_signature_ok(mac: Seq<u8>, key: Seq<u8>, data: Seq<u8>) -> bool {
    valid_utf8(mac) && hex_decoded(decode_utf8(mac)) == Some(hmac_sha256(key, data))
}

/// Whether `mac`, read behind its first `=`, is in hexadecimal the SHA-1
/// HMAC of `data` under `key`.
pub open spec fn github_signature_ok(mac: Seq<u8>, key: Seq<u8>, data: Seq<u8>) -> bool {
    valid_utf8(mac) && hex_decoded(after_equals(decode_utf8(mac))) == Some(hmac_sha1(key, data))
}

/// Checks the signature of a request from the chat platform. Only a
/// signature that is the MAC of exactly this body under this key is
/// accepted; one that is no text, no hexadecimal, or made under a key that
/// is too long for a MAC to be computed is refused.
pub fn verify_braid_hmac(mac: &[u8], key: &[u8], data: &[u8]) -> (r: bool)
    ensures
        r ==> braid_signature_ok(mac@, key@, data@),
        r ==> key@.len() <= MAX_KEY_LEN,
{
    let claimed = match utf8_text(mac) {
        Some(text) => from_hex(text),
        None => None,
    };
    if claimed.is_none() || key.len() > MAX_KEY_LEN {
        return false;
    }
    let computed = sha256_mac(key, data);
    mac_accepted(&claimed, &computed)
}

/// The text behind the first `=` of `text`, or all of it where it holds none.
pub fn hex_part(text: &str) -> (r: &str)
    ensures
        r@ == after_equals(text@),
{
    match split_at_first(text, '=') {
        Some((_, tail)) => tail,
        None => text,
    }
}

/// Checks the signature of a webhook from the tracker, which has the form
/// of an algorithm's name, `=`, and the MAC in hexadecimal. Only a signature
/// whose hexadecimal part is the MAC of exactly this body under this key is
/// accepted.
pub fn verify_github_hmac(mac: &[u8], key: &[u8], data: &[u8]) -> (r: bool)
    ensures
        r ==> github_signature_ok(mac@, key@, data@),
        r ==> key@.len() <= MAX_KEY_LEN,
{
    let claimed = match utf8_text(mac) {
        Some(text) => from_hex(hex_part(text)),
        None => None,
    };
    if claimed.is_none() || key.len() > MAX_KEY_LEN {
        return false;
    }
    let computed = sha1_mac(key, data);
    mac_accepted(&claimed, &computed)
}

/// How a request is answered.
#[derive(Clone, Copy, PartialEq, Eq, Structural, Debug)]
pub enum Status {
    /// 200: the signature is good. What the body asks for is done, or
    /// dropped without a word where it cannot be read.
    Accepted,
    /// 401: the request has no signature.
    Unauthorized,
    /// 403: the request's signature is not the one its body calls for.
    Forbidden,
}

impl Status {
    /// The number of the status.
    pub fn code(self) -> (r: u16)
        ensures
            r == match self {
                Status::Accepted => 200u16,
                Status::Unauthorized => 401u16,
                Status::Forbidden => 403u16,
            },
    {
        match self {
            Status::Accepted => 200,
            Status::Unauthorized => 401,
            Status::Forbidden => 403,
        }
    }
}

/// How a request is answered, given what the check of its signature
/// said: nothing where it has no signature, and else whether it is good.
pub open spec fn status_for(verdict: Option<bool>) -> Status {
    match verdict {
        None => Status::Unauthorized,
        Some(good) => if good {
            Status::Accepted
        } else {
            Status::Forbidden
        },
    }
}

/// How a request is answered, given what the check of its signature said.
pub fn status_of(verdict: Option<bool>) -> (r: Status)
    ensures
        r == status_for(verdict),
{
    match verdict {
        None => Status::Unauthorized,
        Some(true) => Status::Accepted,
        Some(false) => Status::Forbidden,
    }
}

/// What a chat message leads to.
pub enum ChatStep {
    /// The message stands in a thread that follows an issue: it becomes a
    /// comment on the issue. First the author's nickname is asked for; the
    /// answer goes to `update_from_braid`.
    Comment { thread: WatchedThread, request: BraidRequest },
    /// The message stands in no such thread: it is a command.
    Command(CommandStep),
}

/// What a `ChatStep` holds.
pub ghost enum ChatStepView {
    Comment { thread: WatchedThreadView, request: BraidRequestView },
    Command(CommandStepView),
}

impl View for ChatStep {
    type V = ChatStepView;

    open spec fn view(&self) -> ChatStepView {
        match self {
            ChatStep::Comment { thread, request } => ChatStepView::Comment {
                thread: thread@,
                request: request@,
            },
            ChatStep::Command(step) => ChatStepView::Command(step@),
        }
    }
}

/// What a chat message leads to: a comment where its thread follows an
/// issue, and a command otherwise.
pub open spec fn chat_step(s: StoreView, msg: MessageView, conf: AppConf) -> ChatStepView {
    match s.issue_for_thread(msg.thread_id) {
        Some(thread) => ChatStepView::Comment {
            thread,
            request: nick_request(msg.user_id, conf.braid),
        },
        None => ChatStepView::Command(
            command_step(leading_name_stripped(msg.content), msg, conf),
        ),
    }
}

/// Decides what a chat message, whose signature was found good, leads to.
pub fn dispatch_message(msg: &Message, conf: &AppConf, store: &CorrelationStore) -> (r: ChatStep)
    requires
        store.wf(),
    ensures
        r@ == chat_step(store@, msg@, *conf),
{
    match issue_for_thread(msg.thread_id, store) {
        Some(thread) => ChatStep::Comment { thread, request: get_user_nick(msg.user_id, &conf.braid) },
        None => ChatStep::Command(parse_command(msg, conf)),
    }
}

/// What a request from the chat platform leads to once its signature was
/// found good: nothing where no message can be read from its body, and
/// otherwise the message and the step that it asks for.
pub open spec fn body_step(s: StoreView, body: Seq<u8>, conf: AppConf) -> Option<
    (MessageView, ChatStepView),
> {
    match decoded(body) {
        Ok(msg) => Some((msg, chat_step(s, msg, conf))),
        Err(_) => None,
    }
}

/// What a pair of a message and a step holds.
pub open spec fn step_view(step: Option<(Message, ChatStep)>) -> Option<
    (MessageView, ChatStepView),
> {
    match step {
        Some((msg, step)) => Some((msg@, step@)),
        None => None,
    }
}

/// What a request that delivers a chat message leads to, given what the
/// check of its signature said: only a body whose signature is good is
/// read.
pub open spec fn message_answer(verdict: Option<bool>, s: StoreView, body: Seq<u8>, conf: AppConf)
    -> (Status, Option<(MessageView, ChatStepView)>) {
    (
        status_for(verdict),
        if verdict == Some(true) {
            body_step(s, body, conf)
        } else {
            None
        },
    )
}

/// Answers a request that delivers a chat message, given what the check
/// of its signature said, and decides what the message leads to.
pub fn answer_braid_message(
    verdict: Option<bool>,
    body: &[u8],
    conf: &AppConf,
    store: &CorrelationStore,
) -> (r: (Status, Option<(Message, ChatStep)>))
    requires
        store.wf(),
    ensures
        (r.0, step_view(r.1)) == message_answer(verdict, store@, body@, *conf),
{
    let status = status_of(verdict);
    match status {
        Status::Accepted => match decode_chat_message(body) {
            Ok(msg) => {
                let step = dispatch_message(&msg, conf, store);
                (status, Some((msg, step)))
            },
            Err(_) => (status, None),
        },
        _ => (status, None),
    }
}

/// Answers a request that delivers a chat message, and decides what the
/// message leads to: 401 without a signature, 403 unless the signature is
/// found good, and in both cases nothing is read; 200 otherwise, with the
/// message and its step, or with nothing where the body holds no message.
pub fn handle_braid_message(
    mac: Option<&[u8]>,
    body: &[u8],
    conf: &AppConf,
    store: &CorrelationStore,
) -> (r: (Status, Option<(Message, ChatStep)>))
    requires
        store.wf(),
    ensures
        r.0 == Status::Unauthorized <==> mac is None,
        r.0 == Status::Accepted ==> braid_signature_ok(
            mac->0@,
            encode_utf8(conf.braid.token@),
            body@,
        ),
        r.0 != Status::Accepted ==> r.1 is None,
        r.0 == Status::Accepted ==> step_view(r.1) == body_step(store@, body@, *conf),
{
    let verdict = match mac {
        None => None,
        Some(m) => Some(verify_braid_hmac(m, conf.braid.token.as_str().as_bytes(), body)),
    };
    answer_braid_message(verdict, body, conf, store)
}

/// What a webhook of the tracker leads to, given what the check of its
/// signature said: only a body whose signature is good is read and acted
/// on.
pub open spec fn webhook_answer(
    verdict: Option<bool>,
    s: StoreView,
    body: Seq<u8>,
    conf: AppConf,
    thread_id: Id,
) -> (Status, Outcome) {
    (
        status_for(verdict),
        if verdict == Some(true) {
            body_outcome(s, body, conf, thread_id)
        } else {
            nothing_done(s)
        },
    )
}

/// Answers a webhook of the tracker, given what the check of its signature
/// said, and does what it asks for; `thread_id` names the thread to open,
/// should one be opened.
pub fn answer_github_webhook(
    verdict: Option<bool>,
    body: &[u8],
    conf: &AppConf,
    store: &mut CorrelationStore,
    thread_id: Id,
) -> (r: (Status, Vec<BraidRequest>))
    requires
        old(store).wf(),
    ensures
        final(store).wf(),
        r.0 == webhook_answer(verdict, old(store)@, body@, *conf, thread_id).0,
        final(store)@ == webhook_answer(verdict, old(store)@, body@, *conf, thread_id).1.store,
        requests(r.1@) == webhook_answer(verdict, old(store)@, body@, *conf, thread_id).1.requests,
{
    let status = status_of(verdict);
    let none: Vec<BraidRequest> = Vec::new();
    match status {
        Status::Accepted => match decode_webhook_payload(body) {
            Ok(payload) => (status, route_webhook(&payload, conf, store, thread_id)),
            Err(_) => (status, none),
        },
        _ => (status, none),
    }
}

/// Answers a webhook of the tracker, and does what it asks for: 401 without
/// a signature, 403 unless the signature is found good, and in both cases
/// nothing is done; 200 otherwise, with the requests that the body leads
/// to. A thread that is opened gets an identifier drawn at random.
pub fn handle_github_webhook(
    mac: Option<&[u8]>,
    body: &[u8],
    conf: &AppConf,
    store: &mut CorrelationStore,
) -> (r: (Status, Vec<BraidRequest>))
    requires
        old(store).wf(),
    ensures
        final(store).wf(),
        r.0 == Status::Unauthorized <==> mac is None,
        r.0 == Status::Accepted ==> github_signature_ok(
            mac->0@,
            encode_utf8(conf.github.webhook_secret@),
            body@,
        ),
        r.0 != Status::Accepted ==> final(store)@ == old(store)@ && r.1@.len() == 0,
        r.0 == Status::Accepted ==> exists|thread_id: Id|
            {
                &&& final(store)@ == (#[trigger] body_outcome(
                    old(store)@,
                    body@,
                    *conf,
                    thread_id,
                )).store
                &&& requests(r.1@) == body_outcome(old(store)@, body@, *conf, thread_id).requests
            },
{
    let verdict = match mac {
        None => None,
        Some(m) => Some(
            verify_github_hmac(m, conf.github.webhook_secret.as_str().as_bytes(), body),
        ),
    };
    let thread_id = Id::random();
    let out = answer_github_webhook(verdict, body, conf, store, thread_id);
    assert(out.0 != Status::Accepted ==> requests(out.1@).len() == 0);
    out
}

/// The signature that is computed for a body is good for it: a header that
/// spells the body's MAC in hexadecimal, for the tracker behind a name
/// without `=` and one `=`, satisfies what the two checks ask for.
pub proof fn law_signature_of_body_is_good(
    hex: Seq<char>,
    algorithm: Seq<char>,
    key: Seq<u8>,
    data: Seq<u8>,
)
    requires
        !algorithm.contains('='),
    ensures
        hex_decoded(hex) == Some(hmac_sha256(key, data)) ==> braid_signature_ok(
            encode_utf8(hex),
            key,
            data,
        ),
        hex_decoded(hex) == Some(hmac_sha1(key, data)) ==> github_signature_ok(
            encode_utf8(algorithm + seq!['='] + hex),
            key,
            data,
        ),
{
    vstd::utf8::encode_utf8_valid_utf8(hex);
    vstd::utf8::encode_utf8_decode_utf8(hex);
    let header = algorithm + seq!['='] + hex;
    vstd::utf8::encode_utf8_valid_utf8(header);
    vstd::utf8::encode_utf8_decode_utf8(header);
    header.index_of_first_ensures('=');
    let n = algorithm.len() as int;
    assert(header[n] == '=');
    assert(header.skip(n + 1) =~= hex);
}

/// A signature that is good for one body is good for no body with another
/// MAC: with the header unchanged, a body that was tampered with is refused.
pub proof fn law_signature_binds_body(mac: Seq<u8>, key: Seq<u8>, data: Seq<u8>, other: Seq<u8>)
    ensures
        braid_signature_ok(mac, key, data) && hmac_sha256(key, other) != hmac_sha256(key, data)
            ==> !braid_signature_ok(mac, key, other),
        github_signature_ok(mac, key, data) && hmac_sha1(key, other) != hmac_sha1(key, data)
            ==> !github_signature_ok(mac, key, other),
{
}

} // verus!
