//! Chat messages, as the engine reads and writes them.

use vstd::prelude::*;
use vstd::string::StringExecFns;
use vstd::utf8::encode_utf8;
use crate::ids::Id;
use crate::json::json_integer_at;
use crate::json::json_length_at;
use crate::json::json_text_at;
use crate::msgpack::msgpack_array_len;
use crate::msgpack::msgpack_map_len;
use crate::msgpack::msgpack_parsed;
use crate::msgpack::msgpack_sint;
use crate::msgpack::msgpack_str;
use crate::text::decimal;
use crate::text::digits_text;
use crate::text::same_text;

verus! {

/// One message of the chat: where it stands, who wrote it, what it says, and
/// the tags it mentions. A message that mentions a tag and names a thread
/// that does not exist yet opens that thread under the tag.
pub struct Message {
    pub group_id: Id,
    pub thread_id: Id,
    pub user_id: Id,
    pub mentioned_tag_ids: Vec<Id>,
    pub content: String,
}

/// What a message holds.
pub ghost struct MessageView {
    pub group_id: Id,
    pub thread_id: Id,
    pub user_id: Id,
    pub mentioned_tag_ids: Seq<Id>,
    pub content: Seq<char>,
}

impl View for Message {
    type V = MessageView;

    open spec fn view(&self) -> MessageView {
        MessageView {
            group_id: self.group_id,
            thread_id: self.thread_id,
            user_id: self.user_id,
            mentioned_tag_ids: self.mentioned_tag_ids@,
            content: self.content@,
        }
    }
}

/// The answer to `msg`: same group, thread and user, no tags.
pub open spec fn response_view(msg: MessageView, content: Seq<char>) -> MessageView {
    MessageView {
        group_id: msg.group_id,
        thread_id: msg.thread_id,
        user_id: msg.user_id,
        mentioned_tag_ids: Seq::empty(),
        content,
    }
}

/// A message for an existing thread, from nobody in particular.
pub open spec fn reply_view(thread_id: Id, content: Seq<char>) -> MessageView {
    MessageView {
        group_id: Id { value: 0 },
        thread_id,
        user_id: Id { value: 0 },
        mentioned_tag_ids: Seq::empty(),
        content,
    }
}

/// The message that opens thread `thread_id` under tag `tag_id`.
pub open spec fn new_thread_view(thread_id: Id, tag_id: Id, content: Seq<char>) -> MessageView {
    MessageView {
        group_id: Id { value: 0 },
        thread_id,
        user_id: Id { value: 0 },
        mentioned_tag_ids: seq![tag_id],
        content,
    }
}

impl Clone for Message {
    fn clone(&self) -> (r: Self)
        ensures
            r@ == self@,
    {
        let mut tags: Vec<Id> = Vec::new();
        let mut i: usize = 0;
        while i < self.mentioned_tag_ids.len()
            invariant
                i <= self.mentioned_tag_ids.len(),
                tags@ == self.mentioned_tag_ids@.take(i as int),
            decreases self.mentioned_tag_ids.len() - i,
        {
            tags.push(self.mentioned_tag_ids[i]);
            assert(self.mentioned_tag_ids@.take(i + 1) =~= self.mentioned_tag_ids@.take(
                i as int,
            ).push(self.mentioned_tag_ids@[i as int]));
            i = i + 1;
        }
        assert(self.mentioned_tag_ids@.take(self.mentioned_tag_ids.len() as int)
            =~= self.mentioned_tag_ids@);
        Message {
            group_id: self.group_id,
            thread_id: self.thread_id,
            user_id: self.user_id,
            mentioned_tag_ids: tags,
            content: self.content.clone(),
        }
    }
}

/// Answers `msg` in its own thread.
pub fn response_to(msg: &Message, content: String) -> (r: Message)
    ensures
        r@ == response_view(msg@, content@),
{
    Message {
        group_id: msg.group_id,
        thread_id: msg.thread_id,
        user_id: msg.user_id,
        mentioned_tag_ids: Vec::new(),
        content,
    }
}

/// Writes into the existing thread `thread_id`.
pub fn reply_to_thread(thread_id: Id, content: String) -> (r: Message)
    ensures
        r@ == reply_view(thread_id, content@),
{
    Message {
        group_id: Id::nil(),
        thread_id,
        user_id: Id::nil(),
        mentioned_tag_ids: Vec::new(),
        content,
    }
}

/// Opens the thread `thread_id` under the tag `tag_id`.
pub fn new_thread_msg_in(thread_id: Id, tag_id: Id, content: String) -> (r: Message)
    ensures
        r@ == new_thread_view(thread_id, tag_id, content@),
{
    let mut tags: Vec<Id> = Vec::new();
    tags.push(tag_id);
    Message {
        group_id: Id::nil(),
        thread_id,
        user_id: Id::nil(),
        mentioned_tag_ids: tags,
        content,
    }
}

/// Opens a thread under the tag `tag_id`, with an identifier drawn at random.
pub fn new_thread_msg(tag_id: Id, content: String) -> (r: Message)
    ensures
        r@ == new_thread_view(r.thread_id, tag_id, content@),
{
    new_thread_msg_in(Id::random(), tag_id, content)
}

/// Why a request's body could not be read.
#[derive(Clone, Copy, PartialEq, Eq, Structural, Debug)]
pub enum DecodeError {
    /// The body does not encode a document.
    Malformed,
    /// The document lacks a field that is called for, or holds it with
    /// another type.
    MissingField,
}

/// The number below 2^64 that the 64 bits of `half` spell without a sign.
pub open spec fn unsigned(half: i64) -> int {
    if half < 0 {
        half + 0x1_0000_0000_0000_0000
    } else {
        half as int
    }
}

/// The number that the 64 bits of `half` spell with a sign, for
/// `0 <= half < 2^64`.
pub open spec fn signed(half: int) -> i64 {
    if half >= 0x8000_0000_0000_0000 {
        (half - 0x1_0000_0000_0000_0000) as i64
    } else {
        half as i64
    }
}

/// The identifier that the wire spells as two halves of 64 bits, the high
/// one first, each as an integer with a sign.
pub open spec fn id_of_halves(hi: i64, lo: i64) -> Id {
    Id { value: (unsigned(hi) * 0x1_0000_0000_0000_0000 + unsigned(lo)) as u128 }
}

/// The high half of an identifier, as the wire spells it.
pub open spec fn high_half(id: Id) -> i64 {
    signed(id.value as int / 0x1_0000_0000_0000_0000)
}

/// The low half of an identifier, as the wire spells it.
pub open spec fn low_half(id: Id) -> i64 {
    signed(id.value as int % 0x1_0000_0000_0000_0000)
}

/// An identifier is the one that its two halves spell.
pub proof fn law_halves_spell_the_id(id: Id)
    ensures
        id_of_halves(high_half(id), low_half(id)) == id,
{
}

/// Two halves are those of the identifier that they spell.
pub proof fn law_id_keeps_its_halves(hi: i64, lo: i64)
    ensures
        high_half(id_of_halves(hi, lo)) == hi,
        low_half(id_of_halves(hi, lo)) == lo,
{
}

/// The 64 bits of `half`, read without a sign.
fn unsigned_of(half: i64) -> (r: u64)
    ensures
        r == unsigned(half),
{
    if half < 0 {
        let above: i64 = half + 0x7fff_ffff_ffff_ffff + 1;
        let low: u64 = above as u64;
        low + 0x8000_0000_0000_0000
    } else {
        half as u64
    }
}

/// The 64 bits of `half`, read with a sign.
fn signed_of(half: u64) -> (r: i64)
    ensures
        r == signed(half as int),
{
    if half >= 0x8000_0000_0000_0000 {
        let below: u64 = half - 0x8000_0000_0000_0000;
        let low: i64 = below as i64;
        low - 0x7fff_ffff_ffff_ffff - 1
    } else {
        half as i64
    }
}

/// The identifier that two halves spell.
pub fn id_from_halves(hi: i64, lo: i64) -> (r: Id)
    ensures
        r == id_of_halves(hi, lo),
{
    let h: u128 = unsigned_of(hi) as u128;
    let l: u128 = unsigned_of(lo) as u128;
    Id { value: h * 0x1_0000_0000_0000_0000 + l }
}

/// The two halves of an identifier, the high one first.
pub fn halves_of(id: Id) -> (r: (i64, i64))
    ensures
        r.0 == high_half(id),
        r.1 == low_half(id),
{
    let h: u128 = id.value / 0x1_0000_0000_0000_0000;
    let l: u128 = id.value % 0x1_0000_0000_0000_0000;
    (signed_of(h as u64), signed_of(l as u64))
}

/// The identifier at a place of a document: a list of the tag `~#u` and of
/// the list of the two halves.
pub open spec fn id_at(doc: serde_json::Value, place: Seq<char>) -> Option<Id> {
    if json_text_at(doc, place + "/0"@) == Some("~#u"@) && json_integer_at(doc, place + "/1/0"@)
        is Some && json_integer_at(doc, place + "/1/1"@) is Some {
        Some(
            id_of_halves(
                json_integer_at(doc, place + "/1/0"@)->0,
                json_integer_at(doc, place + "/1/1"@)->0,
            ),
        )
    } else {
        None
    }
}

/// The place of the `i`-th of the tags that a message mentions.
pub open spec fn tag_place(i: int) -> Seq<char> {
    "/~0:mentioned-tag-ids/"@ + decimal(i)
}

/// The tags that a document mentions: none where it has no list of them,
/// and nothing where an element of the list is no identifier.
pub open spec fn tags_in(doc: serde_json::Value) -> Option<Seq<Id>> {
    match json_length_at(doc, "/~0:mentioned-tag-ids"@) {
        None => Some(Seq::empty()),
        Some(n) => if forall|i: int| 0 <= i < n ==> (#[trigger] id_at(doc, tag_place(i))) is Some {
            Some(Seq::new(n, |i: int| id_at(doc, tag_place(i))->0))
        } else {
            None
        },
    }
}

/// The author that a document names: under `~:user-id`, or else under
/// `~:sender`.
pub open spec fn author_in(doc: serde_json::Value) -> Option<Id> {
    if id_at(doc, "/~0:user-id"@) is Some {
        id_at(doc, "/~0:user-id"@)
    } else {
        id_at(doc, "/~0:sender"@)
    }
}

/// The message that a document holds under the keys `~:group-id`,
/// `~:thread-id`, `~:user-id` or `~:sender`, `~:content` and
/// `~:mentioned-tag-ids`, of which only the last may be missing.
pub open spec fn message_in(doc: serde_json::Value) -> Option<MessageView> {
    if id_at(doc, "/~0:group-id"@) is Some && id_at(doc, "/~0:thread-id"@) is Some && author_in(
        doc,
    ) is Some && json_text_at(doc, "/~0:content"@) is Some && tags_in(doc) is Some {
        Some(
            MessageView {
                group_id: id_at(doc, "/~0:group-id"@)->0,
                thread_id: id_at(doc, "/~0:thread-id"@)->0,
                user_id: author_in(doc)->0,
                mentioned_tag_ids: tags_in(doc)->0,
                content: json_text_at(doc, "/~0:content"@)->0,
            },
        )
    } else {
        None
    }
}

/// Reads the identifier at a place of a document.
fn read_id(doc: &serde_json::Value, place: &str) -> (r: Option<Id>)
    ensures
        r == id_at(*doc, place@),
{
    let mut tag_place = String::from_str(place);
    tag_place.append("/0");
    let mut hi_place = String::from_str(place);
    hi_place.append("/1/0");
    let mut lo_place = String::from_str(place);
    lo_place.append("/1/1");
    let tag = match crate::json::text_at(doc, tag_place.as_str()) {
        Some(t) => t,
        None => { return None; },
    };
    if !same_text(tag.as_str(), "~#u") {
        return None;
    }
    let hi = match crate::json::integer_at(doc, hi_place.as_str()) {
        Some(h) => h,
        None => { return None; },
    };
    let lo = match crate::json::integer_at(doc, lo_place.as_str()) {
        Some(l) => l,
        None => { return None; },
    };
    Some(id_from_halves(hi, lo))
}

/// Reads the tags that a document mentions.
fn read_tags(doc: &serde_json::Value) -> (r: Option<Vec<Id>>)
    ensures
        match r {
            Some(tags) => tags_in(*doc) == Some(tags@),
            None => tags_in(*doc) is None,
        },
{
    let mut tags: Vec<Id> = Vec::new();
    let n = match crate::json::length_at(doc, "/~0:mentioned-tag-ids") {
        Some(n) => n,
        None => { return Some(tags); },
    };
    let mut i: usize = 0;
    while i < n
        invariant
            i <= n,
            json_length_at(*doc, "/~0:mentioned-tag-ids"@) == Some(n as nat),
            tags@.len() == i,
            forall|k: int| 0 <= k < i ==> (#[trigger] id_at(*doc, tag_place(k))) == Some(tags@[k]),
        decreases n - i,
    {
        let mut place = String::from_str("/~0:mentioned-tag-ids/");
        let index = digits_text(i as u64);
        place.append(index.as_str());
        match read_id(doc, place.as_str()) {
            Some(id) => tags.push(id),
            None => {
                assert(id_at(*doc, tag_place(i as int)) is None);
                return None;
            },
        }
        i = i + 1;
    }
    Some(tags)
}

/// Reads the message that a document holds.
pub fn message_of(doc: &serde_json::Value) -> (r: Option<Message>)
    ensures
        match r {
            Some(m) => message_in(*doc) == Some(m@),
            None => message_in(*doc) is None,
        },
{
    let group_id = match read_id(doc, "/~0:group-id") {
        Some(id) => id,
        None => { return None; },
    };
    let thread_id = match read_id(doc, "/~0:thread-id") {
        Some(id) => id,
        None => { return None; },
    };
    let user_id = match read_id(doc, "/~0:user-id") {
        Some(id) => id,
        None => match read_id(doc, "/~0:sender") {
            Some(id) => id,
            None => { return None; },
        },
    };
    let content = match crate::json::text_at(doc, "/~0:content") {
        Some(t) => t,
        None => { return None; },
    };
    match read_tags(doc) {
        Some(mentioned_tag_ids) => Some(
            Message { group_id, thread_id, user_id, mentioned_tag_ids, content },
        ),
        None => None,
    }
}

/// What the body of a request from the chat platform holds: a message, or
/// the reason why none can be read from it.
pub open spec fn decoded(body: Seq<u8>) -> Result<MessageView, DecodeError> {
    match msgpack_parsed(body) {
        None => Err(DecodeError::Malformed),
        Some(doc) => match message_in(doc) {
            Some(m) => Ok(m),
            None => Err(DecodeError::MissingField),
        },
    }
}

/// Reads a message from the body of a request from the chat platform.
pub fn decode_chat_message(body: &[u8]) -> (r: Result<Message, DecodeError>)
    ensures
        match r {
            Ok(m) => decoded(body@) == Ok::<MessageView, DecodeError>(m@),
            Err(e) => decoded(body@) == Err::<MessageView, DecodeError>(e),
        },
{
    match crate::msgpack::parse(body) {
        None => Err(DecodeError::Malformed),
        Some(doc) => match message_of(&doc) {
            Some(m) => Ok(m),
            None => Err(DecodeError::MissingField),
        },
    }
}

/// The bytes of an identifier on the wire.
pub open spec fn id_bytes(id: Id) -> Seq<u8> {
    msgpack_array_len(2) + msgpack_str("~#u"@) + msgpack_array_len(2) + msgpack_sint(high_half(id))
        + msgpack_sint(low_half(id))
}

/// The bytes of the first `n` of a list of identifiers.
pub open spec fn ids_bytes(ids: Seq<Id>, n: int) -> Seq<u8>
    decreases n,
{
    if n <= 0 {
        Seq::empty()
    } else {
        ids_bytes(ids, n - 1) + id_bytes(ids[n - 1])
    }
}

/// Whether a message can be written: the number of its tags and the number
/// of bytes of its text each fit 32 bits.
pub open spec fn encodable(m: MessageView) -> bool {
    m.mentioned_tag_ids.len() <= u32::MAX && encode_utf8(m.content).len() <= u32::MAX
}

/// The bytes of a message on the wire: a map of seven entries, of which
/// `~:id` names the message itself and `~:mentioned-user-ids` is empty.
pub open spec fn message_bytes(id: Id, m: MessageView) -> Seq<u8> {
    msgpack_map_len(7) + msgpack_str("~:id"@) + id_bytes(id) + msgpack_str("~:group-id"@)
        + id_bytes(m.group_id) + msgpack_str("~:thread-id"@) + id_bytes(m.thread_id) + msgpack_str(
        "~:user-id"@,
    ) + id_bytes(m.user_id) + msgpack_str("~:mentioned-user-ids"@) + msgpack_array_len(0)
        + msgpack_str("~:mentioned-tag-ids"@) + msgpack_array_len(m.mentioned_tag_ids.len() as u32)
        + ids_bytes(m.mentioned_tag_ids, m.mentioned_tag_ids.len() as int) + msgpack_str(
        "~:content"@,
    ) + msgpack_str(m.content)
}

/// Writes an identifier.
fn write_id(buf: &mut Vec<u8>, id: Id)
    ensures
        final(buf)@ == old(buf)@ + id_bytes(id),
{
    let (hi, lo) = halves_of(id);
    crate::msgpack::write_array_len(buf, 2);
    crate::msgpack::write_str(buf, "~#u");
    crate::msgpack::write_array_len(buf, 2);
    crate::msgpack::write_sint(buf, hi);
    crate::msgpack::write_sint(buf, lo);
}

/// Writes a message under the identifier `id`, if it can be written.
pub fn encode_message_as(id: Id, msg: &Message) -> (r: Option<Vec<u8>>)
    ensures
        match r {
            Some(bytes) => encodable(msg@) && bytes@ == message_bytes(id, msg@),
            None => !encodable(msg@),
        },
{
    if msg.mentioned_tag_ids.len() > 0xffff_ffff || msg.content.as_str().as_bytes().len() > 0xffff_ffff {
        return None;
    }
    let count: u32 = msg.mentioned_tag_ids.len() as u32;
    let mut buf: Vec<u8> = Vec::new();
    crate::msgpack::write_map_len(&mut buf, 7);
    crate::msgpack::write_str(&mut buf, "~:id");
    write_id(&mut buf, id);
    crate::msgpack::write_str(&mut buf, "~:group-id");
    write_id(&mut buf, msg.group_id);
    crate::msgpack::write_str(&mut buf, "~:thread-id");
    write_id(&mut buf, msg.thread_id);
    crate::msgpack::write_str(&mut buf, "~:user-id");
    write_id(&mut buf, msg.user_id);
    crate::msgpack::write_str(&mut buf, "~:mentioned-user-ids");
    crate::msgpack::write_array_len(&mut buf, 0);
    crate::msgpack::write_str(&mut buf, "~:mentioned-tag-ids");
    crate::msgpack::write_array_len(&mut buf, count);
    let ghost head = buf@;
    let mut i: usize = 0;
    while i < msg.mentioned_tag_ids.len()
        invariant
            i <= msg.mentioned_tag_ids.len(),
            buf@ == head + ids_bytes(msg.mentioned_tag_ids@, i as int),
        decreases msg.mentioned_tag_ids.len() - i,
    {
        write_id(&mut buf, msg.mentioned_tag_ids[i]);
        i = i + 1;
    }
    crate::msgpack::write_str(&mut buf, "~:content");
    crate::msgpack::write_str(&mut buf, msg.content.as_str());
    Some(buf)
}

/// Writes a message for the chat platform, if it can be written, under an
/// identifier drawn at random.
pub fn encode_chat_message(msg: &Message) -> (r: Option<Vec<u8>>)
    ensures
        r is Some == encodable(msg@),
        r matches Some(bytes) ==> exists|id: Id| bytes@ == #[trigger] message_bytes(id, msg@),
{
    let id = Id::random();
    encode_message_as(id, msg)
}

} // verus!
