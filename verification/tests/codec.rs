use octocat::ids::Id;
use octocat::message::{
    decode_chat_message, encode_chat_message, encode_message_as, halves_of, id_from_halves,
    DecodeError, Message,
};

fn put_str(out: &mut Vec<u8>, s: &str) {
    assert!(s.len() < 32);
    out.push(0xa0 | s.len() as u8);
    out.extend_from_slice(s.as_bytes());
}

fn put_i64(out: &mut Vec<u8>, v: i64) {
    out.push(0xd3);
    out.extend_from_slice(&v.to_be_bytes());
}

fn put_id(out: &mut Vec<u8>, hi: i64, lo: i64) {
    out.push(0x92);
    put_str(out, "~#u");
    out.push(0x92);
    put_i64(out, hi);
    put_i64(out, lo);
}

fn wire_message() -> Vec<u8> {
    let mut out = vec![0x86];
    put_str(&mut out, "~:content");
    put_str(&mut out, "/bot list");
    put_str(&mut out, "~:user-id");
    put_id(&mut out, 3, -3);
    put_str(&mut out, "~:thread-id");
    put_id(&mut out, 2, i64::MIN);
    put_str(&mut out, "~:group-id");
    put_id(&mut out, -1, 1);
    put_str(&mut out, "~:id");
    put_id(&mut out, 9, 9);
    put_str(&mut out, "~:mentioned-tag-ids");
    out.push(0x92);
    put_id(&mut out, 0, 7);
    put_id(&mut out, 0, 8);
    out
}

#[test]
fn a_message_is_read_by_its_keys() {
    let m = decode_chat_message(&wire_message()).unwrap();
    assert_eq!(m.content, "/bot list");
    assert_eq!(m.user_id, Id { value: 0x0000000000000003_fffffffffffffffd });
    assert_eq!(m.thread_id, Id { value: 0x0000000000000002_8000000000000000 });
    assert_eq!(m.group_id, Id { value: 0xffffffffffffffff_0000000000000001 });
    assert_eq!(m.mentioned_tag_ids, vec![Id { value: 7 }, Id { value: 8 }]);
}

#[test]
fn a_message_without_tags_mentions_none() {
    let mut out = vec![0x84];
    put_str(&mut out, "~:group-id");
    put_id(&mut out, 0, 1);
    put_str(&mut out, "~:thread-id");
    put_id(&mut out, 0, 2);
    put_str(&mut out, "~:user-id");
    put_id(&mut out, 0, 3);
    put_str(&mut out, "~:content");
    put_str(&mut out, "");
    let m = decode_chat_message(&out).unwrap();
    assert!(m.mentioned_tag_ids.is_empty());
    assert_eq!(m.content, "");
    assert_eq!(m.thread_id, Id { value: 2 });
}

#[test]
fn the_author_may_stand_under_sender() {
    let mut out = vec![0x84];
    put_str(&mut out, "~:group-id");
    put_id(&mut out, 0, 1);
    put_str(&mut out, "~:thread-id");
    put_id(&mut out, 0, 2);
    put_str(&mut out, "~:sender");
    put_id(&mut out, 0, 3);
    put_str(&mut out, "~:content");
    put_str(&mut out, "hi");
    assert_eq!(decode_chat_message(&out).unwrap().user_id, Id { value: 3 });
    let mut both = vec![0x85];
    put_str(&mut both, "~:group-id");
    put_id(&mut both, 0, 1);
    put_str(&mut both, "~:thread-id");
    put_id(&mut both, 0, 2);
    put_str(&mut both, "~:sender");
    put_id(&mut both, 0, 3);
    put_str(&mut both, "~:user-id");
    put_id(&mut both, 0, 5);
    put_str(&mut both, "~:content");
    put_str(&mut both, "hi");
    assert_eq!(decode_chat_message(&both).unwrap().user_id, Id { value: 5 });
}

#[test]
fn a_message_without_a_required_field_is_refused() {
    for missing in ["~:group-id", "~:thread-id", "~:user-id", "~:content"] {
        let mut out = vec![0x83];
        for key in ["~:group-id", "~:thread-id", "~:user-id"] {
            if key != missing {
                put_str(&mut out, key);
                put_id(&mut out, 0, 1);
            }
        }
        if missing != "~:content" {
            put_str(&mut out, "~:content");
            put_str(&mut out, "hi");
        }
        assert_eq!(decode_chat_message(&out).err(), Some(DecodeError::MissingField));
    }
}

#[test]
fn a_field_of_a_wrong_type_is_refused() {
    let mut text_for_id = vec![0x84];
    put_str(&mut text_for_id, "~:group-id");
    put_str(&mut text_for_id, "~u0000000000000001");
    put_str(&mut text_for_id, "~:thread-id");
    put_id(&mut text_for_id, 0, 2);
    put_str(&mut text_for_id, "~:user-id");
    put_id(&mut text_for_id, 0, 3);
    put_str(&mut text_for_id, "~:content");
    put_str(&mut text_for_id, "hi");
    assert_eq!(decode_chat_message(&text_for_id).err(), Some(DecodeError::MissingField));

    let mut number_for_text = vec![0x84];
    put_str(&mut number_for_text, "~:group-id");
    put_id(&mut number_for_text, 0, 1);
    put_str(&mut number_for_text, "~:thread-id");
    put_id(&mut number_for_text, 0, 2);
    put_str(&mut number_for_text, "~:user-id");
    put_id(&mut number_for_text, 0, 3);
    put_str(&mut number_for_text, "~:content");
    put_i64(&mut number_for_text, 5);
    assert_eq!(decode_chat_message(&number_for_text).err(), Some(DecodeError::MissingField));

    let mut other_tag = vec![0x84];
    put_str(&mut other_tag, "~:group-id");
    other_tag.push(0x92);
    put_str(&mut other_tag, "~#x");
    other_tag.push(0x92);
    put_i64(&mut other_tag, 0);
    put_i64(&mut other_tag, 1);
    put_str(&mut other_tag, "~:thread-id");
    put_id(&mut other_tag, 0, 2);
    put_str(&mut other_tag, "~:user-id");
    put_id(&mut other_tag, 0, 3);
    put_str(&mut other_tag, "~:content");
    put_str(&mut other_tag, "hi");
    assert_eq!(decode_chat_message(&other_tag).err(), Some(DecodeError::MissingField));

    let mut bad_tags = vec![0x85];
    put_str(&mut bad_tags, "~:group-id");
    put_id(&mut bad_tags, 0, 1);
    put_str(&mut bad_tags, "~:thread-id");
    put_id(&mut bad_tags, 0, 2);
    put_str(&mut bad_tags, "~:user-id");
    put_id(&mut bad_tags, 0, 3);
    put_str(&mut bad_tags, "~:content");
    put_str(&mut bad_tags, "hi");
    put_str(&mut bad_tags, "~:mentioned-tag-ids");
    bad_tags.push(0x92);
    put_id(&mut bad_tags, 0, 7);
    put_i64(&mut bad_tags, 8);
    assert_eq!(decode_chat_message(&bad_tags).err(), Some(DecodeError::MissingField));
}

#[test]
fn bytes_that_encode_nothing_are_refused() {
    assert_eq!(decode_chat_message(&[]).err(), Some(DecodeError::Malformed));
    assert_eq!(decode_chat_message(&[0xc1]).err(), Some(DecodeError::Malformed));
    let whole = wire_message();
    assert_eq!(decode_chat_message(&whole[..whole.len() - 3]).err(), Some(DecodeError::Malformed));
    assert_eq!(decode_chat_message(&[0x01]).err(), Some(DecodeError::MissingField));
    assert_eq!(decode_chat_message(&[0x80]).err(), Some(DecodeError::MissingField));
}

#[test]
fn a_message_is_written_as_a_map_of_seven_entries() {
    let msg = Message {
        group_id: Id { value: 0x0000000000000001_ffffffffffffffff },
        thread_id: Id { value: 0x20 },
        user_id: Id { value: 0 },
        mentioned_tag_ids: vec![Id { value: 0x7f }],
        content: "hi".to_string(),
    };
    let mut expected = vec![0x87];
    let short_id = |out: &mut Vec<u8>, hi: u8, lo: u8| {
        out.extend_from_slice(&[0x92, 0xa3, 0x7e, 0x23, 0x75, 0x92, hi, lo]);
    };
    put_str(&mut expected, "~:id");
    short_id(&mut expected, 0x05, 0x06);
    put_str(&mut expected, "~:group-id");
    short_id(&mut expected, 0x01, 0xff);
    put_str(&mut expected, "~:thread-id");
    short_id(&mut expected, 0x00, 0x20);
    put_str(&mut expected, "~:user-id");
    short_id(&mut expected, 0x00, 0x00);
    put_str(&mut expected, "~:mentioned-user-ids");
    expected.push(0x90);
    put_str(&mut expected, "~:mentioned-tag-ids");
    expected.push(0x91);
    short_id(&mut expected, 0x00, 0x7f);
    put_str(&mut expected, "~:content");
    put_str(&mut expected, "hi");
    let id = Id { value: 0x0000000000000005_0000000000000006 };
    assert_eq!(encode_message_as(id, &msg), Some(expected));
}

#[test]
fn what_is_written_is_read_back() {
    let msgs = [
        Message {
            group_id: Id { value: u128::MAX },
            thread_id: Id { value: 0x0123456789abcdef_fedcba9876543210 },
            user_id: Id { value: 0x8000000000000000_8000000000000000 },
            mentioned_tag_ids: vec![Id { value: 1 }, Id { value: u128::MAX - 1 }, Id { value: 0 }],
            content: "New issue opened: https://tracker.example/1 \u{2713}".to_string(),
        },
        Message {
            group_id: Id::nil(),
            thread_id: Id::nil(),
            user_id: Id::nil(),
            mentioned_tag_ids: vec![],
            content: "x".repeat(70000),
        },
    ];
    for msg in msgs {
        for bytes in [
            encode_message_as(Id { value: 77 }, &msg).unwrap(),
            encode_chat_message(&msg).unwrap(),
        ] {
            let back = decode_chat_message(&bytes).unwrap();
            assert_eq!(back.group_id, msg.group_id);
            assert_eq!(back.thread_id, msg.thread_id);
            assert_eq!(back.user_id, msg.user_id);
            assert_eq!(back.mentioned_tag_ids, msg.mentioned_tag_ids);
            assert_eq!(back.content, msg.content);
        }
    }
}

#[test]
fn every_message_gets_an_identifier_of_its_own() {
    let msg = Message {
        group_id: Id::nil(),
        thread_id: Id::nil(),
        user_id: Id::nil(),
        mentioned_tag_ids: vec![],
        content: "hi".to_string(),
    };
    assert_ne!(encode_chat_message(&msg), encode_chat_message(&msg));
}

#[test]
fn identifiers_are_two_halves_with_a_sign() {
    let cases: [(u128, i64, i64); 6] = [
        (0, 0, 0),
        (1, 0, 1),
        (u128::MAX, -1, -1),
        (0x8000000000000000_0000000000000000, i64::MIN, 0),
        (0x7fffffffffffffff_8000000000000000, i64::MAX, i64::MIN),
        (0x0123456789abcdef_fedcba9876543210, 0x0123456789abcdef, -0x0123456789abcdf0),
    ];
    for (value, hi, lo) in cases {
        assert_eq!(halves_of(Id { value }), (hi, lo));
        assert_eq!(id_from_halves(hi, lo), Id { value });
    }
}
