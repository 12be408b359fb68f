use octocat::app_conf::{AppConf, BraidConf, GeneralConf, GithubConf, RepoConf};
use octocat::braid::{
    get_user_nick, nick_from_response, send_braid_request, start_watching_thread, thread_url,
    Method,
};
use octocat::github::{
    comment_id_from_response, create_issue, issue_from_response, record_posted_comment,
    update_from_braid,
};
use octocat::ids::Id;
use octocat::message::{new_thread_msg, new_thread_msg_in, reply_to_thread, response_to, Message};
use octocat::tracking::{did_we_post_comment, setup_tables, WatchedThread};

fn conf_for_requests() -> AppConf {
    AppConf {
        general: GeneralConf { port: 8080, db_name: "bridge.db".to_string() },
        braid: BraidConf {
            name: "bot".to_string(),
            api_url: "https://chat.example/api".to_string(),
            site_url: "https://chat.example".to_string(),
            app_id: "app".to_string(),
            token: "secret".to_string(),
        },
        github: GithubConf { webhook_secret: "hook".to_string() },
        repos: vec![RepoConf {
            token: "t1".to_string(),
            org: "acme".to_string(),
            repo: "widgets".to_string(),
            tag_id: Id { value: 0xaa },
        }],
    }
}

fn chat_message() -> Message {
    Message {
        group_id: Id { value: 0x0123456789abcdef_fedcba9876543210 },
        thread_id: Id { value: 0xffffffff_ffff_ffff_ffff_ffffffffffff },
        user_id: Id { value: 0x5 },
        mentioned_tag_ids: vec![Id { value: 9 }],
        content: "it still breaks".to_string(),
    }
}

#[test]
fn thread_urls_spell_identifiers_with_hyphens() {
    let conf = conf_for_requests();
    assert_eq!(
        thread_url(&conf.braid, &chat_message()),
        "https://chat.example/01234567-89ab-cdef-fedc-ba9876543210/thread/ffffffff-ffff-ffff-ffff-ffffffffffff"
    );
    let mut nil = chat_message();
    nil.group_id = Id::nil();
    nil.thread_id = Id { value: 0xa0b0c0d0 };
    assert_eq!(
        thread_url(&conf.braid, &nil),
        "https://chat.example/00000000-0000-0000-0000-000000000000/thread/00000000-0000-0000-0000-0000a0b0c0d0"
    );
}

#[test]
fn a_message_is_put_to_the_bots_endpoint() {
    let conf = conf_for_requests();
    let request = send_braid_request(chat_message(), &conf.braid);
    assert_eq!(request.method, Method::Put);
    assert_eq!(request.url, "https://chat.example/api/bots/message");
    assert_eq!(request.username, "app");
    assert_eq!(request.password, "secret");
    let m = request.message.unwrap();
    assert_eq!(m.content, "it still breaks");
    assert_eq!(m.user_id, Id { value: 5 });
    assert_eq!(m.mentioned_tag_ids, vec![Id { value: 9 }]);
}

#[test]
fn a_nickname_is_asked_for_by_the_users_identifier() {
    let conf = conf_for_requests();
    let request = get_user_nick(Id { value: 0x0123456789abcdef_fedcba9876543210 }, &conf.braid);
    assert_eq!(request.method, Method::Get);
    assert_eq!(
        request.url,
        "https://chat.example/api/bots/names/01234567-89ab-cdef-fedc-ba9876543210"
    );
    assert_eq!(request.username, "app");
    assert_eq!(request.password, "secret");
    assert!(request.message.is_none());
}

#[test]
fn only_an_answer_with_status_200_gives_a_nickname() {
    assert_eq!(nick_from_response(200, Some("alice".to_string())), Some("alice".to_string()));
    assert_eq!(nick_from_response(200, None), None);
    assert_eq!(nick_from_response(404, Some("not found".to_string())), None);
    assert_eq!(nick_from_response(201, Some("alice".to_string())), None);
}

#[test]
fn a_thread_is_subscribed_to_by_its_identifier() {
    let conf = conf_for_requests();
    let request = start_watching_thread(Id { value: 0x10 }, &conf.braid);
    assert_eq!(request.method, Method::Put);
    assert_eq!(
        request.url,
        "https://chat.example/api/bots/subscribe/00000000-0000-0000-0000-000000000010"
    );
    assert!(request.message.is_none());
}

#[test]
fn an_answer_stays_in_the_thread_of_what_it_answers() {
    let msg = chat_message();
    let r = response_to(&msg, "ok".to_string());
    assert_eq!(r.group_id, msg.group_id);
    assert_eq!(r.thread_id, msg.thread_id);
    assert_eq!(r.user_id, msg.user_id);
    assert!(r.mentioned_tag_ids.is_empty());
    assert_eq!(r.content, "ok");
}

#[test]
fn a_reply_names_its_thread_and_nothing_else() {
    let r = reply_to_thread(Id { value: 3 }, "hello".to_string());
    assert_eq!(r.thread_id, Id { value: 3 });
    assert_eq!(r.group_id, Id::nil());
    assert_eq!(r.user_id, Id::nil());
    assert!(r.mentioned_tag_ids.is_empty());
    assert_eq!(r.content, "hello");
}

#[test]
fn a_new_thread_is_opened_under_its_tag() {
    let m = new_thread_msg_in(Id { value: 3 }, Id { value: 4 }, "hello".to_string());
    assert_eq!(m.thread_id, Id { value: 3 });
    assert_eq!(m.mentioned_tag_ids, vec![Id { value: 4 }]);
    assert_eq!(m.group_id, Id::nil());
    assert_eq!(m.user_id, Id::nil());
    assert_eq!(m.content, "hello");
    let a = new_thread_msg(Id { value: 4 }, "hello".to_string());
    let b = new_thread_msg(Id { value: 4 }, "hello".to_string());
    assert_eq!(a.mentioned_tag_ids, vec![Id { value: 4 }]);
    assert_eq!(a.content, "hello");
    assert_ne!(a.thread_id, b.thread_id);
}

#[test]
fn a_copy_of_a_message_holds_the_same() {
    let msg = chat_message();
    let copy = msg.clone();
    assert_eq!(copy.group_id, msg.group_id);
    assert_eq!(copy.thread_id, msg.thread_id);
    assert_eq!(copy.user_id, msg.user_id);
    assert_eq!(copy.mentioned_tag_ids, msg.mentioned_tag_ids);
    assert_eq!(copy.content, msg.content);
}

#[test]
fn an_issue_is_asked_for_with_title_and_text() {
    let conf = conf_for_requests();
    let request = create_issue(&conf.repos[0], "Fix it".to_string(), "It broke.".to_string());
    assert_eq!(request.token, "t1");
    assert_eq!(request.url, "https://api.github.com/repos/acme/widgets/issues");
    assert_eq!(request.body, "{\"body\":\"It broke.\",\"title\":\"Fix it\"}");
}

#[test]
fn a_chat_message_becomes_a_comment_on_the_issue() {
    let conf = conf_for_requests();
    let thread = WatchedThread {
        thread_id: Id { value: 0x20 },
        issue_number: 42,
        repository: "acme/widgets".to_string(),
    };
    let mut msg = chat_message();
    msg.group_id = Id { value: 0x10 };
    msg.thread_id = Id { value: 0x20 };
    let request = update_from_braid(&thread, &msg, &conf, Some("alice".to_string())).unwrap();
    assert_eq!(request.token, "t1");
    assert_eq!(request.url, "https://api.github.com/repos/acme/widgets/issues/42/comments");
    let body: serde_json::Value = serde_json::from_str(&request.body).unwrap();
    assert_eq!(
        body["body"],
        "alice commented via [braid](https://chat.example/00000000-0000-0000-0000-000000000010/thread/00000000-0000-0000-0000-000000000020):\nit still breaks"
    );
    assert_eq!(body.as_object().unwrap().len(), 1);
}

#[test]
fn an_author_without_a_nickname_is_a_chat_user() {
    let conf = conf_for_requests();
    let thread = WatchedThread {
        thread_id: Id { value: 0x20 },
        issue_number: 7,
        repository: "acme/widgets".to_string(),
    };
    let mut msg = chat_message();
    msg.group_id = Id { value: 0x10 };
    msg.thread_id = Id { value: 0x20 };
    let request = update_from_braid(&thread, &msg, &conf, None).unwrap();
    assert_eq!(
        request.body,
        "{\"body\":\"a chat user commented via [braid](https://chat.example/00000000-0000-0000-0000-000000000010/thread/00000000-0000-0000-0000-000000000020):\\nit still breaks\"}"
    );
}

#[test]
fn issue_numbers_are_written_in_decimal() {
    let conf = conf_for_requests();
    let numbers = [
        (0, "0"),
        (9, "9"),
        (10, "10"),
        (1234567890, "1234567890"),
        (-7, "-7"),
        (i64::MAX, "9223372036854775807"),
        (i64::MIN, "-9223372036854775808"),
    ];
    for (n, text) in numbers {
        let thread = WatchedThread {
            thread_id: Id { value: 1 },
            issue_number: n,
            repository: "acme/widgets".to_string(),
        };
        let request = update_from_braid(&thread, &chat_message(), &conf, None).unwrap();
        assert_eq!(
            request.url,
            format!("https://api.github.com/repos/acme/widgets/issues/{}/comments", text)
        );
    }
}

#[test]
fn a_thread_of_an_unknown_repository_gets_no_comment() {
    let conf = conf_for_requests();
    let thread = WatchedThread {
        thread_id: Id { value: 1 },
        issue_number: 1,
        repository: "acme/unknown".to_string(),
    };
    assert!(update_from_braid(&thread, &chat_message(), &conf, None).is_none());
}

#[test]
fn the_trackers_answer_tells_of_the_issue() {
    let issue = issue_from_response(br#"{"html_url": "https://t.example/1", "number": 17}"#).unwrap();
    assert_eq!(issue.url, "https://t.example/1");
    assert_eq!(issue.number, 17);
    assert!(issue_from_response(br#"{"html_url": "https://t.example/1"}"#).is_none());
    assert!(issue_from_response(br#"{"number": 17}"#).is_none());
    assert!(issue_from_response(br#"{"html_url": 5, "number": 17}"#).is_none());
    assert!(issue_from_response(br#"{"html_url": "u", "number": "17"}"#).is_none());
    assert!(issue_from_response(br#"{"html_url": "u", "number": 17.5}"#).is_none());
    assert!(issue_from_response(br#"{"html_url": "u", "number": 18446744073709551615}"#).is_none());
    assert!(issue_from_response(b"no json").is_none());
}

#[test]
fn the_trackers_answer_tells_of_the_comment() {
    assert_eq!(comment_id_from_response(br#"{"id": 99, "body": "x"}"#), Some(99));
    assert_eq!(comment_id_from_response(br#"{"id": -3}"#), Some(-3));
    assert_eq!(comment_id_from_response(br#"{"id": "99"}"#), None);
    assert_eq!(comment_id_from_response(br#"{"body": "x"}"#), None);
    assert_eq!(comment_id_from_response(b"no json"), None);
}

#[test]
fn a_posted_comment_is_put_on_record() {
    let mut store = setup_tables();
    let t = Id { value: 0x20 };
    assert!(record_posted_comment(br#"{"id": 99}"#, t, &mut store));
    assert!(did_we_post_comment(t, 99, &store));
    assert!(!record_posted_comment(br#"{"message": "Not Found"}"#, t, &mut store));
    assert!(!record_posted_comment(b"", t, &mut store));
    assert_eq!(store.posted_len(), 1);
}
