use octocat::app_conf::{AppConf, BraidConf, GeneralConf, GithubConf, RepoConf};
use octocat::braid::Method;
use octocat::commands::{
    interpret_command, issue_created, issue_created_in, parse_command, strip_leading_name,
    CommandStep,
};
use octocat::github::find_repo_conf;
use octocat::handler::{dispatch_message, ChatStep};
use octocat::ids::Id;
use octocat::message::Message;
use octocat::tracking::{add_watched_thread, setup_tables, thread_for_issue};

fn conf_for_commands() -> AppConf {
    AppConf {
        general: GeneralConf { port: 8080, db_name: "bridge.db".to_string() },
        braid: BraidConf {
            name: "bot".to_string(),
            api_url: "https://chat.example/api".to_string(),
            site_url: "https://chat.example".to_string(),
            app_id: "app".to_string(),
            token: "secret".to_string(),
        },
        github: GithubConf { webhook_secret: "hook".to_string() },
        repos: vec![
            RepoConf {
                token: "t1".to_string(),
                org: "acme".to_string(),
                repo: "widgets".to_string(),
                tag_id: Id { value: 0xaa },
            },
            RepoConf {
                token: "t2".to_string(),
                org: "acme".to_string(),
                repo: "gadgets".to_string(),
                tag_id: Id { value: 0xbb },
            },
            RepoConf {
                token: "t3".to_string(),
                org: "other".to_string(),
                repo: "widgets".to_string(),
                tag_id: Id { value: 0xcc },
            },
        ],
    }
}

fn two_repos() -> AppConf {
    let mut conf = conf_for_commands();
    conf.repos.pop();
    conf
}

fn message_saying(content: &str) -> Message {
    Message {
        group_id: Id { value: 0x10 },
        thread_id: Id { value: 0x20 },
        user_id: Id { value: 0x30 },
        mentioned_tag_ids: vec![],
        content: content.to_string(),
    }
}

fn reply_of(step: CommandStep) -> Message {
    match step {
        CommandStep::Reply(request) => {
            assert_eq!(request.method, Method::Put);
            assert_eq!(request.url, "https://chat.example/api/bots/message");
            assert_eq!(request.username, "app");
            assert_eq!(request.password, "secret");
            request.message.unwrap()
        }
        CommandStep::CreateIssue { .. } => panic!("a reply was expected"),
    }
}

const HELP: &str = "'/bot help' will make me respond with this message\n\
'/bot list' will get you the connected github repos\n\
'/bot create <repo> <text...>' and I'll create an issue in <repo> with the title 'text...'\n";

#[test]
fn the_bots_name_is_stripped_from_the_front() {
    assert_eq!(strip_leading_name("/bot list"), " list");
    assert_eq!(strip_leading_name("/bot"), "");
    assert_eq!(strip_leading_name("/octo_cat2 create a b"), " create a b");
    assert_eq!(strip_leading_name("list"), "list");
    assert_eq!(strip_leading_name(" /bot list"), " /bot list");
    assert_eq!(strip_leading_name("say /bot list"), "say /bot list");
    assert_eq!(strip_leading_name("/ list"), "/ list");
    assert_eq!(strip_leading_name("/bot/list"), "/list");
    assert_eq!(strip_leading_name(""), "");
}

#[test]
fn list_replies_with_the_repositories_in_order() {
    let conf = two_repos();
    let msg = message_saying("/bot list");
    let reply = reply_of(parse_command(&msg, &conf));
    assert_eq!(reply.content, "acme/widgets\nacme/gadgets\n");
    assert_eq!(reply.thread_id, msg.thread_id);
    assert_eq!(reply.group_id, msg.group_id);
    assert_eq!(reply.user_id, msg.user_id);
    assert!(reply.mentioned_tag_ids.is_empty());
}

#[test]
fn list_without_repositories_replies_with_nothing_to_read() {
    let mut conf = two_repos();
    conf.repos.clear();
    let reply = reply_of(parse_command(&message_saying("/bot list"), &conf));
    assert_eq!(reply.content, "");
}

#[test]
fn help_and_everything_unknown_reply_with_the_help_text() {
    let conf = two_repos();
    for content in ["/bot help", "/bot", "/bot frobnicate", "", "   ", "/bot List", "help", "/bot listen"] {
        let reply = reply_of(parse_command(&message_saying(content), &conf));
        assert_eq!(reply.content, HELP);
        assert_eq!(reply.thread_id, Id { value: 0x20 });
    }
}

#[test]
fn the_help_text_has_three_lines_and_names_the_bot() {
    let mut conf = two_repos();
    conf.braid.name = "octo".to_string();
    let reply = reply_of(parse_command(&message_saying("/octo help"), &conf));
    assert_eq!(reply.content.lines().count(), 3);
    assert!(reply.content.lines().all(|l| l.starts_with("'/octo ")));
}

#[test]
fn create_asks_the_tracker_for_an_issue() {
    let conf = two_repos();
    let msg = message_saying("/bot create widgets Fix the thing");
    match parse_command(&msg, &conf) {
        CommandStep::CreateIssue { request, repo } => {
            assert_eq!(request.url, "https://api.github.com/repos/acme/widgets/issues");
            assert_eq!(request.token, "t1");
            let body: serde_json::Value = serde_json::from_str(&request.body).unwrap();
            assert_eq!(body["title"], "Fix the thing");
            assert_eq!(
                body["body"],
                "Created by bot bot from [chat](https://chat.example/00000000-0000-0000-0000-000000000010/thread/00000000-0000-0000-0000-000000000020)"
            );
            assert_eq!(body.as_object().unwrap().len(), 2);
            assert_eq!(repo.repo, "widgets");
            assert_eq!(repo.org, "acme");
            assert_eq!(repo.tag_id, Id { value: 0xaa });
        }
        CommandStep::Reply(_) => panic!("a request to the tracker was expected"),
    }
}

#[test]
fn the_request_for_an_issue_is_written_as_json() {
    let conf = two_repos();
    let msg = message_saying("create gadgets say \"hi\"");
    match interpret_command(&msg.content, &msg, &conf) {
        CommandStep::CreateIssue { request, .. } => {
            assert_eq!(
                request.body,
                "{\"body\":\"Created by bot bot from [chat](https://chat.example/00000000-0000-0000-0000-000000000010/thread/00000000-0000-0000-0000-000000000020)\",\"title\":\"say \\\"hi\\\"\"}"
            );
        }
        CommandStep::Reply(_) => panic!("a request to the tracker was expected"),
    }
}

#[test]
fn the_title_is_the_words_after_the_repository() {
    let conf = two_repos();
    let titles = [
        ("/bot create widgets Fix the thing", "Fix the thing"),
        ("/bot   create \t widgets   Fix \n the   thing  ", "Fix the thing"),
        ("/bot create widgets", ""),
        ("/bot create widgets one", "one"),
        ("/bot create acme/gadgets a/b c", "a/b c"),
    ];
    for (content, title) in titles {
        match parse_command(&message_saying(content), &conf) {
            CommandStep::CreateIssue { request, .. } => {
                let body: serde_json::Value = serde_json::from_str(&request.body).unwrap();
                assert_eq!(body["title"], title);
            }
            CommandStep::Reply(_) => panic!("a request to the tracker was expected"),
        }
    }
}

#[test]
fn an_unknown_repository_gets_an_apology_and_no_request() {
    let conf = two_repos();
    for content in ["/bot create unknownrepo Fix the thing", "/bot create", "/bot create acme/unknown x", "/bot create other/widgets x"] {
        let msg = message_saying(content);
        let reply = reply_of(parse_command(&msg, &conf));
        assert_eq!(reply.content, "Don't know which repo you mean, sorry");
        assert_eq!(reply.thread_id, msg.thread_id);
    }
}

#[test]
fn the_first_repository_that_matches_is_taken() {
    let conf = conf_for_commands();
    assert_eq!(find_repo_conf("widgets", &conf).unwrap().token, "t1");
    assert_eq!(find_repo_conf("gadgets", &conf).unwrap().token, "t2");
    assert_eq!(find_repo_conf("acme/widgets", &conf).unwrap().token, "t1");
    assert_eq!(find_repo_conf("other/widgets", &conf).unwrap().token, "t3");
    assert!(find_repo_conf("other/gadgets", &conf).is_none());
    assert!(find_repo_conf("acme", &conf).is_none());
    assert!(find_repo_conf("acme/", &conf).is_none());
    assert!(find_repo_conf("/widgets", &conf).is_none());
    assert!(find_repo_conf("acme/widgets/x", &conf).is_none());
    assert!(find_repo_conf("", &conf).is_none());
    assert!(find_repo_conf("Widgets", &conf).is_none());
}

#[test]
fn a_created_issue_is_announced_in_a_new_thread() {
    let conf = two_repos();
    let mut store = setup_tables();
    let msg = message_saying("/bot create widgets Fix the thing");
    let answer = br#"{"html_url": "https://tracker.example/acme/widgets/issues/5", "number": 5, "id": 1}"#;
    let t = Id { value: 0x99 };
    let out = issue_created_in(Some(&answer[..]), &msg, &conf.repos[0], &conf, &mut store, t);
    assert_eq!(out.len(), 1);
    assert_eq!(out[0].method, Method::Put);
    assert_eq!(out[0].url, "https://chat.example/api/bots/message");
    let m = out[0].message.as_ref().unwrap();
    assert_eq!(m.thread_id, t);
    assert_eq!(m.mentioned_tag_ids, vec![Id { value: 0xaa }]);
    assert_eq!(m.content, "New issue opened: https://tracker.example/acme/widgets/issues/5");
    assert_eq!(thread_for_issue("acme/widgets", 5, &store).unwrap().thread_id, t);
}

#[test]
fn a_created_issue_gets_a_thread_of_its_own() {
    let conf = two_repos();
    let mut store = setup_tables();
    let msg = message_saying("/bot create widgets Fix the thing");
    let answer = br#"{"html_url": "u", "number": 5}"#;
    let out = issue_created(Some(&answer[..]), &msg, &conf.repos[0], &conf, &mut store);
    assert_eq!(out.len(), 1);
    let m = out[0].message.as_ref().unwrap();
    assert_ne!(m.thread_id, msg.thread_id);
    assert_eq!(store.watched_len(), 1);
    assert_eq!(store.watched_at(0).unwrap().thread_id, m.thread_id);
    assert_eq!(store.watched_at(0).unwrap().repository, "acme/widgets");
    assert_eq!(store.watched_at(0).unwrap().issue_number, 5);
}

#[test]
fn a_failed_creation_gets_an_apology_and_no_record() {
    let conf = two_repos();
    let mut store = setup_tables();
    let msg = message_saying("/bot create widgets Fix the thing");
    let answers: [Option<&[u8]>; 5] = [
        None,
        Some(b"oops"),
        Some(br#"{"message": "Not Found"}"#),
        Some(br#"{"html_url": "u"}"#),
        Some(br#"{"number": 5}"#),
    ];
    for answer in answers {
        let out = issue_created(answer, &msg, &conf.repos[0], &conf, &mut store);
        assert_eq!(out.len(), 1);
        let m = out[0].message.as_ref().unwrap();
        assert_eq!(m.content, "Couldn't create issue, sorry");
        assert_eq!(m.thread_id, msg.thread_id);
        assert_eq!(m.group_id, msg.group_id);
        assert_eq!(store.watched_len(), 0);
    }
}

#[test]
fn an_issue_that_is_followed_already_is_not_announced_again() {
    let conf = two_repos();
    let mut store = setup_tables();
    add_watched_thread(Id { value: 1 }, "acme/widgets".to_string(), 5, &mut store).unwrap();
    let msg = message_saying("/bot create widgets Fix the thing");
    let answer = br#"{"html_url": "u", "number": 5}"#;
    let out = issue_created_in(Some(&answer[..]), &msg, &conf.repos[0], &conf, &mut store, Id { value: 2 });
    assert!(out.is_empty());
    assert_eq!(store.watched_len(), 1);
}

#[test]
fn a_message_in_a_watched_thread_is_a_comment() {
    let conf = two_repos();
    let mut store = setup_tables();
    let msg = message_saying("/bot list");
    add_watched_thread(msg.thread_id, "acme/widgets".to_string(), 5, &mut store).unwrap();
    match dispatch_message(&msg, &conf, &store) {
        ChatStep::Comment { thread, request } => {
            assert_eq!(thread.thread_id, msg.thread_id);
            assert_eq!(thread.repository, "acme/widgets");
            assert_eq!(thread.issue_number, 5);
            assert_eq!(request.method, Method::Get);
            assert_eq!(
                request.url,
                "https://chat.example/api/bots/names/00000000-0000-0000-0000-000000000030"
            );
            assert_eq!(request.username, "app");
            assert_eq!(request.password, "secret");
            assert!(request.message.is_none());
        }
        ChatStep::Command(_) => panic!("a comment was expected"),
    }
}

#[test]
fn a_message_in_any_other_thread_is_a_command() {
    let conf = two_repos();
    let mut store = setup_tables();
    add_watched_thread(Id { value: 0x21 }, "acme/widgets".to_string(), 5, &mut store).unwrap();
    match dispatch_message(&message_saying("/bot list"), &conf, &store) {
        ChatStep::Command(step) => {
            assert_eq!(reply_of(step).content, "acme/widgets\nacme/gadgets\n");
        }
        ChatStep::Comment { .. } => panic!("a command was expected"),
    }
}
