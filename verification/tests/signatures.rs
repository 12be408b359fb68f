use octocat::app_conf::{AppConf, BraidConf, GeneralConf, GithubConf};
use octocat::handler::{
    handle_braid_message, handle_github_webhook, hex_part, mac_accepted, same_bytes,
    verify_braid_hmac, verify_github_hmac, Status,
};
use octocat::tracking::setup_tables;

const BODY: &[u8] = b"what do ya want for nothing?";
const SHA256_HEX: &[u8] = b"5bdcc146bf60754e6a042426089575c75a003f089d2739839dec58b964ec3843";
const SHA1_HEADER: &[u8] = b"sha1=effcdf6ae5eb2fa2d27416d5f184df9c259a7c79";

fn conf_with_secrets() -> AppConf {
    AppConf {
        general: GeneralConf { port: 8080, db_name: "bridge.db".to_string() },
        braid: BraidConf {
            name: "bot".to_string(),
            api_url: "https://chat.example/api".to_string(),
            site_url: "https://chat.example".to_string(),
            app_id: "app".to_string(),
            token: "Jefe".to_string(),
        },
        github: GithubConf { webhook_secret: "Jefe".to_string() },
        repos: vec![],
    }
}

#[test]
fn a_correct_sha256_signature_is_accepted() {
    assert!(verify_braid_hmac(SHA256_HEX, b"Jefe", BODY));
}

#[test]
fn upper_case_hex_is_accepted() {
    let upper = b"5BDCC146BF60754E6A042426089575C75A003F089D2739839DEC58B964EC3843";
    assert!(verify_braid_hmac(upper, b"Jefe", BODY));
}

#[test]
fn a_tampered_body_is_refused() {
    assert!(!verify_braid_hmac(SHA256_HEX, b"Jefe", b"what do ya want for nothing!"));
    assert!(!verify_github_hmac(SHA1_HEADER, b"Jefe", b"What do ya want for nothing?"));
}

#[test]
fn another_key_is_refused() {
    assert!(!verify_braid_hmac(SHA256_HEX, b"Jeff", BODY));
    assert!(!verify_github_hmac(SHA1_HEADER, b"Jeff", BODY));
}

#[test]
fn a_signature_that_is_no_hex_is_refused() {
    assert!(!verify_braid_hmac(b"not hex at all", b"Jefe", BODY));
    assert!(!verify_braid_hmac(b"5bd", b"Jefe", BODY));
    assert!(!verify_braid_hmac(b"", b"Jefe", BODY));
    assert!(!verify_github_hmac(b"sha1=xyz", b"Jefe", BODY));
}

#[test]
fn a_signature_that_is_no_text_is_refused() {
    assert!(!verify_braid_hmac(&[0xff, 0xfe, 0x35, 0x62], b"Jefe", BODY));
    assert!(!verify_github_hmac(&[0x73, 0x68, 0x61, 0x31, 0x3d, 0xff], b"Jefe", BODY));
}

#[test]
fn a_truncated_signature_is_refused() {
    assert!(!verify_braid_hmac(&SHA256_HEX[..62], b"Jefe", BODY));
}

#[test]
fn a_correct_sha1_signature_is_accepted() {
    assert!(verify_github_hmac(SHA1_HEADER, b"Jefe", BODY));
}

#[test]
fn only_the_part_behind_the_first_equals_sign_counts() {
    assert!(verify_github_hmac(b"anything=effcdf6ae5eb2fa2d27416d5f184df9c259a7c79", b"Jefe", BODY));
    assert!(verify_github_hmac(b"effcdf6ae5eb2fa2d27416d5f184df9c259a7c79", b"Jefe", BODY));
    assert!(!verify_github_hmac(b"a=b=effcdf6ae5eb2fa2d27416d5f184df9c259a7c79", b"Jefe", BODY));
    assert_eq!(hex_part("sha1=abc"), "abc");
    assert_eq!(hex_part("abc"), "abc");
    assert_eq!(hex_part("a=b=c"), "b=c");
    assert_eq!(hex_part("sha1="), "");
}

#[test]
fn the_sha256_signature_is_no_sha1_signature() {
    assert!(!verify_github_hmac(SHA256_HEX, b"Jefe", BODY));
    assert!(!verify_braid_hmac(b"effcdf6ae5eb2fa2d27416d5f184df9c259a7c79", b"Jefe", BODY));
}

#[test]
fn bytes_are_compared_whole() {
    assert!(same_bytes(b"", b""));
    assert!(same_bytes(b"abc", b"abc"));
    assert!(!same_bytes(b"abc", b"abd"));
    assert!(!same_bytes(b"abc", b"bbc"));
    assert!(!same_bytes(b"abc", b"ab"));
    assert!(!same_bytes(b"ab", b"abc"));
}

#[test]
fn a_mac_that_is_missing_matches_nothing() {
    assert!(mac_accepted(&Some(vec![1, 2]), &Some(vec![1, 2])));
    assert!(!mac_accepted(&Some(vec![1, 2]), &Some(vec![1, 3])));
    assert!(!mac_accepted(&None, &Some(vec![1, 2])));
    assert!(!mac_accepted(&Some(vec![1, 2]), &None));
    assert!(!mac_accepted(&None, &None));
}

#[test]
fn chat_messages_are_answered_by_their_signature() {
    let conf = conf_with_secrets();
    let store = setup_tables();
    let (status, step) = handle_braid_message(None, BODY, &conf, &store);
    assert_eq!(status, Status::Unauthorized);
    assert!(step.is_none());
    let (status, step) = handle_braid_message(Some(b"00"), BODY, &conf, &store);
    assert_eq!(status, Status::Forbidden);
    assert!(step.is_none());
    let (status, step) = handle_braid_message(Some(SHA256_HEX), b"other", &conf, &store);
    assert_eq!(status, Status::Forbidden);
    assert!(step.is_none());
    let (status, step) = handle_braid_message(Some(SHA256_HEX), BODY, &conf, &store);
    assert_eq!(status, Status::Accepted);
    assert!(step.is_none());
}

#[test]
fn webhooks_are_answered_by_their_signature() {
    let conf = conf_with_secrets();
    let mut store = setup_tables();
    let (status, requests) = handle_github_webhook(None, BODY, &conf, &mut store);
    assert_eq!(status, Status::Unauthorized);
    assert!(requests.is_empty());
    let (status, requests) = handle_github_webhook(Some(b"sha1=00"), BODY, &conf, &mut store);
    assert_eq!(status, Status::Forbidden);
    assert!(requests.is_empty());
    let (status, requests) = handle_github_webhook(Some(SHA1_HEADER), BODY, &conf, &mut store);
    assert_eq!(status, Status::Accepted);
    assert!(requests.is_empty());
    assert_eq!(store.watched_len(), 0);
}

#[test]
fn statuses_have_their_numbers() {
    assert_eq!(Status::Accepted.code(), 200);
    assert_eq!(Status::Unauthorized.code(), 401);
    assert_eq!(Status::Forbidden.code(), 403);
}
