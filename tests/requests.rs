use ruring::bus::{add_account_request, answer_request, call_request, send_text_request, trust_request, values_for_key, Request};

fn entry(k: &str, v: &str) -> (String, String) {
    (k.to_string(), v.to_string())
}

#[test]
fn add_account_request_names_alias_or_archive() {
    match add_account_request("bob", "pw", false) {
        Request::AddAccount { details } => assert_eq!(
            details,
            vec![entry("Account.alias", "bob"), entry("Account.type", "RING"), entry("Account.archivePassword", "pw")]
        ),
        _ => panic!("wrong request"),
    }
    match add_account_request("/tmp/a.gz", "pw", true) {
        Request::AddAccount { details } => assert_eq!(details[0], entry("Account.archivePath", "/tmp/a.gz")),
        _ => panic!("wrong request"),
    }
}

#[test]
fn call_request_prefixes_scheme() {
    match call_request("a1", "b2") {
        Request::PlaceCall { account_id, uri } => {
            assert_eq!(account_id, "a1");
            assert_eq!(uri, "ring:b2");
        }
        _ => panic!("wrong request"),
    }
}

#[test]
fn answer_request_picks_method() {
    assert!(matches!(answer_request("a1", "b2", true), Request::AcceptTrustRequest { accept: true, .. }));
    assert!(matches!(answer_request("a1", "b2", false), Request::DiscardTrustRequest { accept: false, .. }));
}

#[test]
fn text_and_trust_requests_carry_payloads() {
    match send_text_request("a1", "b2", "hello") {
        Request::SendTextMessage { from, to, payloads } => {
            assert_eq!(from, "a1");
            assert_eq!(to, "b2");
            assert_eq!(payloads, vec![entry("text/plain", "hello")]);
        }
        _ => panic!("wrong request"),
    }
    match trust_request("a1", "b2") {
        Request::SendTrustMessage { payload, .. } => assert_eq!(payload, vec![0u8]),
        _ => panic!("wrong request"),
    }
}

#[test]
fn contact_ids_and_request_senders_are_extracted() {
    let records = vec![
        vec![entry("id", "c1"), entry("added", "1")],
        vec![],
        vec![entry("from", "r1"), entry("id", "c2")],
    ];
    assert_eq!(values_for_key(&records, "id"), vec!["c1", "c2"]);
    assert_eq!(values_for_key(&records, "from"), vec!["r1"]);
    assert!(values_for_key(&vec![], "id").is_empty());
}
