use ruring::bus::{
    added_account, build_account, build_accounts, placed_call_id, request_answered, sent_interaction_id, text_payload,
};
use ruring::manager::Manager;
use ruring::model::{Account, Interaction};
use ruring::signal::{classify_signal, Effect, Notification, SignalKind};

fn s(x: &str) -> String {
    x.to_string()
}

fn entry(k: &str, v: &str) -> (String, String) {
    (s(k), s(v))
}

fn account(id: &str, enabled: bool) -> Account {
    Account { id: s(id), ring_id: format!("ring:{}", id), alias: format!("alias {}", id), enabled }
}

fn message(author: &str, body: &str, time: i64) -> Interaction {
    Interaction { author_ring_id: s(author), body: s(body), time }
}

#[test]
fn new_manager_is_empty() {
    let m = Manager::new().unwrap();
    assert!(m.accounts.is_empty());
    assert!(m.messages.is_empty());
}

#[test]
fn refresh_then_registration_change_round_trip() {
    let details = vec![
        entry("Account.alias", "Alice"),
        entry("Account.username", "ring:123"),
        entry("Account.enable", "true"),
    ];
    let listing = vec![(s("a1"), Some(details)), (s("a2"), Some(vec![entry("Account.alias", "Bob")]))];
    let mut m = Manager::new().unwrap();
    m.get_account_list(build_accounts(Some(listing)));
    assert_eq!(m.accounts.len(), 2);
    let a1 = &m.accounts[0];
    assert_eq!(a1.id, "a1");
    assert_eq!(a1.ring_id, "ring:123");
    assert_eq!(a1.alias, "Alice");
    assert!(a1.enabled);
    let before_a2 = m.accounts[1].clone();
    m.handle_registration_changed("a1", "UNREGISTERED");
    let a1 = &m.accounts[0];
    assert!(!a1.enabled);
    assert_eq!(a1.id, "a1");
    assert_eq!(a1.ring_id, "ring:123");
    assert_eq!(a1.alias, "Alice");
    assert_eq!(m.accounts[1].id, before_a2.id);
    assert_eq!(m.accounts[1].enabled, before_a2.enabled);
    m.handle_registration_changed("a1", "REGISTERED");
    assert!(m.accounts[0].enabled);
}

#[test]
fn registration_change_for_unknown_id_is_noop() {
    let mut m = Manager::new().unwrap();
    m.get_account_list(Some(vec![account("a1", true), account("a2", false)]));
    m.handle_registration_changed("zz", "UNREGISTERED");
    assert!(m.accounts[0].enabled);
    assert!(!m.accounts[1].enabled);
    assert_eq!(m.accounts.len(), 2);
}

#[test]
fn registration_change_touches_only_named_account() {
    let mut m = Manager::new().unwrap();
    m.get_account_list(Some(vec![account("a1", false), account("a2", false), account("a3", false)]));
    m.handle_registration_changed("a2", "REGISTERED");
    assert!(!m.accounts[0].enabled);
    assert!(m.accounts[1].enabled);
    assert!(!m.accounts[2].enabled);
}

#[test]
fn failed_refresh_keeps_snapshot() {
    let mut m = Manager::new().unwrap();
    m.get_account_list(Some(vec![account("a1", true)]));
    m.get_account_list(None);
    assert_eq!(m.accounts.len(), 1);
    let listing = vec![(s("a1"), Some(vec![])), (s("a2"), None)];
    let built = build_accounts(Some(listing));
    assert!(built.is_none());
    m.get_account_list(built);
    assert_eq!(m.accounts.len(), 1);
    assert_eq!(m.accounts[0].id, "a1");
    assert!(build_accounts(None).is_none());
}

#[test]
fn refresh_replaces_whole_list() {
    let mut m = Manager::new().unwrap();
    m.get_account_list(Some(vec![account("a1", true), account("a2", true)]));
    m.get_account_list(build_accounts(Some(vec![(s("b1"), Some(vec![]))])));
    assert_eq!(m.accounts.len(), 1);
    assert_eq!(m.accounts[0].id, "b1");
}

#[test]
fn account_details_defaults_and_last_value_wins() {
    let a = build_account("x", &vec![]);
    assert_eq!(a.id, "x");
    assert_eq!(a.alias, "");
    assert_eq!(a.ring_id, "");
    assert!(a.enabled);
    let b = build_account(
        "y",
        &vec![entry("Account.enable", "true"), entry("Account.alias", "A"), entry("Account.enable", "false"), entry("Account.alias", "B")],
    );
    assert!(!b.enabled);
    assert_eq!(b.alias, "B");
}

#[test]
fn null_account_is_blank() {
    let a = Account::null();
    assert_eq!(a.id, "");
    assert_eq!(a.alias, "");
    assert!(!a.enabled);
}

#[test]
fn messages_are_logged_in_arrival_order_and_read_newest_first() {
    let mut m = Manager::new().unwrap();
    for i in 0..5i64 {
        let e = m.handle_signal(Notification::IncomingAccountMessage {
            account_id: s("a1"),
            author: s("b2"),
            payloads: vec![entry("text/plain", &format!("m{}", i))],
            time: i,
        });
        assert!(matches!(e, Effect::Done));
    }
    m.push_interaction(s("a1"), message("c3", "other", 9));
    m.push_interaction(s("a2"), message("b2", "elsewhere", 10));
    assert_eq!(m.messages.len(), 7);
    for i in 0..5usize {
        assert_eq!(m.messages[i].0, "a1");
        assert_eq!(m.messages[i].1.body, format!("m{}", i));
    }
    let conv = m.interactions_with("a1", "b2");
    assert_eq!(conv.len(), 5);
    let bodies: Vec<String> = conv.iter().map(|x| x.body.clone()).collect();
    assert_eq!(bodies, vec!["m4", "m3", "m2", "m1", "m0"]);
    assert!(m.interactions_with("a3", "b2").is_empty());
}

#[test]
fn message_without_text_has_empty_body() {
    let mut m = Manager::new().unwrap();
    m.handle_signal(Notification::IncomingAccountMessage {
        account_id: s("a1"),
        author: s("b2"),
        payloads: vec![entry("image/png", "xx")],
        time: 3,
    });
    assert_eq!(m.messages[0].1.body, "");
    assert_eq!(m.messages[0].1.author_ring_id, "b2");
    assert_eq!(m.messages[0].1.time, 3);
}

#[test]
fn text_payload_picks_plain_text() {
    let p = vec![entry("text/html", "<b>x</b>"), entry("text/plain", "hello")];
    assert_eq!(text_payload(&p), "hello");
    assert_eq!(text_payload(&vec![]), "");
}

#[test]
fn failed_send_returns_zero_and_keeps_log() {
    let mut m = Manager::new().unwrap();
    m.push_interaction(s("a1"), message("b2", "hi", 1));
    assert_eq!(sent_interaction_id(None), 0);
    assert_eq!(m.messages.len(), 1);
    assert_eq!(sent_interaction_id(Some(42)), 42);
}

#[test]
fn accounts_changed_asks_for_refresh_without_touching_snapshot() {
    let mut m = Manager::new().unwrap();
    m.get_account_list(Some(vec![account("a1", true)]));
    let e = m.handle_signal(Notification::AccountsChanged);
    assert!(matches!(e, Effect::RefreshAccounts));
    assert_eq!(m.accounts.len(), 1);
}

#[test]
fn registration_signal_updates_account() {
    let mut m = Manager::new().unwrap();
    m.get_account_list(Some(vec![account("a1", true)]));
    let e = m.handle_signal(Notification::RegistrationStateChanged { account_id: s("a1"), state: s("TRYING") });
    assert!(matches!(e, Effect::Done));
    assert!(!m.accounts[0].enabled);
}

#[test]
fn trust_request_is_reported_not_stored() {
    let mut m = Manager::new().unwrap();
    let e = m.handle_signal(Notification::IncomingTrustRequest { account_id: s("a1"), from: s("b2") });
    match e {
        Effect::ReportRequest { account_id, from } => {
            assert_eq!(account_id, "a1");
            assert_eq!(from, "b2");
        }
        _ => panic!("expected a report"),
    }
    assert!(m.messages.is_empty());
    assert!(m.accounts.is_empty());
}

#[test]
fn signals_are_classified_by_interface_and_member() {
    let iface = "cx.ring.Ring.ConfigurationManager";
    assert_eq!(classify_signal(iface, "accountsChanged"), SignalKind::AccountsChanged);
    assert_eq!(classify_signal(iface, "registrationStateChanged"), SignalKind::RegistrationStateChanged);
    assert_eq!(classify_signal(iface, "incomingAccountMessage"), SignalKind::IncomingAccountMessage);
    assert_eq!(classify_signal(iface, "incomingTrustRequest"), SignalKind::IncomingTrustRequest);
    assert_eq!(classify_signal(iface, "somethingElse"), SignalKind::Unrelated);
    assert_eq!(classify_signal("cx.ring.Ring.CallManager", "accountsChanged"), SignalKind::Unrelated);
}

#[test]
fn reading_a_message_leaves_the_log_alone() {
    let mut m = Manager::new().unwrap();
    m.push_interaction(s("a1"), message("b2", "old", 1));
    let (account_id, i) = m.handle_interactions("a1", "b2", &vec![entry("text/plain", "hello")], 7);
    assert_eq!(account_id, "a1");
    assert_eq!(i.author_ring_id, "b2");
    assert_eq!(i.body, "hello");
    assert_eq!(i.time, 7);
    let (_, j) = m.handle_interactions("a1", "b2", &vec![entry("image/png", "x")], 8);
    assert_eq!(j.body, "");
    assert_eq!(m.messages.len(), 1);
    assert_eq!(m.messages[0].1.body, "old");
}

#[test]
fn failed_replies_give_sentinels() {
    assert!(!request_answered(None));
    assert!(request_answered(Some(true)));
    assert!(!request_answered(Some(false)));
    assert_eq!(placed_call_id(None), "");
    assert_eq!(placed_call_id(Some(s("call7"))), "call7");
    let blank = added_account("a9", None);
    assert_eq!(blank.id, "");
    assert!(!blank.enabled);
    let made = added_account("a9", Some(vec![entry("Account.alias", "Zed")]));
    assert_eq!(made.id, "a9");
    assert_eq!(made.alias, "Zed");
    assert!(made.enabled);
}
