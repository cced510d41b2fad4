use vstd::prelude::*;

verus! {

/// The kinds of push notification that the snapshot reacts to.
#[derive(PartialEq, Eq, Structural, Clone, Copy, Debug)]
pub enum SignalKind {
    AccountsChanged,
    RegistrationStateChanged,
    IncomingAccountMessage,
    IncomingTrustRequest,
    Unrelated,
}

/// The interface that carries every notification of interest.
pub open spec fn configuration_interface() -> Seq<char> {
    "cx.ring.Ring.ConfigurationManager"@
}

/// The kind of a notification named by its interface and member.
pub open spec fn kind_of(interface: Seq<char>, member: Seq<char>) -> SignalKind {
    if interface != configuration_interface() {
        SignalKind::Unrelated
    } else if member == "accountsChanged"@ {
        SignalKind::AccountsChanged
    } else if member == "registrationStateChanged"@ {
        SignalKind::RegistrationStateChanged
    } else if member == "incomingAccountMessage"@ {
        SignalKind::IncomingAccountMessage
    } else if member == "incomingTrustRequest"@ {
        SignalKind::IncomingTrustRequest
    } else {
        SignalKind::Unrelated
    }
}

/// Classifies a notification by its interface and member name.
pub fn classify_signal(interface: &str, member: &str) -> (r: SignalKind)
    ensures
        r == kind_of(interface@, member@),
{
    let interface = String::from_str(interface);
    let member = String::from_str(member);
    if interface != String::from_str("cx.ring.Ring.ConfigurationManager") {
        SignalKind::Unrelated
    } else if member == String::from_str("accountsChanged") {
        SignalKind::AccountsChanged
    } else if member == String::from_str("registrationStateChanged") {
        SignalKind::RegistrationStateChanged
    } else if member == String::from_str("incomingAccountMessage") {
        SignalKind::IncomingAccountMessage
    } else if member == String::from_str("incomingTrustRequest") {
        SignalKind::IncomingTrustRequest
    } else {
        SignalKind::Unrelated
    }
}

/// A notification with the fields that its kind carries.
pub enum Notification {
    AccountsChanged,
    RegistrationStateChanged { account_id: String, state: String },
    IncomingAccountMessage { account_id: String, author: String, payloads: Vec<(String, String)>, time: i64 },
    IncomingTrustRequest { account_id: String, from: String },
}

/// What remains to be done outside the snapshot once a notification is applied.
pub enum Effect {
    /// Nothing more.
    Done,
    /// The account list must be fetched again and installed.
    RefreshAccounts,
    /// A pending request arrived; it is reported, not stored.
    ReportRequest { account_id: String, from: String },
}

} // verus!
