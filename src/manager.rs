use vstd::prelude::*;
use crate::model::{Account, Interaction};
use crate::bus::{entries_view, text_payload, value_or_empty};
use crate::signal::{Effect, Notification};

verus! {

/// The value an account takes after a registration-state change for `id` to `state`.
pub open spec fn registration_applied(a: Account, id: Seq<char>, state: Seq<char>) -> Account {
    if a.id@ == id {
        Account { enabled: state == "REGISTERED"@, ..a }
    } else {
        a
    }
}

/// Whether a log entry belongs to the conversation of `account_id` with `contact`.
pub open spec fn in_conversation(entry: (String, Interaction), account_id: Seq<char>, contact: Seq<char>) -> bool {
    entry.0@ == account_id && entry.1.author_ring_id@ == contact
}

/// The interactions of `log` that belong to the conversation, most recent first.
pub open spec fn conversation(log: Seq<(String, Interaction)>, account_id: Seq<char>, contact: Seq<char>) -> Seq<Interaction>
    decreases log.len(),
{
    if log.len() == 0 {
        Seq::empty()
    } else {
        let rest = conversation(log.drop_first(), account_id, contact);
        if in_conversation(log[0], account_id, contact) {
            rest.push(log[0].1)
        } else {
            rest
        }
    }
}

/// A logged interaction as plain values: receiving account, author, body and time.
pub type EntryView = (Seq<char>, Seq<char>, Seq<char>, i64);

/// The plain values of a log.
pub open spec fn log_view(log: Seq<(String, Interaction)>) -> Seq<EntryView> {
    log.map_values(|e: (String, Interaction)| (e.0@, e.1.author_ring_id@, e.1.body@, e.1.time))
}

/// The entry that a notification adds to the log, if any.
pub open spec fn entry_of(n: Notification) -> Option<EntryView> {
    match n {
        Notification::IncomingAccountMessage { account_id, author, payloads, time } => Some(
            (account_id@, author@, value_or_empty(entries_view(payloads@), "text/plain"@), time),
        ),
        _ => None,
    }
}

/// The log after one notification.
pub open spec fn log_after(log: Seq<EntryView>, n: Notification) -> Seq<EntryView> {
    match entry_of(n) {
        Some(e) => log.push(e),
        None => log,
    }
}

/// The log after notifications handled one after the other, in order.
pub open spec fn log_after_all(log: Seq<EntryView>, ns: Seq<Notification>) -> Seq<EntryView>
    decreases ns.len(),
{
    if ns.len() == 0 {
        log
    } else {
        log_after(log_after_all(log, ns.drop_last()), ns.last())
    }
}

/// The authoritative snapshot: the accounts of the last full refresh, with the
/// registration changes applied since, and the append-only log of received
/// interactions keyed by the receiving account.
pub struct Manager {
    pub accounts: Vec<Account>,
    pub messages: Vec<(String, Interaction)>,
}

impl Manager {
    /// An empty snapshot; the first refresh fills it.
    pub fn new() -> (r: Result<Manager, &'static str>)
        ensures
            r is Ok,
            r->Ok_0.accounts@.len() == 0,
            r->Ok_0.messages@.len() == 0,
    {
        Ok(Manager { accounts: Vec::new(), messages: Vec::new() })
    }

    /// Installs the outcome of a full refresh. `fetched` is `None` when fetching
    /// the list or any account's details failed; the snapshot is then kept as it
    /// was. Otherwise the whole list is replaced at once.
    pub fn get_account_list(&mut self, fetched: Option<Vec<Account>>)
        ensures
            final(self).messages@ == old(self).messages@,
            fetched is None ==> final(self).accounts@ == old(self).accounts@,
            fetched is Some ==> final(self).accounts@ == fetched->Some_0@,
    {
        match fetched {
            Some(accounts) => {
                self.accounts = accounts;
            },
            None => {},
        }
    }

    /// Applies a registration-state change: the account with id `account_id`, if
    /// present, becomes enabled exactly when `state` is `REGISTERED`; nothing else
    /// changes.
    pub fn handle_registration_changed(&mut self, account_id: &str, state: &str)
        ensures
            final(self).messages@ == old(self).messages@,
            final(self).accounts@.len() == old(self).accounts@.len(),
            forall|i: int|
                0 <= i < old(self).accounts@.len() ==> #[trigger] final(self).accounts@[i]
                    == registration_applied(old(self).accounts@[i], account_id@, state@),
    {
        let id = String::from_str(account_id);
        let state = String::from_str(state);
        let registered = String::from_str("REGISTERED");
        let enabled = state == registered;
        let n = self.accounts.len();
        let mut i: usize = 0;
        while i < n
            invariant
                n == self.accounts@.len(),
                n == old(self).accounts@.len(),
                i <= n,
                self.messages@ == old(self).messages@,
                id@ == account_id@,
                enabled == (state@ == "REGISTERED"@),
                forall|j: int|
                    0 <= j < i ==> #[trigger] self.accounts@[j] == registration_applied(
                        old(self).accounts@[j],
                        account_id@,
                        state@,
                    ),
                forall|j: int| i <= j < n ==> #[trigger] self.accounts@[j] == old(self).accounts@[j],
            decreases n - i,
        {
            if self.accounts[i].id == id {
                self.accounts[i].enabled = enabled;
            }
            i = i + 1;
        }
    }

    /// Reads an incoming message: the receiving account and the interaction it
    /// carries, whose body is the `text/plain` payload, or empty without one.
    /// The snapshot is left as it is.
    pub fn handle_interactions(&self, account_id: &str, author: &str, payloads: &Vec<(String, String)>, time: i64) -> (r: (String, Interaction))
        ensures
            r.0@ == account_id@,
            r.1.author_ring_id@ == author@,
            r.1.body@ == value_or_empty(entries_view(payloads@), "text/plain"@),
            r.1.time == time,
    {
        let body = text_payload(payloads);
        (String::from_str(account_id), Interaction { author_ring_id: String::from_str(author), body, time })
    }

    /// Appends a received interaction to the log, keyed by the receiving account.
    pub fn push_interaction(&mut self, account_id: String, interaction: Interaction)
        ensures
            final(self).accounts@ == old(self).accounts@,
            final(self).messages@ == old(self).messages@.push((account_id, interaction)),
    {
        self.messages.push((account_id, interaction));
    }

    /// The interactions of `account_id` authored by `contact`, most recent first.
    pub fn interactions_with(&self, account_id: &str, contact: &str) -> (r: Vec<Interaction>)
        ensures
            r@ == conversation(self.messages@, account_id@, contact@),
    {
        let acc = String::from_str(account_id);
        let who = String::from_str(contact);
        let log = &self.messages;
        let n = log.len();
        let mut r: Vec<Interaction> = Vec::new();
        let mut i: usize = n;
        while i > 0
            invariant
                n == log@.len(),
                i <= n,
                acc@ == account_id@,
                who@ == contact@,
                r@ == conversation(log@.subrange(i as int, n as int), account_id@, contact@),
            decreases i,
        {
            i = i - 1;
            assert(log@.subrange(i as int, n as int).drop_first() =~= log@.subrange(i + 1, n as int));
            let entry = &log[i];
            if entry.0 == acc && entry.1.author_ring_id == who {
                r.push(entry.1.duplicate());
            }
        }
        assert(log@.subrange(0, n as int) =~= log@);
        r
    }
}

} // verus!

verus! {

impl Manager {
    /// Applies one notification to the snapshot. A registration change updates the
    /// matching account, an incoming message is appended to the log with its
    /// `text/plain` body, and the other kinds leave the snapshot as it was and
    /// say what remains to be done.
    pub fn handle_signal(&mut self, n: Notification) -> (e: Effect)
        ensures
            log_view(final(self).messages@) == log_after(log_view(old(self).messages@), n),
            match n {
                Notification::AccountsChanged => e is RefreshAccounts && *final(self) == *old(self),
                Notification::RegistrationStateChanged { account_id, state } => {
                    &&& e is Done
                    &&& final(self).messages@ == old(self).messages@
                    &&& final(self).accounts@.len() == old(self).accounts@.len()
                    &&& forall|i: int|
                        0 <= i < old(self).accounts@.len() ==> #[trigger] final(self).accounts@[i]
                            == registration_applied(old(self).accounts@[i], account_id@, state@)
                },
                Notification::IncomingAccountMessage { account_id, author, payloads, time } => {
                    &&& e is Done
                    &&& final(self).accounts@ == old(self).accounts@
                    &&& final(self).messages@.drop_last() == old(self).messages@
                    &&& final(self).messages@.len() == old(self).messages@.len() + 1
                    &&& final(self).messages@.last().0@ == account_id@
                    &&& final(self).messages@.last().1.author_ring_id@ == author@
                    &&& final(self).messages@.last().1.body@ == value_or_empty(
                        entries_view(payloads@),
                        "text/plain"@,
                    )
                    &&& final(self).messages@.last().1.time == time
                },
                Notification::IncomingTrustRequest { account_id, from } => {
                    &&& e matches Effect::ReportRequest { account_id: a, from: f }
                    &&& a == account_id && f == from
                    &&& *final(self) == *old(self)
                },
            },
    {
        match n {
            Notification::AccountsChanged => Effect::RefreshAccounts,
            Notification::RegistrationStateChanged { account_id, state } => {
                self.handle_registration_changed(account_id.as_str(), state.as_str());
                Effect::Done
            },
            Notification::IncomingAccountMessage { account_id, author, payloads, time } => {
                let (account_id, interaction) = self.handle_interactions(
                    account_id.as_str(),
                    author.as_str(),
                    &payloads,
                    time,
                );
                self.push_interaction(account_id, interaction);
                assert(self.messages@.drop_last() =~= old(self).messages@);
                assert(log_view(self.messages@) =~= log_view(old(self).messages@).push(
                    (account_id@, interaction.author_ring_id@, interaction.body@, time),
                ));
                Effect::Done
            },
            Notification::IncomingTrustRequest { account_id, from } => Effect::ReportRequest { account_id, from },
        }
    }
}

} // verus!

verus! {

/// The interactions of `entries`, newest first.
pub open spec fn newest_first(entries: Seq<(String, Interaction)>) -> Seq<Interaction> {
    Seq::new(entries.len(), |i: int| entries[entries.len() - 1 - i].1)
}

/// A registration change leaves every account whose id differs untouched; the
/// account it names changes in its `enabled` flag alone.
pub proof fn lemma_registration_change_is_local(accounts: Seq<Account>, id: Seq<char>, state: Seq<char>)
    ensures
        forall|i: int|
            0 <= i < accounts.len() && accounts[i].id@ != id ==> #[trigger] registration_applied(
                accounts[i],
                id,
                state,
            ) == accounts[i],
        forall|i: int|
            0 <= i < accounts.len() && accounts[i].id@ == id ==> {
                let a = #[trigger] registration_applied(accounts[i], id, state);
                &&& a.id == accounts[i].id
                &&& a.ring_id == accounts[i].ring_id
                &&& a.alias == accounts[i].alias
                &&& a.enabled == (state == "REGISTERED"@)
            },
        (forall|i: int| 0 <= i < accounts.len() ==> (#[trigger] accounts[i]).id@ != id) ==> forall|i: int|
            0 <= i < accounts.len() ==> #[trigger] registration_applied(accounts[i], id, state) == accounts[i],
{
}

/// The conversation of a log that grew by `later` holds the matching entries of
/// `later`, newest first, before those of the earlier log.
pub proof fn lemma_conversation_concat(earlier: Seq<(String, Interaction)>, later: Seq<(String, Interaction)>, account_id: Seq<char>, contact: Seq<char>)
    ensures
        conversation(earlier + later, account_id, contact) == conversation(later, account_id, contact)
            + conversation(earlier, account_id, contact),
    decreases earlier.len(),
{
    if earlier.len() == 0 {
        assert(earlier + later =~= later);
        assert(conversation(later, account_id, contact) + conversation(earlier, account_id, contact)
            =~= conversation(later, account_id, contact));
    } else {
        let both = earlier + later;
        assert(both.drop_first() =~= earlier.drop_first() + later);
        assert(both[0] == earlier[0]);
        lemma_conversation_concat(earlier.drop_first(), later, account_id, contact);
        let tail = conversation(later, account_id, contact);
        let head = conversation(earlier.drop_first(), account_id, contact);
        assert((tail + head).push(earlier[0].1) =~= tail + head.push(earlier[0].1));
    }
}

/// A run of entries that all belong to one conversation appears in it newest first.
pub proof fn lemma_conversation_of_run(entries: Seq<(String, Interaction)>, account_id: Seq<char>, contact: Seq<char>)
    requires
        forall|i: int| 0 <= i < entries.len() ==> in_conversation(#[trigger] entries[i], account_id, contact),
    ensures
        conversation(entries, account_id, contact) == newest_first(entries),
    decreases entries.len(),
{
    if entries.len() > 0 {
        let rest = entries.drop_first();
        assert forall|i: int| 0 <= i < rest.len() implies in_conversation(#[trigger] rest[i], account_id, contact) by {
            assert(rest[i] == entries[i + 1]);
        }
        lemma_conversation_of_run(rest, account_id, contact);
        assert(in_conversation(entries[0], account_id, contact));
        assert(newest_first(rest).push(entries[0].1) =~= newest_first(entries));
    }
}

/// Incoming messages handled one after the other each add one entry to the end
/// of the log, in arrival order, with the body read from its `text/plain`
/// payload; what was logged before stays as it was.
pub proof fn lemma_messages_logged_in_arrival_order(log: Seq<EntryView>, ns: Seq<Notification>)
    requires
        forall|k: int| 0 <= k < ns.len() ==> (#[trigger] ns[k]) is IncomingAccountMessage,
    ensures
        log_after_all(log, ns).len() == log.len() + ns.len(),
        log_after_all(log, ns).subrange(0, log.len() as int) == log,
        forall|k: int| 0 <= k < ns.len() ==> entry_of(#[trigger] ns[k]) == Some(log_after_all(log, ns)[log.len() + k]),
    decreases ns.len(),
{
    if ns.len() > 0 {
        let front = ns.drop_last();
        assert forall|k: int| 0 <= k < front.len() implies (#[trigger] front[k]) is IncomingAccountMessage by {
            assert(front[k] == ns[k]);
        }
        lemma_messages_logged_in_arrival_order(log, front);
        let before = log_after_all(log, front);
        assert(ns.last() is IncomingAccountMessage);
        assert(log_after_all(log, ns) == before.push(entry_of(ns.last())->Some_0));
        assert(log_after_all(log, ns).subrange(0, log.len() as int) =~= before.subrange(0, log.len() as int));
        assert forall|k: int| 0 <= k < ns.len() implies entry_of(#[trigger] ns[k]) == Some(
            log_after_all(log, ns)[log.len() + k],
        ) by {
            if k < ns.len() - 1 {
                assert(front[k] == ns[k]);
            }
        }
    }
}

/// Messages received one after the other for one account from one contact are
/// logged in arrival order, and the conversation shows them newest first, ahead
/// of everything logged before them.
pub proof fn lemma_received_messages_newest_first(log: Seq<(String, Interaction)>, received: Seq<(String, Interaction)>, account_id: Seq<char>, contact: Seq<char>)
    requires
        forall|i: int| 0 <= i < received.len() ==> in_conversation(#[trigger] received[i], account_id, contact),
    ensures
        conversation(log + received, account_id, contact) == newest_first(received) + conversation(
            log,
            account_id,
            contact,
        ),
        (log + received).len() == log.len() + received.len(),
        forall|i: int| 0 <= i < received.len() ==> (log + received)[log.len() + i] == #[trigger] received[i],
{
    lemma_conversation_concat(log, received, account_id, contact);
    lemma_conversation_of_run(received, account_id, contact);
}

} // verus!
