use vstd::prelude::*;
use crate::model::Account;

verus! {

/// The views of a reply's key/value entries.
pub open spec fn entries_view(entries: Seq<(String, String)>) -> Seq<(Seq<char>, Seq<char>)> {
    entries.map_values(|e: (String, String)| (e.0@, e.1@))
}

/// The value of the last entry whose key is `key`, if any; later entries win.
pub open spec fn last_value(entries: Seq<(Seq<char>, Seq<char>)>, key: Seq<char>) -> Option<Seq<char>>
    decreases entries.len(),
{
    if entries.len() == 0 {
        None
    } else if entries.last().0 == key {
        Some(entries.last().1)
    } else {
        last_value(entries.drop_last(), key)
    }
}

/// The value of the last entry with `key`, or the empty text.
pub open spec fn value_or_empty(entries: Seq<(Seq<char>, Seq<char>)>, key: Seq<char>) -> Seq<char> {
    match last_value(entries, key) {
        Some(v) => v,
        None => Seq::empty(),
    }
}

/// Every value whose key is `key`, in order.
pub open spec fn values_with_key(entries: Seq<(Seq<char>, Seq<char>)>, key: Seq<char>) -> Seq<Seq<char>>
    decreases entries.len(),
{
    if entries.len() == 0 {
        Seq::empty()
    } else {
        let rest = values_with_key(entries.drop_last(), key);
        if entries.last().0 == key {
            rest.push(entries.last().1)
        } else {
            rest
        }
    }
}

/// Every value whose key is `key`, record after record.
pub open spec fn values_in_records(records: Seq<Seq<(Seq<char>, Seq<char>)>>, key: Seq<char>) -> Seq<Seq<char>>
    decreases records.len(),
{
    if records.len() == 0 {
        Seq::empty()
    } else {
        values_in_records(records.drop_last(), key) + values_with_key(records.last(), key)
    }
}

/// The views of a list of strings.
pub open spec fn strings_view(v: Seq<String>) -> Seq<Seq<char>> {
    v.map_values(|s: String| s@)
}

/// The account that `getAccountDetails` describes: public address from
/// `Account.username`, display name from `Account.alias`, and enabled unless
/// `Account.enable` is present with a value other than `true`.
pub open spec fn account_from_details(id: Seq<char>, details: Seq<(Seq<char>, Seq<char>)>, a: Account) -> bool {
    &&& a.id@ == id
    &&& a.ring_id@ == value_or_empty(details, "Account.username"@)
    &&& a.alias@ == value_or_empty(details, "Account.alias"@)
    &&& a.enabled == match last_value(details, "Account.enable"@) {
        Some(v) => v == "true"@,
        None => true,
    }
}

/// The value of the last entry with key `key`, if any.
pub fn find_value(entries: &Vec<(String, String)>, key: &str) -> (r: Option<String>)
    ensures
        r matches Some(v) ==> last_value(entries_view(entries@), key@) == Some(v@),
        r is None ==> last_value(entries_view(entries@), key@) is None,
{
    let k = String::from_str(key);
    let mut found: Option<String> = None;
    let mut i: usize = 0;
    while i < entries.len()
        invariant
            i <= entries@.len(),
            k@ == key@,
            found matches Some(v) ==> last_value(entries_view(entries@.take(i as int)), key@) == Some(v@),
            found is None ==> last_value(entries_view(entries@.take(i as int)), key@) is None,
        decreases entries@.len() - i,
    {
        assert(entries_view(entries@.take(i + 1)).drop_last() =~= entries_view(entries@.take(i as int)));
        if entries[i].0 == k {
            found = Some(entries[i].1.clone());
        }
        i = i + 1;
    }
    assert(entries@.take(entries@.len() as int) =~= entries@);
    found
}

/// Builds the account `id` from its `getAccountDetails` reply.
pub fn build_account(id: &str, details: &Vec<(String, String)>) -> (r: Account)
    ensures
        account_from_details(id@, entries_view(details@), r),
{
    let enabled = match find_value(details, "Account.enable") {
        Some(v) => v == String::from_str("true"),
        None => true,
    };
    let alias = match find_value(details, "Account.alias") {
        Some(v) => v,
        None => String::new(),
    };
    let ring_id = match find_value(details, "Account.username") {
        Some(v) => v,
        None => String::new(),
    };
    Account { id: String::from_str(id), ring_id, alias, enabled }
}

/// Every value under `key` in a list of records, record after record; this
/// reads contact ids (`id`) and pending-request senders (`from`).
pub fn values_for_key(records: &Vec<Vec<(String, String)>>, key: &str) -> (r: Vec<String>)
    ensures
        strings_view(r@) == values_in_records(
            records@.map_values(|d: Vec<(String, String)>| entries_view(d@)),
            key@,
        ),
{
    let k = String::from_str(key);
    let ghost recs = records@.map_values(|d: Vec<(String, String)>| entries_view(d@));
    let mut r: Vec<String> = Vec::new();
    let mut i: usize = 0;
    while i < records.len()
        invariant
            i <= records@.len(),
            k@ == key@,
            recs == records@.map_values(|d: Vec<(String, String)>| entries_view(d@)),
            strings_view(r@) == values_in_records(recs.take(i as int), key@),
        decreases records@.len() - i,
    {
        let record = &records[i];
        let ghost before = strings_view(r@);
        let mut j: usize = 0;
        while j < record.len()
            invariant
                j <= record@.len(),
                k@ == key@,
                strings_view(r@) == before + values_with_key(entries_view(record@.take(j as int)), key@),
            decreases record@.len() - j,
        {
            assert(entries_view(record@.take(j + 1)).drop_last() =~= entries_view(record@.take(j as int)));
            if record[j].0 == k {
                let ghost prev = r@;
                r.push(record[j].1.clone());
                assert(strings_view(r@) =~= strings_view(prev).push(record@[j as int].1@));
            }
            j = j + 1;
        }
        assert(record@.take(record@.len() as int) =~= record@);
        assert(recs.take(i + 1).drop_last() =~= recs.take(i as int));
        i = i + 1;
    }
    assert(recs.take(records@.len() as int) =~= recs);
    r
}

/// One request to the daemon: the method and its arguments.
pub enum Request {
    GetAccountList,
    GetAccountDetails { id: String },
    AddAccount { details: Vec<(String, String)> },
    RemoveAccount { id: String },
    SendRegister { id: String, enable: bool },
    SendTextMessage { from: String, to: String, payloads: Vec<(String, String)> },
    SendTrustMessage { from: String, to: String, payload: Vec<u8> },
    AddContact { account_id: String, contact: String },
    RemoveContact { account_id: String, contact: String, banned: bool },
    GetContacts { account_id: String },
    GetTrustRequests { account_id: String },
    AcceptTrustRequest { account_id: String, from: String, accept: bool },
    DiscardTrustRequest { account_id: String, from: String, accept: bool },
    PlaceCall { account_id: String, uri: String },
}

/// The details that `addAccount` receives: a RING account named `main_info`, or
/// restored from the archive at path `main_info`, protected by `password`.
pub open spec fn add_account_details(main_info: Seq<char>, password: Seq<char>, from_archive: bool) -> Seq<(Seq<char>, Seq<char>)> {
    seq![
        (if from_archive { "Account.archivePath"@ } else { "Account.alias"@ }, main_info),
        ("Account.type"@, "RING"@),
        ("Account.archivePassword"@, password),
    ]
}

/// The request that creates an account.
pub fn add_account_request(main_info: &str, password: &str, from_archive: bool) -> (r: Request)
    ensures
        r matches Request::AddAccount { details } && entries_view(details@) == add_account_details(
            main_info@,
            password@,
            from_archive,
        ),
{
    let first = if from_archive {
        String::from_str("Account.archivePath")
    } else {
        String::from_str("Account.alias")
    };
    let mut details: Vec<(String, String)> = Vec::new();
    details.push((first, String::from_str(main_info)));
    details.push((String::from_str("Account.type"), String::from_str("RING")));
    details.push((String::from_str("Account.archivePassword"), String::from_str(password)));
    assert(entries_view(details@) =~= add_account_details(main_info@, password@, from_archive));
    Request::AddAccount { details }
}

/// The request that sends `body` as plain text from account `from` to `destination`.
pub fn send_text_request(from: &str, destination: &str, body: &str) -> (r: Request)
    ensures
        r matches Request::SendTextMessage { from: f, to, payloads } && f@ == from@ && to@ == destination@
            && entries_view(payloads@) == seq![("text/plain"@, body@)],
{
    let mut payloads: Vec<(String, String)> = Vec::new();
    payloads.push((String::from_str("text/plain"), String::from_str(body)));
    assert(entries_view(payloads@) =~= seq![("text/plain"@, body@)]);
    Request::SendTextMessage { from: String::from_str(from), to: String::from_str(destination), payloads }
}

/// The request that sends a trust request from account `from` to `destination`,
/// with a one-byte zero payload.
pub fn trust_request(from: &str, destination: &str) -> (r: Request)
    ensures
        r matches Request::SendTrustMessage { from: f, to, payload } && f@ == from@ && to@ == destination@
            && payload@ == seq![0u8],
{
    let mut payload: Vec<u8> = Vec::new();
    payload.push(0u8);
    assert(payload@ =~= seq![0u8]);
    Request::SendTrustMessage { from: String::from_str(from), to: String::from_str(destination), payload }
}

/// The request that accepts (`accept`) or discards the pending request of `from`.
pub fn answer_request(account_id: &str, from: &str, accept: bool) -> (r: Request)
    ensures
        accept ==> (r matches Request::AcceptTrustRequest { account_id: a, from: f, accept: b } && a@
            == account_id@ && f@ == from@ && b),
        !accept ==> (r matches Request::DiscardTrustRequest { account_id: a, from: f, accept: b } && a@
            == account_id@ && f@ == from@ && !b),
{
    if accept {
        Request::AcceptTrustRequest { account_id: String::from_str(account_id), from: String::from_str(from), accept }
    } else {
        Request::DiscardTrustRequest { account_id: String::from_str(account_id), from: String::from_str(from), accept }
    }
}

/// The request that calls `destination` from `account_id`, addressed as `ring:<destination>`.
pub fn call_request(account_id: &str, destination: &str) -> (r: Request)
    ensures
        r matches Request::PlaceCall { account_id: a, uri } && a@ == account_id@ && uri@ == "ring:"@
            + destination@,
{
    let uri = String::from_str("ring:").concat(destination);
    Request::PlaceCall { account_id: String::from_str(account_id), uri }
}

/// The text body of an incoming message: the `text/plain` payload, or empty.
pub fn text_payload(payloads: &Vec<(String, String)>) -> (r: String)
    ensures
        r@ == value_or_empty(entries_view(payloads@), "text/plain"@),
{
    match find_value(payloads, "text/plain") {
        Some(v) => v,
        None => String::new(),
    }
}

/// The accounts of a full refresh: `listing` holds each listed id with its
/// details reply, `None` where a request failed. Any failure gives `None`.
pub fn build_accounts(listing: Option<Vec<(String, Option<Vec<(String, String)>>)>>) -> (r: Option<Vec<Account>>)
    ensures
        listing is None ==> r is None,
        listing matches Some(l) ==> (r is None <==> exists|i: int| 0 <= i < l@.len() && (#[trigger] l@[i]).1 is None),
        r matches Some(accounts) ==> listing matches Some(l) && accounts@.len() == l@.len() && forall|i: int|
            0 <= i < l@.len() ==> ((#[trigger] l@[i]).1 matches Some(d) && account_from_details(
                l@[i].0@,
                entries_view(d@),
                accounts@[i],
            )),
{
    if listing.is_none() {
        return None;
    }
    let l = listing.unwrap();
    let mut accounts: Vec<Account> = Vec::new();
    let mut i: usize = 0;
    while i < l.len()
        invariant
            listing == Some(l),
            i <= l@.len(),
            accounts@.len() == i,
            forall|j: int| 0 <= j < i ==> ((#[trigger] l@[j]).1 matches Some(d) && account_from_details(
                l@[j].0@,
                entries_view(d@),
                accounts@[j],
            )),
        decreases l@.len() - i,
    {
        match &l[i].1 {
            Some(details) => {
                accounts.push(build_account(l[i].0.as_str(), details));
            },
            None => {
                assert(l@[i as int].1 is None);
                return None;
            },
        }
        i = i + 1;
    }
    Some(accounts)
}

/// The id that `sendTextMessage` returned, or zero when the request failed.
pub fn sent_interaction_id(reply: Option<u64>) -> (r: u64)
    ensures
        reply is None ==> r == 0,
        reply matches Some(id) ==> r == id,
{
    match reply {
        Some(id) => id,
        None => 0,
    }
}

/// The answer of `acceptTrustRequest` or `discardTrustRequest`, or `false` when
/// the request failed.
pub fn request_answered(reply: Option<bool>) -> (r: bool)
    ensures
        reply is None ==> !r,
        reply matches Some(b) ==> r == b,
{
    match reply {
        Some(b) => b,
        None => false,
    }
}

/// The call id that `placeCall` returned, or the empty text when the request failed.
pub fn placed_call_id(reply: Option<String>) -> (r: String)
    ensures
        reply is None ==> r@.len() == 0,
        reply matches Some(id) ==> r == id,
{
    match reply {
        Some(id) => id,
        None => String::new(),
    }
}

/// The account that `addAccount` created, built from its details reply, or the
/// placeholder account when that reply is missing.
pub fn added_account(id: &str, details: Option<Vec<(String, String)>>) -> (r: Account)
    ensures
        details matches Some(d) ==> account_from_details(id@, entries_view(d@), r),
        details is None ==> r.id@.len() == 0 && r.ring_id@.len() == 0 && r.alias@.len() == 0 && !r.enabled,
{
    match details {
        Some(d) => build_account(id, &d),
        None => Account::null(),
    }
}

} // verus!
