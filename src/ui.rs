use vstd::prelude::*;
use crate::focus::{names_view, step, step_focus};
use crate::model::Account;

verus! {

/// Key code of the down arrow: focus the next entry.
pub const KEY_DOWN: i32 = 258;
/// Key code of the up arrow: focus the previous entry.
pub const KEY_UP: i32 = 259;
/// Key code of enter: confirm.
pub const KEY_ENTER: i32 = 10;
/// Key code of escape: go back, or quit from the account list.
pub const KEY_ESC: i32 = 27;
/// Key code of tab: cycle the focus of a form.
pub const KEY_TAB: i32 = 9;
/// Key code of backspace: erase the last typed character.
pub const KEY_BACKSPACE: i32 = 263;
/// What a wait for input gives when no key came.
pub const NO_KEY: i32 = -1;
/// Space: toggle the focused account.
pub const KEY_SPACE: i32 = 32;
/// `a`: add an account or a contact, or accept a pending request.
pub const KEY_ADD: i32 = 97;
/// `i`: import an account from an archive.
pub const KEY_IMPORT: i32 = 105;
/// `r`: remove the focused entry, or discard a pending request.
pub const KEY_REMOVE: i32 = 114;
/// `b`: remove and ban the focused contact.
pub const KEY_BAN: i32 = 98;
/// `c`: call the focused contact.
pub const KEY_CALL: i32 = 99;

/// The screens of the interface.
#[derive(PartialEq, Eq, Structural, Clone, Copy, Debug)]
pub enum Mode {
    Accounts,
    Contacts,
    AddAccount,
    ImportAccount,
    AddContact,
    SendInteraction,
}

/// What the interface asks of the daemon after a key.
pub enum Command {
    Idle,
    Quit,
    EnableAccount { id: String, enable: bool },
    RemoveAccount { id: String },
    AnswerRequest { account_id: String, from: String, accept: bool },
    RemoveContact { account_id: String, contact: String, banned: bool },
    PlaceCall { account_id: String, contact: String },
    AddAccount { main_info: String, password: String, from_archive: bool },
    AddContact { account_id: String, contact: String },
    SendText { from: String, to: String, body: String },
}

/// Where a form stands after a key.
#[derive(PartialEq, Eq, Structural, Clone, Copy, Debug)]
pub enum FormStatus {
    Editing,
    Cancelled,
    Confirmed,
}

/// The focus targets of the account form.
#[derive(PartialEq, Eq, Structural, Clone, Copy, Debug)]
pub enum AccountField {
    Identity,
    Password,
    OkButton,
    CancelButton,
}

/// The focus targets of the single-field contact form.
#[derive(PartialEq, Eq, Structural, Clone, Copy, Debug)]
pub enum EntryField {
    Entry,
    OkButton,
    CancelButton,
}

/// The form that creates or imports an account.
pub struct AccountForm {
    /// The alias, or the archive path when importing.
    pub identity: String,
    pub password: String,
    pub focus: AccountField,
    pub import: bool,
}

/// The form that adds a contact (`add`) or writes a message to the focused contact.
pub struct ContactForm {
    pub entry: String,
    pub focus: EntryField,
    pub add: bool,
}

/// The navigation state: the screen and the focused account and contact, the
/// empty text meaning that nothing is focused yet.
pub struct UserInterface {
    pub current_mode: Mode,
    pub current_account: String,
    pub current_contact: String,
}

/// Whether a key code is a Unicode scalar value.
pub open spec fn is_scalar(key: i32) -> bool {
    0 <= key <= 0x10FFFF && !(0xD800 <= key <= 0xDFFF)
}

/// The character a key types: the key's own character, or a space for a code
/// that is no character.
pub open spec fn typed_char(key: i32) -> char {
    if is_scalar(key) {
        (key as u32) as char
    } else {
        ' '
    }
}

/// A text without its last character; the empty text stays empty.
pub open spec fn erased(s: Seq<char>) -> Seq<char> {
    if s.len() == 0 {
        s
    } else {
        s.drop_last()
    }
}

/// The next focus target of the account form.
pub open spec fn next_account_field(f: AccountField) -> AccountField {
    match f {
        AccountField::Identity => AccountField::Password,
        AccountField::Password => AccountField::OkButton,
        AccountField::OkButton => AccountField::CancelButton,
        AccountField::CancelButton => AccountField::Identity,
    }
}

/// The next focus target of the contact form.
pub open spec fn next_entry_field(f: EntryField) -> EntryField {
    match f {
        EntryField::Entry => EntryField::OkButton,
        EntryField::OkButton => EntryField::CancelButton,
        EntryField::CancelButton => EntryField::Entry,
    }
}

/// The ids of a list of accounts.
pub open spec fn account_ids(accounts: Seq<Account>) -> Seq<Seq<char>> {
    accounts.map_values(|a: Account| a.id@)
}

/// The first account with id `id`, if any.
pub open spec fn first_with_id(accounts: Seq<Account>, id: Seq<char>) -> Option<Account>
    decreases accounts.len(),
{
    if accounts.len() == 0 {
        None
    } else if accounts[0].id@ == id {
        Some(accounts[0])
    } else {
        first_with_id(accounts.drop_first(), id)
    }
}

/// Relies on char::from_u32: a code that is a Unicode scalar value gives that
/// character, any other code gives `None`.
#[verifier::external_body]
fn char_of_key(key: i32) -> (r: Option<char>)
    ensures
        is_scalar(key) ==> r == Some((key as u32) as char),
        !is_scalar(key) ==> r is None,
{
    std::char::from_u32(key as u32)
}

/// Relies on String::push: the character is appended.
#[verifier::external_body]
fn push_char(s: &mut String, c: char)
    ensures
        final(s)@ == old(s)@.push(c),
{
    s.push(c)
}

/// Relies on String::pop: the last character, if any, is removed.
#[verifier::external_body]
fn pop_char(s: &mut String)
    ensures
        final(s)@ == erased(old(s)@),
{
    s.pop();
}

/// The character that a key types.
fn key_char(key: i32) -> (r: char)
    ensures
        r == typed_char(key),
{
    match char_of_key(key) {
        Some(c) => c,
        None => ' ',
    }
}

/// Whether `x` is one of `list`.
pub fn is_listed(list: &Vec<String>, x: &String) -> (r: bool)
    ensures
        r == names_view(list@).contains(x@),
{
    let mut i: usize = 0;
    while i < list.len()
        invariant
            i <= list@.len(),
            forall|j: int| 0 <= j < i ==> list@[j]@ != x@,
        decreases list@.len() - i,
    {
        if list[i] == *x {
            assert(names_view(list@)[i as int] == x@);
            return true;
        }
        i = i + 1;
    }
    false
}

/// The entries of `first` followed by those of `second`.
pub fn joined(first: &Vec<String>, second: &Vec<String>) -> (r: Vec<String>)
    ensures
        names_view(r@) == names_view(first@) + names_view(second@),
{
    let mut r: Vec<String> = Vec::new();
    let mut i: usize = 0;
    while i < first.len()
        invariant
            i <= first@.len(),
            names_view(r@) == names_view(first@.take(i as int)),
        decreases first@.len() - i,
    {
        let ghost prev = r@;
        r.push(first[i].clone());
        assert(names_view(r@) =~= names_view(prev).push(first@[i as int]@));
        assert(names_view(first@.take(i + 1)) =~= names_view(first@.take(i as int)).push(first@[i as int]@));
        i = i + 1;
    }
    assert(first@.take(first@.len() as int) =~= first@);
    let mut j: usize = 0;
    while j < second.len()
        invariant
            j <= second@.len(),
            names_view(r@) == names_view(first@) + names_view(second@.take(j as int)),
        decreases second@.len() - j,
    {
        let ghost prev = r@;
        r.push(second[j].clone());
        assert(names_view(r@) =~= names_view(prev).push(second@[j as int]@));
        assert(names_view(second@.take(j + 1)) =~= names_view(second@.take(j as int)).push(second@[j as int]@));
        assert(names_view(r@) =~= names_view(first@) + names_view(second@.take(j + 1)));
        j = j + 1;
    }
    assert(second@.take(second@.len() as int) =~= second@);
    r
}

/// The ids of `accounts`, in order.
pub fn ids_of(accounts: &Vec<Account>) -> (r: Vec<String>)
    ensures
        names_view(r@) == account_ids(accounts@),
{
    let mut r: Vec<String> = Vec::new();
    let mut i: usize = 0;
    while i < accounts.len()
        invariant
            i <= accounts@.len(),
            names_view(r@) == account_ids(accounts@.take(i as int)),
        decreases accounts@.len() - i,
    {
        let ghost prev = r@;
        r.push(accounts[i].id.clone());
        assert(names_view(r@) =~= names_view(prev).push(accounts@[i as int].id@));
        assert(account_ids(accounts@.take(i + 1)) =~= account_ids(accounts@.take(i as int)).push(accounts@[i as int].id@));
        i = i + 1;
    }
    assert(accounts@.take(accounts@.len() as int) =~= accounts@);
    r
}

/// The first account whose id is `id`, if any.
pub fn find_account<'a>(accounts: &'a Vec<Account>, id: &String) -> (r: Option<&'a Account>)
    ensures
        r matches Some(a) ==> first_with_id(accounts@, id@) == Some(*a),
        r is None ==> first_with_id(accounts@, id@) is None,
{
    let mut i: usize = 0;
    assert(accounts@.skip(0) =~= accounts@);
    while i < accounts.len()
        invariant
            i <= accounts@.len(),
            first_with_id(accounts@, id@) == first_with_id(accounts@.skip(i as int), id@),
        decreases accounts@.len() - i,
    {
        assert(accounts@.skip(i as int).drop_first() =~= accounts@.skip(i + 1));
        if accounts[i].id == *id {
            return Some(&accounts[i]);
        }
        i = i + 1;
    }
    None
}

impl UserInterface {
    /// Starts on the account list with nothing focused.
    pub fn new() -> (r: UserInterface)
        ensures
            r.current_mode == Mode::Accounts,
            r.current_account@.len() == 0,
            r.current_contact@.len() == 0,
    {
        UserInterface { current_mode: Mode::Accounts, current_account: String::new(), current_contact: String::new() }
    }

    /// On the account list with no account focused, focuses the first account.
    pub fn focus_first_account(&mut self, accounts: &Vec<Account>)
        ensures
            final(self).current_mode == old(self).current_mode,
            final(self).current_contact == old(self).current_contact,
            if old(self).current_mode == Mode::Accounts && old(self).current_account@.len() == 0
                && accounts@.len() > 0 {
                final(self).current_account@ == accounts@[0].id@
            } else {
                final(self).current_account == old(self).current_account
            },
    {
        if self.current_mode == Mode::Accounts && self.current_account.as_str().is_empty() && accounts.len() > 0 {
            self.current_account = accounts[0].id.clone();
        }
    }

    /// On the contact list with no contact focused, focuses the first pending
    /// request, or else the first contact.
    pub fn focus_first_contact(&mut self, requests: &Vec<String>, contacts: &Vec<String>)
        ensures
            final(self).current_mode == old(self).current_mode,
            final(self).current_account == old(self).current_account,
            if old(self).current_mode == Mode::Contacts && old(self).current_contact@.len() == 0
                && requests@.len() + contacts@.len() > 0 {
                final(self).current_contact@ == (names_view(requests@) + names_view(contacts@))[0]
            } else {
                final(self).current_contact == old(self).current_contact
            },
    {
        if self.current_mode == Mode::Contacts && self.current_contact.as_str().is_empty() {
            if requests.len() > 0 {
                self.current_contact = requests[0].clone();
            } else if contacts.len() > 0 {
                self.current_contact = contacts[0].clone();
            }
        }
    }

    /// A key on the account list.
    pub fn accounts_key(&mut self, key: i32, accounts: &Vec<Account>) -> (r: Command)
        requires
            old(self).current_mode == Mode::Accounts,
        ensures
            key == KEY_SPACE ==> *final(self) == *old(self) && match first_with_id(
                accounts@,
                old(self).current_account@,
            ) {
                Some(a) => r matches Command::EnableAccount { id, enable } && id@ == a.id@ && enable
                    == !a.enabled,
                None => r is Idle,
            },
            (key == KEY_DOWN || key == KEY_UP) ==> {
                &&& r is Idle
                &&& final(self).current_mode == Mode::Accounts
                &&& final(self).current_contact == old(self).current_contact
                &&& final(self).current_account@ == step(
                    account_ids(accounts@),
                    old(self).current_account@,
                    key == KEY_DOWN,
                )
            },
            key == KEY_ENTER ==> r is Idle && final(self).current_mode == Mode::Contacts
                && final(self).current_account == old(self).current_account
                && final(self).current_contact == old(self).current_contact,
            key == KEY_ESC ==> r is Quit && *final(self) == *old(self),
            key == KEY_ADD ==> r is Idle && final(self).current_mode == Mode::AddAccount
                && final(self).current_account == old(self).current_account
                && final(self).current_contact == old(self).current_contact,
            key == KEY_IMPORT ==> r is Idle && final(self).current_mode == Mode::ImportAccount
                && final(self).current_account == old(self).current_account
                && final(self).current_contact == old(self).current_contact,
            key == KEY_REMOVE ==> {
                &&& r matches Command::RemoveAccount { id } && id@ == old(self).current_account@
                &&& final(self).current_mode == Mode::Accounts
                &&& final(self).current_account@.len() == 0
                &&& final(self).current_contact == old(self).current_contact
            },
            !(key == KEY_SPACE || key == KEY_DOWN || key == KEY_UP || key == KEY_ENTER || key == KEY_ESC
                || key == KEY_ADD || key == KEY_IMPORT || key == KEY_REMOVE) ==> r is Idle && *final(self)
                == *old(self),
    {
        if key == KEY_SPACE {
            match find_account(accounts, &self.current_account) {
                Some(a) => Command::EnableAccount { id: a.id.clone(), enable: !a.enabled },
                None => Command::Idle,
            }
        } else if key == KEY_DOWN || key == KEY_UP {
            let ids = ids_of(accounts);
            self.current_account = step_focus(&ids, &self.current_account, key == KEY_DOWN);
            Command::Idle
        } else if key == KEY_ENTER {
            self.current_mode = Mode::Contacts;
            Command::Idle
        } else if key == KEY_ESC {
            Command::Quit
        } else if key == KEY_ADD {
            self.current_mode = Mode::AddAccount;
            Command::Idle
        } else if key == KEY_IMPORT {
            self.current_mode = Mode::ImportAccount;
            Command::Idle
        } else if key == KEY_REMOVE {
            let id = self.current_account.clone();
            self.current_account = String::new();
            Command::RemoveAccount { id }
        } else {
            Command::Idle
        }
    }
}

impl UserInterface {
    /// A key on the contact list of the focused account. `requests` are the
    /// pending requests and `contacts` the confirmed contacts of that account.
    pub fn contacts_key(&mut self, key: i32, requests: &Vec<String>, contacts: &Vec<String>) -> (r: Command)
        requires
            old(self).current_mode == Mode::Contacts,
        ensures
            final(self).current_account == old(self).current_account,
            key == KEY_ESC ==> r is Idle && final(self).current_mode == Mode::Accounts
                && final(self).current_contact@.len() == 0,
            (key == KEY_DOWN || key == KEY_UP) ==> {
                &&& r is Idle
                &&& final(self).current_mode == Mode::Contacts
                &&& final(self).current_contact@ == step(
                    names_view(requests@) + names_view(contacts@),
                    old(self).current_contact@,
                    key == KEY_DOWN,
                )
            },
            key == KEY_REMOVE ==> {
                &&& final(self).current_mode == Mode::Contacts
                &&& final(self).current_contact@.len() == 0
                &&& if names_view(requests@).contains(old(self).current_contact@) {
                    r matches Command::AnswerRequest { account_id, from, accept } && account_id@
                        == old(self).current_account@ && from@ == old(self).current_contact@ && !accept
                } else {
                    r matches Command::RemoveContact { account_id, contact, banned } && account_id@
                        == old(self).current_account@ && contact@ == old(self).current_contact@ && !banned
                }
            },
            key == KEY_BAN ==> {
                &&& final(self).current_mode == Mode::Contacts
                &&& final(self).current_contact@.len() == 0
                &&& r matches Command::RemoveContact { account_id, contact, banned } && account_id@
                    == old(self).current_account@ && contact@ == old(self).current_contact@ && banned
            },
            key == KEY_ADD ==> if names_view(requests@).contains(old(self).current_contact@) {
                &&& *final(self) == *old(self)
                &&& r matches Command::AnswerRequest { account_id, from, accept } && account_id@
                    == old(self).current_account@ && from@ == old(self).current_contact@ && accept
            } else {
                r is Idle && final(self).current_mode == Mode::AddContact && final(self).current_contact
                    == old(self).current_contact
            },
            key == KEY_ENTER ==> r is Idle && final(self).current_mode == Mode::SendInteraction
                && final(self).current_contact == old(self).current_contact,
            key == KEY_CALL ==> *final(self) == *old(self) && (r matches Command::PlaceCall {
                account_id,
                contact,
            } && account_id@ == old(self).current_account@ && contact@ == old(self).current_contact@),
            !(key == KEY_ESC || key == KEY_DOWN || key == KEY_UP || key == KEY_REMOVE || key == KEY_BAN
                || key == KEY_ADD || key == KEY_ENTER || key == KEY_CALL) ==> r is Idle && *final(self)
                == *old(self),
    {
        if key == KEY_ESC {
            self.current_contact = String::new();
            self.current_mode = Mode::Accounts;
            Command::Idle
        } else if key == KEY_DOWN || key == KEY_UP {
            let all = joined(requests, contacts);
            self.current_contact = step_focus(&all, &self.current_contact, key == KEY_DOWN);
            Command::Idle
        } else if key == KEY_REMOVE {
            let pending = is_listed(requests, &self.current_contact);
            let account_id = self.current_account.clone();
            let contact = self.current_contact.clone();
            self.current_contact = String::new();
            if pending {
                Command::AnswerRequest { account_id, from: contact, accept: false }
            } else {
                Command::RemoveContact { account_id, contact, banned: false }
            }
        } else if key == KEY_BAN {
            let account_id = self.current_account.clone();
            let contact = self.current_contact.clone();
            self.current_contact = String::new();
            Command::RemoveContact { account_id, contact, banned: true }
        } else if key == KEY_ADD {
            if is_listed(requests, &self.current_contact) {
                Command::AnswerRequest {
                    account_id: self.current_account.clone(),
                    from: self.current_contact.clone(),
                    accept: true,
                }
            } else {
                self.current_mode = Mode::AddContact;
                Command::Idle
            }
        } else if key == KEY_ENTER {
            self.current_mode = Mode::SendInteraction;
            Command::Idle
        } else if key == KEY_CALL {
            Command::PlaceCall { account_id: self.current_account.clone(), contact: self.current_contact.clone() }
        } else {
            Command::Idle
        }
    }

    /// Closes the account form: a confirmed form asks for the account, and either
    /// way the account list comes back. A form still being edited changes nothing.
    pub fn finish_account_form(&mut self, form: AccountForm, status: FormStatus) -> (r: Command)
        ensures
            final(self).current_account == old(self).current_account,
            final(self).current_contact == old(self).current_contact,
            status == FormStatus::Editing ==> r is Idle && final(self).current_mode == old(self).current_mode,
            status == FormStatus::Cancelled ==> r is Idle && final(self).current_mode == Mode::Accounts,
            status == FormStatus::Confirmed ==> final(self).current_mode == Mode::Accounts
                && (r matches Command::AddAccount { main_info, password, from_archive } && main_info
                == form.identity && password == form.password && from_archive == form.import),
    {
        match status {
            FormStatus::Editing => Command::Idle,
            FormStatus::Cancelled => {
                self.current_mode = Mode::Accounts;
                Command::Idle
            },
            FormStatus::Confirmed => {
                self.current_mode = Mode::Accounts;
                Command::AddAccount { main_info: form.identity, password: form.password, from_archive: form.import }
            },
        }
    }

    /// Closes the contact form: a confirmed form adds the typed contact to the
    /// focused account, or sends the typed text from the focused account to the
    /// focused contact; either way the contact list comes back. A form still
    /// being edited changes nothing.
    pub fn finish_contact_form(&mut self, form: ContactForm, status: FormStatus) -> (r: Command)
        ensures
            final(self).current_account == old(self).current_account,
            final(self).current_contact == old(self).current_contact,
            status == FormStatus::Editing ==> r is Idle && final(self).current_mode == old(self).current_mode,
            status == FormStatus::Cancelled ==> r is Idle && final(self).current_mode == Mode::Contacts,
            status == FormStatus::Confirmed && form.add ==> final(self).current_mode == Mode::Contacts
                && (r matches Command::AddContact { account_id, contact } && account_id@
                == old(self).current_account@ && contact == form.entry),
            status == FormStatus::Confirmed && !form.add ==> final(self).current_mode == Mode::Contacts
                && (r matches Command::SendText { from, to, body } && from@ == old(self).current_account@
                && to@ == old(self).current_contact@ && body == form.entry),
    {
        match status {
            FormStatus::Editing => Command::Idle,
            FormStatus::Cancelled => {
                self.current_mode = Mode::Contacts;
                Command::Idle
            },
            FormStatus::Confirmed => {
                self.current_mode = Mode::Contacts;
                if form.add {
                    Command::AddContact { account_id: self.current_account.clone(), contact: form.entry }
                } else {
                    Command::SendText {
                        from: self.current_account.clone(),
                        to: self.current_contact.clone(),
                        body: form.entry,
                    }
                }
            },
        }
    }
}

impl AccountForm {
    /// An empty form with the focus on the first field.
    pub fn new(import: bool) -> (r: AccountForm)
        ensures
            r.identity@.len() == 0,
            r.password@.len() == 0,
            r.focus == AccountField::Identity,
            r.import == import,
    {
        AccountForm { identity: String::new(), password: String::new(), focus: AccountField::Identity, import }
    }

    /// A key in the form: tab moves the focus, enter presses the focused button,
    /// escape cancels, backspace erases from the focused field and any other key
    /// types its character there.
    pub fn handle_key(&mut self, key: i32) -> (r: FormStatus)
        ensures
            final(self).import == old(self).import,
            key == NO_KEY ==> r == FormStatus::Editing && *final(self) == *old(self),
            key == KEY_ESC ==> r == FormStatus::Cancelled && *final(self) == *old(self),
            key == KEY_TAB ==> r == FormStatus::Editing && final(self).focus == next_account_field(old(self).focus)
                && final(self).identity == old(self).identity && final(self).password == old(self).password,
            key == KEY_ENTER ==> *final(self) == *old(self) && r == match old(self).focus {
                AccountField::OkButton => FormStatus::Confirmed,
                AccountField::CancelButton => FormStatus::Cancelled,
                _ => FormStatus::Editing,
            },
            !(key == NO_KEY || key == KEY_ESC || key == KEY_TAB || key == KEY_ENTER) ==> {
                &&& r == FormStatus::Editing
                &&& final(self).focus == old(self).focus
                &&& final(self).identity@ == if old(self).focus == AccountField::Identity {
                    if key == KEY_BACKSPACE { erased(old(self).identity@) } else { old(self).identity@.push(typed_char(key)) }
                } else {
                    old(self).identity@
                }
                &&& final(self).password@ == if old(self).focus == AccountField::Password {
                    if key == KEY_BACKSPACE { erased(old(self).password@) } else { old(self).password@.push(typed_char(key)) }
                } else {
                    old(self).password@
                }
            },
    {
        if key == NO_KEY {
            FormStatus::Editing
        } else if key == KEY_ESC {
            FormStatus::Cancelled
        } else if key == KEY_TAB {
            self.focus = match self.focus {
                AccountField::Identity => AccountField::Password,
                AccountField::Password => AccountField::OkButton,
                AccountField::OkButton => AccountField::CancelButton,
                AccountField::CancelButton => AccountField::Identity,
            };
            FormStatus::Editing
        } else if key == KEY_ENTER {
            match self.focus {
                AccountField::OkButton => FormStatus::Confirmed,
                AccountField::CancelButton => FormStatus::Cancelled,
                _ => FormStatus::Editing,
            }
        } else {
            match self.focus {
                AccountField::Identity => {
                    if key == KEY_BACKSPACE {
                        pop_char(&mut self.identity);
                    } else {
                        push_char(&mut self.identity, key_char(key));
                    }
                },
                AccountField::Password => {
                    if key == KEY_BACKSPACE {
                        pop_char(&mut self.password);
                    } else {
                        push_char(&mut self.password, key_char(key));
                    }
                },
                _ => {},
            }
            FormStatus::Editing
        }
    }
}

impl ContactForm {
    /// An empty form with the focus on its field.
    pub fn new(add: bool) -> (r: ContactForm)
        ensures
            r.entry@.len() == 0,
            r.focus == EntryField::Entry,
            r.add == add,
    {
        ContactForm { entry: String::new(), focus: EntryField::Entry, add }
    }

    /// A key in the form, handled as in the account form with a single field.
    pub fn handle_key(&mut self, key: i32) -> (r: FormStatus)
        ensures
            final(self).add == old(self).add,
            key == NO_KEY ==> r == FormStatus::Editing && *final(self) == *old(self),
            key == KEY_ESC ==> r == FormStatus::Cancelled && *final(self) == *old(self),
            key == KEY_TAB ==> r == FormStatus::Editing && final(self).focus == next_entry_field(old(self).focus)
                && final(self).entry == old(self).entry,
            key == KEY_ENTER ==> *final(self) == *old(self) && r == match old(self).focus {
                EntryField::OkButton => FormStatus::Confirmed,
                EntryField::CancelButton => FormStatus::Cancelled,
                EntryField::Entry => FormStatus::Editing,
            },
            !(key == NO_KEY || key == KEY_ESC || key == KEY_TAB || key == KEY_ENTER) ==> {
                &&& r == FormStatus::Editing
                &&& final(self).focus == old(self).focus
                &&& final(self).entry@ == if old(self).focus == EntryField::Entry {
                    if key == KEY_BACKSPACE { erased(old(self).entry@) } else { old(self).entry@.push(typed_char(key)) }
                } else {
                    old(self).entry@
                }
            },
    {
        if key == NO_KEY {
            FormStatus::Editing
        } else if key == KEY_ESC {
            FormStatus::Cancelled
        } else if key == KEY_TAB {
            self.focus = match self.focus {
                EntryField::Entry => EntryField::OkButton,
                EntryField::OkButton => EntryField::CancelButton,
                EntryField::CancelButton => EntryField::Entry,
            };
            FormStatus::Editing
        } else if key == KEY_ENTER {
            match self.focus {
                EntryField::OkButton => FormStatus::Confirmed,
                EntryField::CancelButton => FormStatus::Cancelled,
                EntryField::Entry => FormStatus::Editing,
            }
        } else {
            if self.focus == EntryField::Entry {
                if key == KEY_BACKSPACE {
                    pop_char(&mut self.entry);
                } else {
                    push_char(&mut self.entry, key_char(key));
                }
            }
            FormStatus::Editing
        }
    }
}

/// The line that shows an account: its status box, display name and address.
pub fn account_label(a: &Account) -> (r: String)
    ensures
        r@ == (if a.enabled { "[x] "@ } else { "[ ] "@ }) + a.alias@ + " ("@ + a.ring_id@ + ")"@,
{
    let status = if a.enabled {
        String::from_str("[x] ")
    } else {
        String::from_str("[ ] ")
    };
    status.concat(a.alias.as_str()).concat(" (").concat(a.ring_id.as_str()).concat(")")
}

/// The key help shown on top of the main screen; on the contact list it
/// depends on whether the focused entry is a pending request.
pub fn help_line(mode: Mode, focus_is_request: bool) -> (r: String)
    ensures
        mode == Mode::Accounts ==> r@ == "ESC: quit | A: Add | R: Remove | SPACE: Enable | I: Import | Enter: Select"@,
        mode == Mode::Contacts && focus_is_request ==> r@ == "ESC: return | A: Accept | R: Discard"@,
        mode == Mode::Contacts && !focus_is_request ==> r@
            == "ESC: return | A: Add | R: Remove | B: Ban | C: Call | Enter: Send message"@,
        mode != Mode::Accounts && mode != Mode::Contacts ==> r@.len() == 0,
{
    match mode {
        Mode::Accounts => String::from_str("ESC: quit | A: Add | R: Remove | SPACE: Enable | I: Import | Enter: Select"),
        Mode::Contacts => {
            if focus_is_request {
                String::from_str("ESC: return | A: Accept | R: Discard")
            } else {
                String::from_str("ESC: return | A: Add | R: Remove | B: Ban | C: Call | Enter: Send message")
            }
        },
        _ => String::new(),
    }
}

} // verus!
