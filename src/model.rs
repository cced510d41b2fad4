use vstd::prelude::*;

verus! {

/// An account known to the daemon.
#[derive(Clone, Debug)]
pub struct Account {
    /// Opaque, stable identifier used in every request about this account.
    pub id: String,
    /// Public address of the account.
    pub ring_id: String,
    /// Display name.
    pub alias: String,
    /// Registration status.
    pub enabled: bool,
}

/// A text message received for an account.
#[derive(Clone, Debug)]
pub struct Interaction {
    /// Public address of the author.
    pub author_ring_id: String,
    /// Text payload.
    pub body: String,
    /// Reception time, in seconds since the Unix epoch.
    pub time: i64,
}

impl Account {
    /// The placeholder account: every text field empty and not enabled.
    pub fn null() -> (r: Account)
        ensures
            r.id@ == Seq::<char>::empty(),
            r.ring_id@ == Seq::<char>::empty(),
            r.alias@ == Seq::<char>::empty(),
            !r.enabled,
    {
        Account { id: String::new(), ring_id: String::new(), alias: String::new(), enabled: false }
    }

    /// A field-by-field copy.
    pub fn duplicate(&self) -> (r: Account)
        ensures
            r == *self,
    {
        Account {
            id: self.id.clone(),
            ring_id: self.ring_id.clone(),
            alias: self.alias.clone(),
            enabled: self.enabled,
        }
    }
}

impl Interaction {
    /// A field-by-field copy.
    pub fn duplicate(&self) -> (r: Interaction)
        ensures
            r == *self,
    {
        Interaction {
            author_ring_id: self.author_ring_id.clone(),
            body: self.body.clone(),
            time: self.time,
        }
    }
}

} // verus!
