//! Records kept by the registry: users, the statistics singleton, and the keys
//! that address user records.

use vstd::prelude::*;

verus! {

/// The fixed-length byte string that identifies a user.
pub type Identity = [u8; 32];

/// One registered identity.
#[derive(Debug)]
pub struct User {
    pub user_id: Identity,
    pub username: String,
    pub registered_time: u64,
    pub last_login: u64,
    pub login_count: u64,
    pub active: bool,
}

/// What a `User` holds, as mathematical values.
pub ghost struct UserView {
    pub user_id: Seq<u8>,
    pub username: Seq<char>,
    pub registered_time: u64,
    pub last_login: u64,
    pub login_count: u64,
    pub active: bool,
}

impl View for User {
    type V = UserView;

    open spec fn view(&self) -> UserView {
        UserView {
            user_id: self.user_id@,
            username: self.username@,
            registered_time: self.registered_time,
            last_login: self.last_login,
            login_count: self.login_count,
            active: self.active,
        }
    }
}

impl UserView {
    /// The record that registration creates at time `now`.
    pub open spec fn fresh(user_id: Seq<u8>, username: Seq<char>, now: u64) -> UserView {
        UserView {
            user_id,
            username,
            registered_time: now,
            last_login: now,
            login_count: 0,
            active: true,
        }
    }

    /// The record after one successful login at time `now`.
    pub open spec fn logged_in(self, now: u64) -> UserView {
        UserView { last_login: now, login_count: (self.login_count + 1) as u64, ..self }
    }
}

impl User {
    /// A newly registered, active user who has not logged in yet.
    pub fn new(user_id: Identity, username: String, now: u64) -> (r: User)
        ensures
            r@ == UserView::fresh(user_id@, username@, now),
    {
        User {
            user_id,
            username,
            registered_time: now,
            last_login: now,
            login_count: 0,
            active: true,
        }
    }
}

impl Clone for User {
    fn clone(&self) -> (r: User)
        ensures
            r == *self,
    {
        User {
            user_id: self.user_id,
            username: self.username.clone(),
            registered_time: self.registered_time,
            last_login: self.last_login,
            login_count: self.login_count,
            active: self.active,
        }
    }
}

/// Totals over all user records; one instance per deployment.
#[derive(Clone, Copy, Debug, PartialEq, Eq, Structural)]
pub struct SystemStats {
    pub total_users: u64,
    pub active_users: u64,
    pub inactive_users: u64,
    pub total_logins: u64,
}

impl SystemStats {
    /// The statistics of a deployment where nothing has happened yet.
    pub open spec fn spec_zero() -> SystemStats {
        SystemStats { total_users: 0, active_users: 0, inactive_users: 0, total_logins: 0 }
    }

    /// All four counters at zero.
    pub fn zero() -> (r: SystemStats)
        ensures
            r == SystemStats::spec_zero(),
    {
        SystemStats { total_users: 0, active_users: 0, inactive_users: 0, total_logins: 0 }
    }

    /// The statistics after one more active user was registered.
    pub open spec fn spec_registered(self) -> SystemStats {
        SystemStats {
            total_users: (self.total_users + 1) as u64,
            active_users: (self.active_users + 1) as u64,
            ..self
        }
    }

    /// The statistics after one more successful login.
    pub open spec fn spec_logged_in(self) -> SystemStats {
        SystemStats { total_logins: (self.total_logins + 1) as u64, ..self }
    }
}

impl Default for SystemStats {
    fn default() -> (r: SystemStats)
        ensures
            r == SystemStats::spec_zero(),
    {
        SystemStats::zero()
    }
}

/// Where a record lives in the keyed store: one key per user identity, and
/// one fixed key for the statistics singleton. The two families cannot
/// collide, since they are distinct variants.
#[derive(Clone, Copy, Debug)]
pub enum DataKey {
    User(Identity),
    SystemStats,
}

} // verus!
