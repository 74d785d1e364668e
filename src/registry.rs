//! An in-memory keyed store holding the user records and the statistics
//! singleton, with the four registry operations over it.

use vstd::prelude::*;
use crate::engine::{plan_login, plan_register, spec_stats_or_default, stats_or_default};
use crate::model::{Identity, SystemStats, User, UserView};

verus! {

/// The contents of a registry: the user records by identity, and the
/// statistics record, absent until the first successful write.
pub ghost struct RegistryView {
    pub users: Map<Seq<u8>, UserView>,
    pub stats: Option<SystemStats>,
}

impl RegistryView {
    /// A registry in which nothing has been stored.
    pub open spec fn empty() -> RegistryView {
        RegistryView { users: Map::empty(), stats: None }
    }

    /// The record stored for `user_id`, if any.
    pub open spec fn get_user(self, user_id: Seq<u8>) -> Option<UserView> {
        if self.users.contains_key(user_id) {
            Some(self.users[user_id])
        } else {
            None
        }
    }

    /// The statistics as read: all zeros while none were stored.
    pub open spec fn system_stats(self) -> SystemStats {
        spec_stats_or_default(self.stats)
    }

    /// The registry after `register_user(user_id, username)` at time `now`,
    /// and what the call returns.
    pub open spec fn register(self, user_id: Seq<u8>, username: Seq<char>, now: u64) -> (
        RegistryView,
        bool,
    ) {
        if self.users.contains_key(user_id) {
            (self, false)
        } else {
            (
                RegistryView {
                    users: self.users.insert(user_id, UserView::fresh(user_id, username, now)),
                    stats: Some(self.system_stats().spec_registered()),
                },
                true,
            )
        }
    }

    /// The registry after `login(user_id)` at time `now`, and what the call
    /// returns.
    pub open spec fn login(self, user_id: Seq<u8>, now: u64) -> (RegistryView, bool) {
        if self.users.contains_key(user_id) && self.users[user_id].active {
            (
                RegistryView {
                    users: self.users.insert(user_id, self.users[user_id].logged_in(now)),
                    stats: Some(self.system_stats().spec_logged_in()),
                },
                true,
            )
        } else {
            (self, false)
        }
    }

    /// What holds of every registry that the operations can produce: each
    /// record sits under its own identity and is active, no user has more
    /// logins than the total, and the statistics count the records.
    pub open spec fn inv(self) -> bool {
        &&& self.users.dom().finite()
        &&& forall|k: Seq<u8>| #[trigger]
            self.users.contains_key(k) ==> {
                &&& self.users[k].user_id == k
                &&& self.users[k].active
                &&& self.users[k].login_count <= self.system_stats().total_logins
            }
        &&& self.system_stats().total_users == self.users.len()
        &&& self.system_stats().active_users == self.system_stats().total_users
        &&& self.system_stats().inactive_users == 0
    }
}

/// A registry of users kept in memory.
pub struct DecentralizedLoginSystem {
    users: Vec<User>,
    stats: Option<SystemStats>,
    model: Ghost<Map<Seq<u8>, UserView>>,
}

impl View for DecentralizedLoginSystem {
    type V = RegistryView;

    closed spec fn view(&self) -> RegistryView {
        RegistryView { users: self.model@, stats: self.stats }
    }
}

/// Whether two identities hold the same bytes.
fn same_identity(a: &Identity, b: &Identity) -> (r: bool)
    ensures
        r == (a@ == b@),
{
    let mut i: usize = 0;
    while i < 32
        invariant
            0 <= i <= 32,
            a@.len() == 32,
            b@.len() == 32,
            forall|j: int| 0 <= j < i ==> a@[j] == b@[j],
        decreases 32 - i,
    {
        if a[i] != b[i] {
            return false;
        }
        i = i + 1;
    }
    assert(a@ =~= b@);
    true
}

impl DecentralizedLoginSystem {
    /// The stored vector of records agrees with the model: one record per
    /// identity, each equal to what the model holds under its identity.
    closed spec fn layout(&self) -> bool {
        &&& self.users@.len() == self.model@.len()
        &&& forall|i: int|
            0 <= i < self.users@.len() ==> {
                &&& self.model@.contains_key(#[trigger] self.users@[i].user_id@)
                &&& self.model@[self.users@[i].user_id@] == self.users@[i]@
            }
        &&& forall|k: Seq<u8>| #[trigger]
            self.model@.contains_key(k) ==> exists|i: int|
                0 <= i < self.users@.len() && #[trigger] self.users@[i].user_id@ == k
        &&& forall|i: int, j: int|
            0 <= i < j < self.users@.len() ==> #[trigger] self.users@[i].user_id@
                != #[trigger] self.users@[j].user_id@
    }

    /// Well-formedness: the layout agrees with the model, and the model
    /// satisfies the registry invariant.
    pub closed spec fn wf(&self) -> bool {
        self.layout() && self@.inv()
    }

    /// An empty registry.
    pub fn new() -> (r: DecentralizedLoginSystem)
        ensures
            r.wf(),
            r@ == RegistryView::empty(),
    {
        DecentralizedLoginSystem { users: Vec::new(), stats: None, model: Ghost(Map::empty()) }
    }

    /// The position of the record of `user_id`, if there is one.
    fn find(&self, user_id: &Identity) -> (r: Option<usize>)
        requires
            self.wf(),
        ensures
            match r {
                Some(i) => i < self.users@.len() && self.users@[i as int].user_id@ == user_id@,
                None => !self@.users.contains_key(user_id@),
            },
    {
        let mut i: usize = 0;
        while i < self.users.len()
            invariant
                self.wf(),
                0 <= i <= self.users@.len(),
                forall|j: int| 0 <= j < i ==> self.users@[j].user_id@ != user_id@,
            decreases self.users@.len() - i,
        {
            if same_identity(&self.users[i].user_id, user_id) {
                return Some(i);
            }
            i = i + 1;
        }
        None
    }

    /// The record of `user_id`, or `None` when the identity was never
    /// registered. Changes nothing.
    pub fn get_user(&self, user_id: Identity) -> (r: Option<User>)
        requires
            self.wf(),
        ensures
            match r {
                Some(u) => self@.get_user(user_id@) == Some(u@),
                None => self@.get_user(user_id@) is None,
            },
    {
        match self.find(&user_id) {
            Some(i) => Some(self.users[i].clone()),
            None => None,
        }
    }

    /// The statistics: the stored record, or all zeros while nothing has been
    /// stored. Changes nothing.
    pub fn get_system_stats(&self) -> (r: SystemStats)
        ensures
            r == self@.system_stats(),
    {
        stats_or_default(self.stats)
    }

    /// Registers `user_id` under `username` at time `now`.
    ///
    /// Returns `false` and changes nothing when the identity already has a
    /// record. Otherwise stores a fresh active record with no logins and
    /// `now` as its registration and last login time, counts one more user
    /// and one more active user in the statistics, and returns `true`.
    pub fn register_user(&mut self, user_id: Identity, username: String, now: u64) -> (r: bool)
        requires
            old(self).wf(),
            old(self)@.system_stats().total_users < u64::MAX,
        ensures
            final(self).wf(),
            (final(self)@, r) == old(self)@.register(user_id@, username@, now),
    {
        let existing = self.get_user(user_id);
        match plan_register(&existing, self.stats, user_id, username, now) {
            None => false,
            Some(commit) => {
                let ghost old_view = self@;
                let ghost uv = commit.user@;
                self.users.push(commit.user);
                self.stats = Some(commit.stats);
                self.model = Ghost(self.model@.insert(user_id@, uv));
                proof {
                    assert(self.model@.dom() == old_view.users.dom().insert(user_id@));
                    assert forall|k: Seq<u8>| #[trigger] self.model@.contains_key(k) implies exists|
                        i: int,
                    |
                        0 <= i < self.users@.len() && #[trigger] self.users@[i].user_id@ == k by {
                        if k == user_id@ {
                            assert(self.users@[self.users@.len() - 1].user_id@ == k);
                        } else {
                            let i = choose|i: int|
                                0 <= i < old(self).users@.len()
                                    && #[trigger] old(self).users@[i].user_id@ == k;
                            assert(self.users@[i].user_id@ == k);
                        }
                    }
                }
                true
            },
        }
    }

    /// Records a login of `user_id` at time `now`.
    ///
    /// Returns `false` and changes nothing when the identity has no record or
    /// its record is not active. Otherwise sets the record's last login time
    /// to `now`, counts one more login in the record and in the statistics,
    /// and returns `true`.
    pub fn login(&mut self, user_id: Identity, now: u64) -> (r: bool)
        requires
            old(self).wf(),
            old(self)@.system_stats().total_logins < u64::MAX,
        ensures
            final(self).wf(),
            (final(self)@, r) == old(self)@.login(user_id@, now),
    {
        let i = match self.find(&user_id) {
            Some(i) => i,
            None => {
                return false;
            },
        };
        let existing = Some(self.users[i].clone());
        match plan_login(existing, self.stats, now) {
            None => false,
            Some(commit) => {
                let ghost uv = commit.user@;
                self.users.set(i, commit.user);
                self.stats = Some(commit.stats);
                self.model = Ghost(self.model@.insert(user_id@, uv));
                proof {
                    assert(self.model@.dom() =~= old(self).model@.dom());
                    assert forall|j: int| 0 <= j < self.users@.len() implies {
                        &&& self.model@.contains_key(#[trigger] self.users@[j].user_id@)
                        &&& self.model@[self.users@[j].user_id@] == self.users@[j]@
                    } by {
                        if j != i {
                            assert(old(self).users@[j].user_id@ != user_id@);
                        }
                    }
                    assert forall|k: Seq<u8>| #[trigger] self.model@.contains_key(k) implies exists|
                        j: int,
                    |
                        0 <= j < self.users@.len() && #[trigger] self.users@[j].user_id@ == k by {
                        let j = choose|j: int|
                            0 <= j < old(self).users@.len()
                                && #[trigger] old(self).users@[j].user_id@ == k;
                        assert(self.users@[j].user_id@ == k);
                    }
                }
                true
            },
        }
    }
}

} // verus!
