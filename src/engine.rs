//! What one mutating operation writes, decided from what the store holds.
//!
//! The functions here take the records as read from the keyed store (a user
//! record that may be absent, a statistics record that may never have been
//! written) and the current time, and return the records to write back.
//! Whoever owns the store performs the reads, then the writes, and then
//! extends the storage lifetime by `TTL_THRESHOLD` / `TTL_EXTEND_TO`.

use vstd::prelude::*;
use crate::model::{Identity, SystemStats, User, UserView};

verus! {

/// Remaining lifetime, in ledgers, below which a write extends the
/// lifetime of the stored records.
pub const TTL_THRESHOLD: u32 = 5000;

/// Lifetime, in ledgers, that a write extends the stored records to.
pub const TTL_EXTEND_TO: u32 = 5000;

/// The two records that a successful register or login writes. They are
/// written together, as one unit: the user record under its identity key and
/// the statistics under the singleton key.
pub struct Commit {
    pub user: User,
    pub stats: SystemStats,
}

/// The statistics as seen by a reader: the stored record, or all zeros while
/// none has been written.
pub open spec fn spec_stats_or_default(stored: Option<SystemStats>) -> SystemStats {
    match stored {
        Some(s) => s,
        None => SystemStats::spec_zero(),
    }
}

pub fn stats_or_default(stored: Option<SystemStats>) -> (r: SystemStats)
    ensures
        r == spec_stats_or_default(stored),
{
    match stored {
        Some(s) => s,
        None => SystemStats::zero(),
    }
}

/// Registration of `user_id` under `username` at time `now`, given the user
/// record stored under that identity and the stored statistics.
///
/// An identity that already has a record is refused (`None`): nothing is to
/// be written. Otherwise the new record is active, has not logged in, and
/// carries `now` as both its registration and last login time; the statistics
/// count one more user and one more active user.
pub fn plan_register(
    existing: &Option<User>,
    stored_stats: Option<SystemStats>,
    user_id: Identity,
    username: String,
    now: u64,
) -> (r: Option<Commit>)
    requires
        existing.is_none() ==> spec_stats_or_default(stored_stats).total_users < u64::MAX,
        existing.is_none() ==> spec_stats_or_default(stored_stats).active_users < u64::MAX,
    ensures
        r.is_some() <==> existing.is_none(),
        r matches Some(c) ==> {
            &&& c.user@ == UserView::fresh(user_id@, username@, now)
            &&& c.stats == spec_stats_or_default(stored_stats).spec_registered()
        },
{
    if existing.is_some() {
        return None;
    }
    let user = User::new(user_id, username, now);
    let mut stats = stats_or_default(stored_stats);
    stats.total_users = stats.total_users + 1;
    stats.active_users = stats.active_users + 1;
    Some(Commit { user, stats })
}

/// A login at time `now`, given the user record stored under the identity and
/// the stored statistics.
///
/// An identity without a record, or whose record is not active, is refused
/// (`None`). Otherwise the record takes `now` as its last login time and
/// counts one more login, and so do the statistics.
pub fn plan_login(existing: Option<User>, stored_stats: Option<SystemStats>, now: u64) -> (r:
    Option<Commit>)
    requires
        existing matches Some(u) ==> (u.active ==> {
            &&& u.login_count < u64::MAX
            &&& spec_stats_or_default(stored_stats).total_logins < u64::MAX
        }),
    ensures
        r.is_some() <==> (existing matches Some(u) && u.active),
        r matches Some(c) ==> {
            &&& c.user@ == existing.unwrap()@.logged_in(now)
            &&& c.stats == spec_stats_or_default(stored_stats).spec_logged_in()
        },
{
    match existing {
        Some(mut user) => {
            if !user.active {
                return None;
            }
            user.last_login = now;
            user.login_count = user.login_count + 1;
            let mut stats = stats_or_default(stored_stats);
            stats.total_logins = stats.total_logins + 1;
            Some(Commit { user, stats })
        },
        None => None,
    }
}

} // verus!
