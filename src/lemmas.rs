//! Facts about sequences of registry operations, stated over `RegistryView`.

use vstd::prelude::*;
use crate::model::{SystemStats, UserView};
use crate::registry::RegistryView;

verus! {

/// One mutating call on a registry, with its arguments.
pub ghost enum Call {
    Register { user_id: Seq<u8>, username: Seq<char>, now: u64 },
    Login { user_id: Seq<u8>, now: u64 },
}

/// The registry after `c`, and what `c` returns.
pub open spec fn step(s: RegistryView, c: Call) -> (RegistryView, bool) {
    match c {
        Call::Register { user_id, username, now } => s.register(user_id, username, now),
        Call::Login { user_id, now } => s.login(user_id, now),
    }
}

/// The registry after the calls of `calls`, in order.
pub open spec fn run(s: RegistryView, calls: Seq<Call>) -> RegistryView
    decreases calls.len(),
{
    if calls.len() == 0 {
        s
    } else {
        step(run(s, calls.drop_last()), calls.last()).0
    }
}

/// How many of `calls`, run from `s`, are registrations that returned `true`.
pub open spec fn registrations(s: RegistryView, calls: Seq<Call>) -> nat
    decreases calls.len(),
{
    if calls.len() == 0 {
        0
    } else {
        let ok = step(run(s, calls.drop_last()), calls.last()).1;
        registrations(s, calls.drop_last()) + if calls.last() is Register && ok {
            1nat
        } else {
            0nat
        }
    }
}

/// How many of `calls`, run from `s`, are logins that returned `true`.
pub open spec fn logins(s: RegistryView, calls: Seq<Call>) -> nat
    decreases calls.len(),
{
    if calls.len() == 0 {
        0
    } else {
        let ok = step(run(s, calls.drop_last()), calls.last()).1;
        logins(s, calls.drop_last()) + if calls.last() is Login && ok {
            1nat
        } else {
            0nat
        }
    }
}

/// Logins of `user_id`, one at each time of `times`.
pub open spec fn logins_at(user_id: Seq<u8>, times: Seq<u64>) -> Seq<Call> {
    times.map_values(|t: u64| Call::Login { user_id, now: t })
}

/// The registry invariant survives every call whose counter has room left.
proof fn lemma_step_keeps_inv(s: RegistryView, c: Call)
    requires
        s.inv(),
        s.system_stats().total_users < u64::MAX,
        s.system_stats().total_logins < u64::MAX,
    ensures
        step(s, c).0.inv(),
{
    let t = step(s, c).0;
    match c {
        Call::Register { user_id, username, now } => {
            if !s.users.contains_key(user_id) {
                assert(t.users.dom() == s.users.dom().insert(user_id));
            }
        },
        Call::Login { user_id, now } => {
            if s.users.contains_key(user_id) && s.users[user_id].active {
                assert(t.users.dom() =~= s.users.dom());
            }
        },
    }
}

/// Registering an identity that has no record, and then registering it
/// again: the first call returns `true`, the second returns `false` and
/// changes nothing, so the stored record is the one the first call made.
pub proof fn lemma_register_twice(
    s: RegistryView,
    user_id: Seq<u8>,
    first_name: Seq<char>,
    first_now: u64,
    second_name: Seq<char>,
    second_now: u64,
)
    requires
        !s.users.contains_key(user_id),
    ensures
        ({
            let (s1, r1) = s.register(user_id, first_name, first_now);
            let (s2, r2) = s1.register(user_id, second_name, second_now);
            &&& r1
            &&& !r2
            &&& s2 == s1
            &&& s2.get_user(user_id) == Some(UserView::fresh(user_id, first_name, first_now))
        }),
{
}

/// A login of an identity without a record returns `false` and changes
/// nothing: no record appears and the statistics keep their login total.
pub proof fn lemma_login_unknown(s: RegistryView, user_id: Seq<u8>, now: u64)
    requires
        !s.users.contains_key(user_id),
    ensures
        s.login(user_id, now) == (s, false),
        s.login(user_id, now).0.system_stats().total_logins == s.system_stats().total_logins,
{
}

/// Starting from an empty registry, after any sequence of calls the
/// statistics count every successful registration as a user, all of them
/// active and none inactive, and every successful login.
pub proof fn lemma_stats_count_successes(calls: Seq<Call>)
    requires
        calls.len() <= u64::MAX,
    ensures
        ({
            let s = run(RegistryView::empty(), calls);
            let k = registrations(RegistryView::empty(), calls);
            let m = logins(RegistryView::empty(), calls);
            &&& s.inv()
            &&& k + m <= calls.len()
            &&& s.system_stats() == SystemStats {
                total_users: k as u64,
                active_users: k as u64,
                inactive_users: 0,
                total_logins: m as u64,
            }
        }),
    decreases calls.len(),
{
    let e = RegistryView::empty();
    if calls.len() == 0 {
        assert(e.users.dom() =~= Set::empty());
    } else {
        let prefix = calls.drop_last();
        lemma_stats_count_successes(prefix);
        let before = run(e, prefix);
        lemma_step_keeps_inv(before, calls.last());
    }
}

/// Calls of which no registration succeeds leave an empty registry as it
/// is, so its statistics read all zeros.
pub proof fn lemma_stats_default(calls: Seq<Call>)
    requires
        registrations(RegistryView::empty(), calls) == 0,
    ensures
        run(RegistryView::empty(), calls) == RegistryView::empty(),
        run(RegistryView::empty(), calls).system_stats() == SystemStats::spec_zero(),
    decreases calls.len(),
{
    if calls.len() > 0 {
        lemma_stats_default(calls.drop_last());
    }
}

/// Registering an identity that has no record at `registered_at` and then
/// logging it in at each time of `times`: every login succeeds, and the
/// record counts `times.len()` logins with the last of `times` as its last
/// login (the registration time when there were none).
pub proof fn lemma_login_counter(
    s: RegistryView,
    user_id: Seq<u8>,
    username: Seq<char>,
    registered_at: u64,
    times: Seq<u64>,
)
    requires
        !s.users.contains_key(user_id),
        times.len() <= u64::MAX,
    ensures
        ({
            let calls = seq![Call::Register { user_id, username, now: registered_at }] + logins_at(
                user_id,
                times,
            );
            let last = if times.len() == 0 {
                registered_at
            } else {
                times.last()
            };
            &&& logins(s, calls) == times.len()
            &&& run(s, calls).get_user(user_id) == Some(
                UserView {
                    last_login: last,
                    login_count: times.len() as u64,
                    ..UserView::fresh(user_id, username, registered_at)
                },
            )
        }),
    decreases times.len(),
{
    let reg = seq![Call::Register { user_id, username, now: registered_at }];
    let calls = reg + logins_at(user_id, times);
    if times.len() == 0 {
        assert(calls.drop_last() =~= Seq::<Call>::empty());
        assert(calls.last() == reg[0]);
        assert(logins(s, calls.drop_last()) == 0);
    } else {
        let rest = times.drop_last();
        lemma_login_counter(s, user_id, username, registered_at, rest);
        assert(calls.drop_last() =~= reg + logins_at(user_id, rest));
        assert(calls.last() == Call::Login { user_id, now: times.last() });
    }
}

} // verus!
