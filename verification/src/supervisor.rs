//! The launcher that runs the bot as a child process and starts it again
//! after a crash, unless it crashes too often.

use vstd::prelude::*;
use crate::text::{decimal, u64_to_string};

verus! {

/// The arguments of the launcher.
#[derive(Debug)]
pub struct CliArgs {
    /// The domain that the API listens to.
    pub domain: String,
    /// The port that the API listens to.
    pub port: u16,
}

/// The arguments that the child process is started with.
pub open spec fn child_arguments_spec(domain: Seq<char>, port: u16) -> Seq<Seq<char>> {
    seq!["--port"@, decimal(port as nat), "--domain"@, domain]
}

impl CliArgs {
    /// The arguments that the child process is started with: the port and
    /// the domain.
    pub fn child_arguments(&self) -> (r: Vec<String>)
        ensures
            r@.len() == 4,
            forall|i: int| 0 <= i < 4 ==> #[trigger] r@[i]@ == child_arguments_spec(self.domain@, self.port)[i],
    {
        let r = vec![
            String::from_str("--port"),
            u64_to_string(self.port as u64),
            String::from_str("--domain"),
            self.domain.clone(),
        ];
        r
    }
}

/// The span, in milliseconds, over which crashes are counted.
pub const CRASH_WINDOW_MILLIS: u64 = 120000;

/// The number of crashes within the span after which the launcher gives up.
pub const MAX_CRASHES: usize = 5;

/// The crashes of `s` that happened within the span before `now`, in
/// order.
pub open spec fn recent_crashes(s: Seq<u64>, now: u64) -> Seq<u64>
    decreases s.len(),
{
    if s.len() == 0 {
        Seq::empty()
    } else {
        recent_crashes(s.drop_last(), now) + (if s.last() + CRASH_WINDOW_MILLIS > now {
            seq![s.last()]
        } else {
            Seq::<u64>::empty()
        })
    }
}

/// The crashes kept are all within the span before `now`, in the order in
/// which they came, and never more than were recorded.
pub proof fn law_recent_crashes_within_window(s: Seq<u64>, now: u64)
    ensures
        recent_crashes(s, now).len() <= s.len(),
        forall|i: int| 0 <= i < recent_crashes(s, now).len() ==> #[trigger] recent_crashes(s, now)[i] + CRASH_WINDOW_MILLIS > now,
        forall|c: u64| recent_crashes(s, now).contains(c) ==> s.contains(c),
    decreases s.len(),
{
    if s.len() > 0 {
        let t = s.drop_last();
        law_recent_crashes_within_window(t, now);
        let r = recent_crashes(s, now);
        let rt = recent_crashes(t, now);
        if s.last() + CRASH_WINDOW_MILLIS > now {
            assert(r =~= rt.push(s.last()));
        } else {
            assert(r =~= rt);
        }
        assert forall|c: u64| r.contains(c) implies s.contains(c) by {
            let k = choose|k: int| 0 <= k < r.len() && r[k] == c;
            if k < rt.len() {
                assert(r[k] == rt[k]);
                assert(rt.contains(c));
                assert(t.contains(c));
                let m = choose|m: int| 0 <= m < t.len() && t[m] == c;
                assert(t[m] == s[m]);
                assert(s[m] == c);
            } else {
                assert(r[k] == s.last());
                assert(s[s.len() - 1] == c);
            }
        }
    }
}

/// What the launcher does once the child process has ended.
#[derive(Debug, Clone, Copy, PartialEq, Eq, Structural)]
pub enum SupervisorAction {
    /// The process ended well: the launcher stops.
    Stop,
    /// The process crashed: it is started again.
    Restart,
    /// The process crashed too often: the launcher gives up.
    GiveUp,
}

/// Decides what follows the end of the child process, at the time `now`
/// in milliseconds: a crash is recorded, the crashes older than the span
/// are forgotten, and the launcher gives up once the span holds
/// `MAX_CRASHES` of them.
pub fn on_process_exit(crashes: &mut Vec<u64>, exit_code: i32, now: u64) -> (r: SupervisorAction)
    ensures
        exit_code == 0 ==> r == SupervisorAction::Stop && final(crashes)@ == old(crashes)@,
        exit_code != 0 ==> final(crashes)@ == recent_crashes(old(crashes)@.push(now), now),
        exit_code != 0 ==> (r == SupervisorAction::GiveUp <==> final(crashes)@.len() >= MAX_CRASHES),
        exit_code != 0 ==> (r == SupervisorAction::Restart <==> final(crashes)@.len() < MAX_CRASHES),
{
    if exit_code == 0 {
        return SupervisorAction::Stop;
    }
    crashes.push(now);
    let ghost all = crashes@;
    let mut kept: Vec<u64> = Vec::new();
    let mut i: usize = 0;
    assert(all.take(0) =~= Seq::<u64>::empty());
    while i < crashes.len()
        invariant
            i <= crashes.len(),
            crashes@ == all,
            kept@ == recent_crashes(all.take(i as int), now),
        decreases crashes.len() - i,
    {
        let c = crashes[i];
        assert(all.take(i + 1).drop_last() =~= all.take(i as int));
        let keep = if now < CRASH_WINDOW_MILLIS { true } else { c > now - CRASH_WINDOW_MILLIS };
        if keep {
            kept.push(c);
        }
        proof {
            let t = all.take(i + 1);
            assert(t.last() == c);
            if keep {
                assert(kept@ =~= recent_crashes(t, now));
            } else {
                assert(kept@ =~= recent_crashes(t, now));
            }
        }
        i = i + 1;
    }
    assert(all.take(i as int) =~= all);
    *crashes = kept;
    if crashes.len() >= MAX_CRASHES {
        SupervisorAction::GiveUp
    } else {
        SupervisorAction::Restart
    }
}

} // verus!
