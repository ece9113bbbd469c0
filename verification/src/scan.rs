use vstd::prelude::*;
use crate::disk::Disk;
use crate::matcher::{snapshot_matches, first_match_at};
use crate::session::{Session, Event, Action, FlashError, step_spec, found_spec};

verus! {

/// The Retry Scheduler's outcome over a run of snapshots, one snapshot per
/// attempt: the zero-based attempt on which a pending disk first appears, or
/// nothing when the attempt budget is spent (or no further snapshot arrives)
/// without a match.
pub open spec fn scan_outcome(
    snaps: Seq<Seq<Disk>>,
    pending: Seq<Seq<char>>,
    budget: nat,
) -> Option<nat>
    decreases budget,
{
    if budget == 0 || snaps.len() == 0 {
        None
    } else if snapshot_matches(snaps[0], pending) {
        Some(0)
    } else {
        match scan_outcome(snaps.drop_first(), pending, (budget - 1) as nat) {
            Some(k) => Some((k + 1) as nat),
            None => None,
        }
    }
}

/// Where the target first appears on attempt `k` within the budget, the
/// scheduler stops on attempt `k` and polls no further.
pub proof fn lemma_scan_finds_first(
    snaps: Seq<Seq<Disk>>,
    pending: Seq<Seq<char>>,
    budget: nat,
    k: int,
)
    requires
        0 <= k < budget,
        k < snaps.len(),
        snapshot_matches(snaps[k], pending),
        forall|j: int| 0 <= j < k ==> !snapshot_matches(snaps[j], pending),
    ensures
        scan_outcome(snaps, pending, budget) == Some(k as nat),
    decreases k,
{
    if k == 0 {
    } else {
        let rest = snaps.drop_first();
        assert(!snapshot_matches(snaps[0], pending));
        assert forall|j: int| 0 <= j < k - 1 implies !snapshot_matches(
            rest[j],
            pending,
        ) by {
            assert(rest[j] == snaps[j + 1]);
        }
        assert(rest[k - 1] == snaps[k]);
        lemma_scan_finds_first(rest, pending, (budget - 1) as nat, k - 1);
    }
}

/// Where no snapshot within the budget matches, the scheduler performs at
/// most `budget` enumeration/match cycles and then times out.
pub proof fn lemma_scan_timeout(snaps: Seq<Seq<Disk>>, pending: Seq<Seq<char>>, budget: nat)
    requires
        forall|j: int|
            0 <= j < budget && j < snaps.len() ==> !snapshot_matches(snaps[j], pending),
    ensures
        scan_outcome(snaps, pending, budget) is None,
    decreases budget,
{
    if budget == 0 || snaps.len() == 0 {
    } else {
        let rest = snaps.drop_first();
        assert(!snapshot_matches(snaps[0], pending));
        assert forall|j: int| 0 <= j < budget - 1 && j < rest.len() implies !snapshot_matches(
            rest[j],
            pending,
        ) by {
            assert(rest[j] == snaps[j + 1]);
        }
        lemma_scan_timeout(rest, pending, (budget - 1) as nat);
    }
}

/// A run of the Retry Scheduler inside the driver: one scanning step per
/// snapshot, `sessions` holding the state before each step and after the
/// last, `acts` the action each step returned.
pub open spec fn scan_run(sessions: Seq<Session>, snaps: Seq<Vec<Disk>>, acts: Seq<Action>) -> bool {
    &&& sessions.len() == snaps.len() + 1
    &&& acts.len() == snaps.len()
    &&& forall|j: int|
        0 <= j < snaps.len() ==> #[trigger] step_spec(
            sessions[j],
            Event::Snapshot(snaps[j]),
            sessions[j + 1],
            acts[j],
        )
}

/// Along unsuccessful attempts the pending set and the mode stay put, the
/// budget falls by one per cycle, and every answer is a sleep-then-poll.
pub proof fn lemma_scan_run_prefix(
    sessions: Seq<Session>,
    snaps: Seq<Vec<Disk>>,
    acts: Seq<Action>,
    k: int,
)
    requires
        scan_run(sessions, snaps, acts),
        0 <= k <= snaps.len(),
        k < sessions[0].attempts_left,
        forall|j: int| 0 <= j < k ==> !snapshot_matches(snaps[j]@, sessions[0].labels()),
    ensures
        forall|j: int|
            0 <= j <= k ==> (#[trigger] sessions[j].labels()) == sessions[0].labels(),
        forall|j: int|
            0 <= j <= k ==> (#[trigger] sessions[j].device_view) == sessions[0].device_view,
        forall|j: int|
            0 <= j <= k ==> (#[trigger] sessions[j].attempts_left) as int == sessions[0].attempts_left
                - j,
        forall|j: int|
            0 <= j < k ==> acts[j] == (Action::SleepThenPoll {
                device_view: sessions[0].device_view,
            }),
    decreases k,
{
    if k > 0 {
        lemma_scan_run_prefix(sessions, snaps, acts, k - 1);
        assert(step_spec(
            sessions[k - 1],
            Event::Snapshot(snaps[k - 1]),
            sessions[k - 1 + 1],
            acts[k - 1],
        ));
        assert(sessions[k - 1 + 1] == sessions[k]);
        assert(!snapshot_matches(snaps[k - 1]@, sessions[k - 1].labels()));
        assert(sessions[k - 1].attempts_left > 1);
    }
}

/// The Retry Scheduler returns the matched disk on the very attempt on which
/// one first appears, within the budget, and polls no further; the driver's
/// behaviour agrees with the scheduler model.
pub proof fn lemma_scheduler_finds_on_first_hit(
    sessions: Seq<Session>,
    snaps: Seq<Vec<Disk>>,
    acts: Seq<Action>,
    k: int,
)
    requires
        scan_run(sessions, snaps, acts),
        0 <= k < snaps.len(),
        k < sessions[0].attempts_left,
        forall|j: int| 0 <= j < k ==> !snapshot_matches(snaps[j]@, sessions[0].labels()),
        snapshot_matches(snaps[k]@, sessions[0].labels()),
    ensures
        forall|j: int|
            0 <= j < k ==> acts[j] == (Action::SleepThenPoll {
                device_view: sessions[0].device_view,
            }),
        exists|i: int|
            #[trigger] first_match_at(snaps[k]@, sessions[0].labels(), i) && found_spec(
                sessions[k],
                snaps[k]@[i],
                sessions[k + 1],
                acts[k],
            ),
        scan_outcome(
            snaps.map_values(|s: Vec<Disk>| s@),
            sessions[0].labels(),
            sessions[0].attempts_left as nat,
        ) == Some(k as nat),
{
    lemma_scan_run_prefix(sessions, snaps, acts, k);
    assert(step_spec(sessions[k], Event::Snapshot(snaps[k]), sessions[k + 1], acts[k]));
    assert(snapshot_matches(snaps[k]@, sessions[k].labels()));
    let mapped = snaps.map_values(|s: Vec<Disk>| s@);
    assert forall|j: int| 0 <= j < k implies !snapshot_matches(
        mapped[j],
        sessions[0].labels(),
    ) by {
        assert(mapped[j] == snaps[j]@);
    }
    assert(mapped[k] == snaps[k]@);
    lemma_scan_finds_first(mapped, sessions[0].labels(), sessions[0].attempts_left as nat, k);
}

/// The Retry Scheduler performs at most the budgeted number of cycles: with
/// no match within the whole budget, the budget's last attempt aborts the
/// run with a timeout, and the driver's behaviour agrees with the model.
pub proof fn lemma_scheduler_times_out(
    sessions: Seq<Session>,
    snaps: Seq<Vec<Disk>>,
    acts: Seq<Action>,
)
    requires
        scan_run(sessions, snaps, acts),
        snaps.len() > 0,
        snaps.len() == sessions[0].attempts_left,
        forall|j: int| 0 <= j < snaps.len() ==> !snapshot_matches(snaps[j]@, sessions[0].labels()),
    ensures
        forall|j: int|
            0 <= j < snaps.len() - 1 ==> acts[j] == (Action::SleepThenPoll {
                device_view: sessions[0].device_view,
            }),
        acts[snaps.len() - 1] == Action::Abort(FlashError::Timeout),
        sessions[snaps.len() as int].phase is Failed,
        scan_outcome(
            snaps.map_values(|s: Vec<Disk>| s@),
            sessions[0].labels(),
            sessions[0].attempts_left as nat,
        ) is None,
{
    let n = snaps.len() as int;
    lemma_scan_run_prefix(sessions, snaps, acts, n - 1);
    assert(step_spec(
        sessions[n - 1],
        Event::Snapshot(snaps[n - 1]),
        sessions[n - 1 + 1],
        acts[n - 1],
    ));
    assert(sessions[n - 1 + 1] == sessions[n]);
    assert(!snapshot_matches(snaps[n - 1]@, sessions[n - 1].labels()));
    assert(sessions[n - 1].attempts_left == 1);
    let mapped = snaps.map_values(|s: Vec<Disk>| s@);
    assert forall|j: int| 0 <= j < mapped.len() implies !snapshot_matches(
        mapped[j],
        sessions[0].labels(),
    ) by {
        assert(mapped[j] == snaps[j]@);
    }
    lemma_scan_timeout(mapped, sessions[0].labels(), sessions[0].attempts_left as nat);
}

} // verus!
