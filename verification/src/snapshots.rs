use vstd::prelude::*;
use crate::text::{opt_str, copy_opt_string, opt_string_eq};

verus! {

/// A snapshot of an instance, linked to the snapshot taken before it.
#[derive(Debug, PartialEq, Eq, PartialOrd, Ord, Hash)]
pub struct Snapshots {
    pub snapshot_id: String,
    pub timestamp: i64,
    pub description: Option<String>,
    pub previous_snapshot: Box<Option<Snapshots>>,
}

/// One snapshot of a history, without its link.
pub struct SnapshotEntry {
    pub snapshot_id: Seq<char>,
    pub timestamp: i64,
    pub description: Option<Seq<char>>,
}

pub open spec fn entry_of(s: Snapshots) -> SnapshotEntry {
    SnapshotEntry { snapshot_id: s.snapshot_id@, timestamp: s.timestamp, description: opt_str(s.description) }
}

/// The history that starts at `o`: the newest snapshot first, then each earlier one.
pub open spec fn history(o: Option<Snapshots>) -> Seq<SnapshotEntry>
    decreases o,
{
    match o {
        None => Seq::empty(),
        Some(s) => seq![entry_of(s)] + history(*s.previous_snapshot),
    }
}

impl View for Snapshots {
    type V = Seq<SnapshotEntry>;

    open spec fn view(&self) -> Seq<SnapshotEntry> {
        history(Some(*self))
    }
}

/// A snapshot-by-snapshot copy of a history.
pub fn copy_history(o: &Option<Snapshots>) -> (r: Option<Snapshots>)
    ensures
        history(r) == history(*o),
    decreases o,
{
    match o {
        None => None,
        Some(s) => {
            let previous = copy_history(&*s.previous_snapshot);
            Some(
                Snapshots {
                    snapshot_id: s.snapshot_id.clone(),
                    timestamp: s.timestamp,
                    description: copy_opt_string(&s.description),
                    previous_snapshot: Box::new(previous),
                },
            )
        },
    }
}

/// Whether two histories hold the same snapshots in the same order.
pub fn same_history(a: &Option<Snapshots>, b: &Option<Snapshots>) -> (r: bool)
    ensures
        r == (history(*a) == history(*b)),
    decreases a,
{
    match (a, b) {
        (None, None) => true,
        (Some(x), Some(y)) => {
            let head = x.snapshot_id == y.snapshot_id && x.timestamp == y.timestamp && opt_string_eq(
                &x.description,
                &y.description,
            );
            let rest = same_history(&*x.previous_snapshot, &*y.previous_snapshot);
            proof {
                let hx = history(*a);
                let hy = history(*b);
                assert(hx[0] == entry_of(*x));
                assert(hy[0] == entry_of(*y));
                assert(hx.drop_first() =~= history(*x.previous_snapshot));
                assert(hy.drop_first() =~= history(*y.previous_snapshot));
                if head && rest {
                    assert(hx =~= hy);
                }
            }
            head && rest
        },
        (Some(x), None) => {
            assert(history(*a).len() > 0);
            false
        },
        (None, Some(y)) => {
            assert(history(*b).len() > 0);
            false
        },
    }
}

/// Where walking `n` steps back from `o` ends, and how many steps were left
/// undone: an absent history stays absent with all `n` steps left; otherwise
/// the walk stops at the oldest snapshot.
pub open spec fn steps_back(h: Seq<SnapshotEntry>, n: u32) -> (Seq<SnapshotEntry>, u32) {
    if h.len() == 0 {
        (h, n)
    } else {
        let k = if n < h.len() - 1 { n as int } else { h.len() - 1 };
        (h.skip(k), (n - k) as u32)
    }
}

/// Walks back `n` snapshots from `start`, stopping early at the oldest one.
pub fn snapshots_back(start: &Option<Snapshots>, n: u32) -> (r: (Option<Snapshots>, u32))
    ensures
        history(r.0) == steps_back(history(*start), n).0,
        r.1 == steps_back(history(*start), n).1,
{
    let ghost h = history(*start);
    let mut current = copy_history(start);
    let mut left = n;
    let ghost steps: int = 0;
    while left > 0
        invariant
            h == history(*start),
            0 <= steps,
            steps + left == n,
            h.len() == 0 ==> steps == 0 && current is None,
            h.len() > 0 ==> steps < h.len() && current is Some,
            history(current) == h.skip(steps),
        decreases left,
    {
        match current {
            None => {
                assert(h =~= Seq::<SnapshotEntry>::empty());
                return (None, left);
            },
            Some(c) => {
                let ghost hc = history(Some(c));
                assert(hc.drop_first() =~= history(*c.previous_snapshot));
                if (*c.previous_snapshot).is_none() {
                    assert(h.skip(steps).len() == 1);
                    return (Some(c), left);
                }
                current = *c.previous_snapshot;
                left = left - 1;
                proof {
                    assert(h.skip(steps).drop_first() =~= h.skip(steps + 1));
                    steps = steps + 1;
                }
            },
        }
    }
    proof {
        if h.len() == 0 {
            assert(h.skip(0) =~= h);
        }
    }
    (current, left)
}

impl Snapshots {
    /// A snapshot-by-snapshot copy.
    pub fn copy(&self) -> (r: Snapshots)
        ensures
            r@ == self@,
    {
        let previous = copy_history(&*self.previous_snapshot);
        let r = Snapshots {
            snapshot_id: self.snapshot_id.clone(),
            timestamp: self.timestamp,
            description: copy_opt_string(&self.description),
            previous_snapshot: Box::new(previous),
        };
        assert(r@ =~= self@);
        r
    }
}

impl Clone for Snapshots {
    fn clone(&self) -> (r: Self)
        ensures
            r@ == self@,
    {
        self.copy()
    }
}

impl Snapshots {
    pub fn id(&self) -> (r: &str)
        ensures
            r@ == self.snapshot_id@,
    {
        self.snapshot_id.as_str()
    }

    pub fn timestamp(&self) -> (r: i64)
        ensures
            r == self.timestamp,
    {
        self.timestamp
    }

    pub fn description(&self) -> (r: Option<String>)
        ensures
            opt_str(r) == opt_str(self.description),
    {
        copy_opt_string(&self.description)
    }

    /// A copy of the history before this snapshot.
    pub fn previous_snapshot(&self) -> (r: Box<Option<Snapshots>>)
        ensures
            history(*r) == history(*self.previous_snapshot),
            history(*r) == self@.drop_first(),
    {
        assert(self@.drop_first() =~= history(*self.previous_snapshot));
        Box::new(copy_history(&*self.previous_snapshot))
    }
}


/// Walking back no steps stays at the newest snapshot with nothing left over.
pub proof fn law_zero_steps(h: Seq<SnapshotEntry>)
    ensures
        steps_back(h, 0) == (h, 0u32),
{
    if h.len() > 0 {
        assert(h.skip(0) =~= h);
    }
}

/// Every step asked for is either taken or left over, and a walk never passes
/// the oldest snapshot: from a non-empty history it ends on a non-empty suffix.
pub proof fn law_steps_accounted(h: Seq<SnapshotEntry>, n: u32)
    ensures
        steps_back(h, n).1 <= n,
        h.len() > 0 ==> {
            &&& steps_back(h, n).0.len() > 0
            &&& h.len() - steps_back(h, n).0.len() + steps_back(h, n).1 == n
            &&& steps_back(h, n).0 == h.skip(h.len() - steps_back(h, n).0.len())
        },
        h.len() == 0 ==> steps_back(h, n) == (h, n),
        steps_back(h, n).1 > 0 ==> steps_back(h, n).0.len() <= 1,
{
}

/// Walking back `a` steps and then `b` more ends where walking back `a + b`
/// steps at once ends, with as many steps left over.
pub proof fn law_walks_compose(h: Seq<SnapshotEntry>, a: u32, b: u32)
    requires
        a + b <= u32::MAX,
    ensures
        steps_back(steps_back(h, a).0, b).0 == steps_back(h, (a + b) as u32).0,
        steps_back(h, a).1 + steps_back(steps_back(h, a).0, b).1 == steps_back(h, (a + b) as u32).1,
{
    if h.len() > 0 {
        let k1 = if a < h.len() - 1 { a as int } else { h.len() - 1 };
        let h1 = h.skip(k1);
        let k2 = if b < h1.len() - 1 { b as int } else { h1.len() - 1 };
        assert(h1.skip(k2) =~= h.skip(k1 + k2));
    }
}

} // verus!
