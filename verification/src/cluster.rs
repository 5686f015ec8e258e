use vstd::prelude::*;
use crate::model::IpAddr;
use crate::text::{str_lt, string_eq, string_lt, lemma_str_lt_total, lemma_str_lt_transitive};

verus! {

/// A node hosting one replica of a clustered instance, with its health record.
#[derive(Clone, Debug, PartialEq, Eq, PartialOrd, Ord, Hash)]
pub struct ClusterMember {
    pub node_id: String,
    pub node_public_ip: IpAddr,
    pub node_formnet_ip: IpAddr,
    pub instance_id: String,
    pub instance_formnet_ip: IpAddr,
    pub status: String,
    pub last_heartbeat: i64,
    pub heartbeats_skipped: u32,
}

pub struct ClusterMemberView {
    pub node_id: Seq<char>,
    pub node_public_ip: IpAddr,
    pub node_formnet_ip: IpAddr,
    pub instance_id: Seq<char>,
    pub instance_formnet_ip: IpAddr,
    pub status: Seq<char>,
    pub last_heartbeat: i64,
    pub heartbeats_skipped: u32,
}

impl View for ClusterMember {
    type V = ClusterMemberView;

    open spec fn view(&self) -> ClusterMemberView {
        ClusterMemberView {
            node_id: self.node_id@,
            node_public_ip: self.node_public_ip,
            node_formnet_ip: self.node_formnet_ip,
            instance_id: self.instance_id@,
            instance_formnet_ip: self.instance_formnet_ip,
            status: self.status@,
            last_heartbeat: self.last_heartbeat,
            heartbeats_skipped: self.heartbeats_skipped,
        }
    }
}

impl ClusterMember {
    /// The member's key in its cluster: the id of the instance replica it hosts.
    pub fn id(&self) -> (r: &str)
        ensures
            r@ == self.instance_id@,
    {
        self.instance_id.as_str()
    }

    pub fn status(&self) -> (r: &str)
        ensures
            r@ == self.status@,
    {
        self.status.as_str()
    }

    pub fn last_heartbeat(&self) -> (r: i64)
        ensures
            r == self.last_heartbeat,
    {
        self.last_heartbeat
    }

    pub fn heartbeats_skipped(&self) -> (r: u32)
        ensures
            r == self.heartbeats_skipped,
    {
        self.heartbeats_skipped
    }

    pub fn copy(&self) -> (r: ClusterMember)
        ensures
            r@ == self@,
    {
        ClusterMember {
            node_id: self.node_id.clone(),
            node_public_ip: self.node_public_ip,
            node_formnet_ip: self.node_formnet_ip,
            instance_id: self.instance_id.clone(),
            instance_formnet_ip: self.instance_formnet_ip,
            status: self.status.clone(),
            last_heartbeat: self.last_heartbeat,
            heartbeats_skipped: self.heartbeats_skipped,
        }
    }

    pub fn same_as(&self, other: &ClusterMember) -> (r: bool)
        ensures
            r == (self@ == other@),
    {
        self.node_id == other.node_id && self.node_public_ip == other.node_public_ip
            && self.node_formnet_ip == other.node_formnet_ip && self.instance_id
            == other.instance_id && self.instance_formnet_ip == other.instance_formnet_ip
            && self.status == other.status && self.last_heartbeat == other.last_heartbeat
            && self.heartbeats_skipped == other.heartbeats_skipped
    }
}

/// Keys strictly increase along the entries.
pub open spec fn keys_sorted(s: Seq<(Seq<char>, ClusterMemberView)>) -> bool {
    forall|i: int, j: int| 0 <= i < j < s.len() ==> str_lt(#[trigger] s[i].0, #[trigger] s[j].0)
}

/// Some entry has key `k`.
pub open spec fn has_key(s: Seq<(Seq<char>, ClusterMemberView)>, k: Seq<char>) -> bool {
    exists|i: int| 0 <= i < s.len() && #[trigger] s[i].0 == k
}

/// The entries read as a map from key to member.
pub open spec fn entries_map(s: Seq<(Seq<char>, ClusterMemberView)>) -> Map<Seq<char>, ClusterMemberView> {
    Map::new(
        |k: Seq<char>| has_key(s, k),
        |k: Seq<char>| s[choose|i: int| 0 <= i < s.len() && #[trigger] s[i].0 == k].1,
    )
}

/// In sorted entries, the entry at `i` is what the map holds for its key.
pub proof fn lemma_entry_in_map(s: Seq<(Seq<char>, ClusterMemberView)>, i: int)
    requires
        keys_sorted(s),
        0 <= i < s.len(),
    ensures
        entries_map(s).contains_key(s[i].0),
        entries_map(s)[s[i].0] == s[i].1,
{
    assert(has_key(s, s[i].0));
    let j = choose|j: int| 0 <= j < s.len() && #[trigger] s[j].0 == s[i].0;
    if j < i {
        assert(str_lt(s[j].0, s[i].0));
    } else if i < j {
        assert(str_lt(s[i].0, s[j].0));
    }
}

/// The entries that parallel vectors of keys and members spell.
pub open spec fn zip_view(keys: Seq<String>, members: Seq<ClusterMember>) -> Seq<(Seq<char>, ClusterMemberView)> {
    Seq::new(keys.len(), |i: int| (keys[i]@, members[i]@))
}

/// `Vec::as_mut_slice`: the vector's elements as a mutable slice. It cannot
/// panic, and a slice cannot change its length, so the vector ends with the
/// length it has now and with the elements the slice ends with.
#[verifier::external_body]
fn slice_of_mut<T>(v: &mut Vec<T>) -> (s: &mut [T])
    ensures
        s@ == old(v)@,
        final(s)@ == final(v)@,
        final(v)@.len() == old(v)@.len(),
    no_unwind
{
    v.as_mut_slice()
}

/// The members of a clustered instance, keyed by instance id and kept in key order.
#[derive(Debug, PartialEq, Eq, Hash)]
pub struct InstanceCluster {
    keys: Vec<String>,
    members: Vec<ClusterMember>,
}

impl View for InstanceCluster {
    type V = Seq<(Seq<char>, ClusterMemberView)>;

    closed spec fn view(&self) -> Seq<(Seq<char>, ClusterMemberView)> {
        zip_view(self.keys@, self.members@)
    }
}

/// Keys, read as text, strictly increase.
pub open spec fn increasing_keys(keys: Seq<String>) -> bool {
    forall|i: int, j: int| 0 <= i < j < keys.len() ==> str_lt(#[trigger] keys[i]@, #[trigger] keys[j]@)
}

impl InstanceCluster {
    #[verifier::type_invariant]
    spec fn well_formed(self) -> bool {
        &&& self.keys@.len() == self.members@.len()
        &&& increasing_keys(self.keys@)
    }

    proof fn lemma_view_sorted(&self)
        requires
            self.well_formed(),
        ensures
            keys_sorted(self@),
            self@.len() == self.keys@.len(),
            forall|i: int| 0 <= i < self@.len() ==> (#[trigger] self@[i]).0 == self.keys@[i]@ && self@[i].1 == self.members@[i]@,
    {
        assert forall|i: int, j: int| 0 <= i < j < self@.len() implies str_lt(#[trigger] self@[i].0, #[trigger] self@[j].0) by {
            assert(str_lt(self.keys@[i]@, self.keys@[j]@));
        }
    }

    /// The members as a map from key to member.
    pub open spec fn as_map(&self) -> Map<Seq<char>, ClusterMemberView> {
        entries_map(self@)
    }

    /// A cluster without members.
    pub fn new() -> (r: InstanceCluster)
        ensures
            r@ == Seq::<(Seq<char>, ClusterMemberView)>::empty(),
            r.as_map() == Map::<Seq<char>, ClusterMemberView>::empty(),
    {
        let r = InstanceCluster { keys: Vec::new(), members: Vec::new() };
        assert(r@ =~= Seq::<(Seq<char>, ClusterMemberView)>::empty());
        assert(r.as_map() =~= Map::<Seq<char>, ClusterMemberView>::empty());
        r
    }

    /// The position of the entry with key `id`, if any.
    fn find(&self, id: &str) -> (r: Option<usize>)
        ensures
            match r {
                Some(i) => i < self@.len() && self@[i as int].0 == id@ && i < self.keys@.len() && i < self.members@.len(),
                None => !has_key(self@, id@),
            },
    {
        proof { use_type_invariant(self); self.lemma_view_sorted(); }
        let mut i: usize = 0;
        while i < self.keys.len()
            invariant
                i <= self.keys@.len(),
                self@.len() == self.keys@.len(),
                self.keys@.len() == self.members@.len(),
                forall|k: int| 0 <= k < self@.len() ==> (#[trigger] self@[k]).0 == self.keys@[k]@,
                forall|k: int| 0 <= k < i ==> self@[k].0 != id@,
            decreases self.keys@.len() - i,
        {
            if string_eq(self.keys[i].as_str(), id) {
                return Some(i);
            }
            i = i + 1;
        }
        None
    }

    /// The member under key `id`, if any.
    pub fn get(&self, id: &str) -> (r: Option<&ClusterMember>)
        ensures
            r is Some <==> self.as_map().contains_key(id@),
            r is Some ==> r->0@ == self.as_map()[id@],
    {
        proof { use_type_invariant(self); self.lemma_view_sorted(); }
        match self.find(id) {
            Some(i) => {
                proof { lemma_entry_in_map(self@, i as int); }
                Some(&self.members[i])
            },
            None => None,
        }
    }

    /// The member under key `id`, to change in place, if any; the cluster then
    /// holds the changed member under the same key.
    pub fn get_mut(&mut self, id: &str) -> (r: Option<&mut ClusterMember>)
        ensures
            r is Some <==> old(self).as_map().contains_key(id@),
            r is None ==> final(self)@ == old(self)@,
            r matches Some(m) ==> (*m)@ == old(self).as_map()[id@]
                && final(self).as_map() == old(self).as_map().insert(id@, (*final(m))@),
            keys_sorted(old(self)@),
    {
        proof { use_type_invariant(&*self); self.lemma_view_sorted(); }
        let ghost old_view = self@;
        match self.find(id) {
            Some(i) => {
                proof { lemma_entry_in_map(self@, i as int); }
                let m = &mut self.members[i];
                proof {
                    let nv = old_view.update(i as int, (id@, (*final(m))@));
                    assert(zip_view(self.keys@, old(self).members@.update(i as int, *final(m))) =~= nv);
                    lemma_update_value(old_view, i as int, (*final(m))@);
                }
                Some(m)
            },
            None => None,
        }
    }

    /// The keys in order, beside the members to change in place; the cluster
    /// then holds each changed member under its key.
    pub fn iter_mut(&mut self) -> (r: (&[String], &mut [ClusterMember]))
        ensures
            r.0@.len() == old(self)@.len(),
            (*r.1)@.len() == old(self)@.len(),
            forall|i: int| 0 <= i < old(self)@.len() ==> (#[trigger] r.0@[i])@ == old(self)@[i].0 && (*r.1)@[i]@ == old(self)@[i].1,
            final(self)@.len() == old(self)@.len(),
            forall|i: int| 0 <= i < old(self)@.len() ==> (#[trigger] final(self)@[i]).0 == old(self)@[i].0 && final(self)@[i].1 == (*final(r.1))@[i]@,
            keys_sorted(final(self)@),
    {
        proof { use_type_invariant(&*self); self.lemma_view_sorted(); }
        (self.keys.as_slice(), slice_of_mut(&mut self.members))
    }

    /// Whether some member has key `id`.
    pub fn contains_key(&self, id: &str) -> (r: bool)
        ensures
            r == self.as_map().contains_key(id@),
    {
        self.find(id).is_some()
    }

    /// The entries, key and member, in key order.
    pub fn iter(&self) -> (r: Vec<(String, ClusterMember)>)
        ensures
            r@.len() == self@.len(),
            forall|i: int| 0 <= i < r@.len() ==> (#[trigger] r@[i]).0@ == self@[i].0 && r@[i].1@ == self@[i].1,
            keys_sorted(self@),
    {
        proof { use_type_invariant(self); self.lemma_view_sorted(); }
        let mut r: Vec<(String, ClusterMember)> = Vec::new();
        let mut i: usize = 0;
        while i < self.keys.len()
            invariant
                i <= self.keys@.len(),
                self@.len() == self.keys@.len(),
                self.keys@.len() == self.members@.len(),
                forall|k: int| 0 <= k < self@.len() ==> (#[trigger] self@[k]).0 == self.keys@[k]@ && self@[k].1 == self.members@[k]@,
                r@.len() == i,
                forall|k: int| 0 <= k < i ==> (#[trigger] r@[k]).0@ == self@[k].0 && r@[k].1@ == self@[k].1,
            decreases self.keys@.len() - i,
        {
            r.push((self.keys[i].clone(), self.members[i].copy()));
            i = i + 1;
        }
        r
    }

    /// The entries in key order; the same as `iter`.
    pub fn members(&self) -> (r: Vec<(String, ClusterMember)>)
        ensures
            r@.len() == self@.len(),
            forall|i: int| 0 <= i < r@.len() ==> (#[trigger] r@[i]).0@ == self@[i].0 && r@[i].1@ == self@[i].1,
            keys_sorted(self@),
    {
        self.iter()
    }

    /// Stores `member` under `key`, replacing what was there.
    pub fn insert_keyed(&mut self, key: String, member: ClusterMember)
        ensures
            final(self).as_map() == old(self).as_map().insert(key@, member@),
            keys_sorted(final(self)@),
    {
        proof { use_type_invariant(&*self); self.lemma_view_sorted(); }
        let ghost old_view = self@;
        let mut taken = InstanceCluster::new();
        std::mem::swap(&mut taken, self);
        proof { use_type_invariant(&taken); }
        let InstanceCluster { mut keys, mut members } = taken;
        assert(zip_view(keys@, members@) == old_view);
        let mut p: usize = 0;
        while p < keys.len() && string_lt(keys[p].as_str(), key.as_str())
            invariant
                p <= keys@.len(),
                keys@.len() == members@.len(),
                zip_view(keys@, members@) == old_view,
                keys_sorted(old_view),
                forall|k: int| 0 <= k < p ==> str_lt(#[trigger] old_view[k].0, key@),
            decreases keys@.len() - p,
        {
            assert(old_view[p as int].0 == keys@[p as int]@);
            p = p + 1;
        }
        let ghost kv = key@;
        let ghost mv = member@;
        let ghost nv;
        if p < keys.len() && string_eq(keys[p].as_str(), key.as_str()) {
            assert(old_view[p as int].0 == kv);
            keys.set(p, key);
            members.set(p, member);
            proof {
                nv = old_view.update(p as int, (kv, mv));
                assert(zip_view(keys@, members@) =~= nv);
                lemma_update_value(old_view, p as int, mv);
            }
        } else {
            proof {
                if p < old_view.len() {
                    assert(old_view[p as int].0 == keys@[p as int]@);
                    assert(!str_lt(old_view[p as int].0, kv));
                    lemma_str_lt_total(old_view[p as int].0, kv);
                }
            }
            keys.insert(p, key);
            members.insert(p, member);
            proof {
                nv = old_view.insert(p as int, (kv, mv));
                assert(zip_view(keys@, members@) =~= nv);
                lemma_insert_entry(old_view, p as int, kv, mv);
            }
        }
        proof {
            assert forall|i: int, j: int| 0 <= i < j < keys@.len() implies str_lt(#[trigger] keys@[i]@, #[trigger] keys@[j]@) by {
                assert(nv[i].0 == keys@[i]@);
                assert(nv[j].0 == keys@[j]@);
            }
        }
        *self = InstanceCluster { keys, members };
    }

    /// Adds `member` under its own id, replacing any member with that id.
    pub fn insert(&mut self, member: ClusterMember)
        ensures
            final(self).as_map() == old(self).as_map().insert(member.instance_id@, member@),
            keys_sorted(final(self)@),
    {
        let id = member.instance_id.clone();
        self.insert_keyed(id, member);
    }
}

/// Replacing the member at a position of sorted entries keeps them sorted and
/// changes the map at that key only.
proof fn lemma_update_value(s: Seq<(Seq<char>, ClusterMemberView)>, p: int, mv: ClusterMemberView)
    requires
        keys_sorted(s),
        0 <= p < s.len(),
    ensures
        keys_sorted(s.update(p, (s[p].0, mv))),
        entries_map(s.update(p, (s[p].0, mv))) == entries_map(s).insert(s[p].0, mv),
{
    let kv = s[p].0;
    let nv = s.update(p, (kv, mv));
    assert(keys_sorted(nv)) by {
        assert forall|i: int, j: int| 0 <= i < j < nv.len() implies str_lt(#[trigger] nv[i].0, #[trigger] nv[j].0) by {
            assert(str_lt(s[i].0, s[j].0));
        }
    }
    assert(nv[p].0 == kv);
    assert forall|kk: Seq<char>| #![auto] entries_map(nv).contains_key(kk) == entries_map(s).insert(kv, mv).contains_key(kk) by {
        if has_key(nv, kk) {
            let w = choose|w: int| 0 <= w < nv.len() && #[trigger] nv[w].0 == kk;
            if w != p {
                assert(s[w].0 == kk);
            }
        }
        if has_key(s, kk) {
            let w = choose|w: int| 0 <= w < s.len() && #[trigger] s[w].0 == kk;
            assert(nv[w].0 == kk);
        }
        if kk == kv {
            assert(nv[p].0 == kk);
        }
    }
    assert forall|kk: Seq<char>| #![auto] entries_map(nv).contains_key(kk) implies entries_map(nv)[kk] == entries_map(s).insert(kv, mv)[kk] by {
        if kk == kv {
            lemma_entry_in_map(nv, p);
        } else {
            let w = choose|w: int| 0 <= w < nv.len() && #[trigger] nv[w].0 == kk;
            lemma_entry_in_map(nv, w);
            lemma_entry_in_map(s, w);
        }
    }
    assert(entries_map(nv) =~= entries_map(s).insert(kv, mv));
}

/// Putting a new key at the position that keeps sorted entries sorted adds it to the map.
proof fn lemma_insert_entry(s: Seq<(Seq<char>, ClusterMemberView)>, p: int, kv: Seq<char>, mv: ClusterMemberView)
    requires
        keys_sorted(s),
        0 <= p <= s.len(),
        forall|k: int| 0 <= k < p ==> str_lt(#[trigger] s[k].0, kv),
        p < s.len() ==> str_lt(kv, s[p].0),
    ensures
        keys_sorted(s.insert(p, (kv, mv))),
        entries_map(s.insert(p, (kv, mv))) == entries_map(s).insert(kv, mv),
{
    let nv = s.insert(p, (kv, mv));
    assert(keys_sorted(nv)) by {
        assert forall|i: int, j: int| 0 <= i < j < nv.len() implies str_lt(#[trigger] nv[i].0, #[trigger] nv[j].0) by {
            if j < p {
                assert(str_lt(s[i].0, s[j].0));
            } else if i < p && j == p {
            } else if i < p && j > p {
                assert(str_lt(s[i].0, s[j - 1].0));
            } else if i == p {
                if j - 1 > p {
                    assert(str_lt(s[p].0, s[j - 1].0));
                    lemma_str_lt_transitive(kv, s[p].0, s[j - 1].0);
                }
            } else {
                assert(str_lt(s[i - 1].0, s[j - 1].0));
            }
        }
    }
    assert(nv[p].0 == kv);
    assert forall|kk: Seq<char>| #![auto] entries_map(nv).contains_key(kk) == entries_map(s).insert(kv, mv).contains_key(kk) by {
        if kk == kv {
            assert(nv[p].0 == kk);
        }
        if has_key(nv, kk) {
            let w = choose|w: int| 0 <= w < nv.len() && #[trigger] nv[w].0 == kk;
            if w < p {
                assert(s[w].0 == kk);
            } else if w > p {
                assert(s[w - 1].0 == kk);
            }
        }
        if has_key(s, kk) {
            let w = choose|w: int| 0 <= w < s.len() && #[trigger] s[w].0 == kk;
            if w < p {
                assert(nv[w].0 == kk);
            } else {
                assert(nv[w + 1].0 == kk);
            }
        }
    }
    assert forall|kk: Seq<char>| #![auto] entries_map(nv).contains_key(kk) implies entries_map(nv)[kk] == entries_map(s).insert(kv, mv)[kk] by {
        if kk == kv {
            lemma_entry_in_map(nv, p);
        } else {
            let w = choose|w: int| 0 <= w < nv.len() && #[trigger] nv[w].0 == kk;
            lemma_entry_in_map(nv, w);
            if w < p {
                lemma_entry_in_map(s, w);
            } else {
                lemma_entry_in_map(s, w - 1);
            }
        }
    }
    assert(entries_map(nv) =~= entries_map(s).insert(kv, mv));
}

/// Taking out the entry at a position of sorted entries keeps them sorted and
/// removes its key from the map.
proof fn lemma_remove_entry(s: Seq<(Seq<char>, ClusterMemberView)>, p: int)
    requires
        keys_sorted(s),
        0 <= p < s.len(),
    ensures
        keys_sorted(s.remove(p)),
        entries_map(s.remove(p)) == entries_map(s).remove(s[p].0),
{
    let nv = s.remove(p);
    let kv = s[p].0;
    lemma_entry_in_map(s, p);
    assert(keys_sorted(nv)) by {
        assert forall|i: int, j: int| 0 <= i < j < nv.len() implies str_lt(#[trigger] nv[i].0, #[trigger] nv[j].0) by {
            if j < p {
                assert(str_lt(s[i].0, s[j].0));
            } else if i < p {
                assert(str_lt(s[i].0, s[j + 1].0));
            } else {
                assert(str_lt(s[i + 1].0, s[j + 1].0));
            }
        }
    }
    assert forall|kk: Seq<char>| #![auto] entries_map(nv).contains_key(kk) == entries_map(s).remove(kv).contains_key(kk) by {
        if has_key(nv, kk) {
            let w = choose|w: int| 0 <= w < nv.len() && #[trigger] nv[w].0 == kk;
            if w < p {
                assert(s[w].0 == kk);
                assert(str_lt(s[w].0, s[p].0));
            } else {
                assert(s[w + 1].0 == kk);
                assert(str_lt(s[p].0, s[w + 1].0));
            }
        }
        if has_key(s, kk) && kk != kv {
            let w = choose|w: int| 0 <= w < s.len() && #[trigger] s[w].0 == kk;
            if w < p {
                assert(nv[w].0 == kk);
            } else {
                assert(w != p);
                assert(nv[w - 1].0 == kk);
            }
        }
    }
    assert forall|kk: Seq<char>| #![auto] entries_map(nv).contains_key(kk) implies entries_map(nv)[kk] == entries_map(s).remove(kv)[kk] by {
        let w = choose|w: int| 0 <= w < nv.len() && #[trigger] nv[w].0 == kk;
        lemma_entry_in_map(nv, w);
        if w < p {
            lemma_entry_in_map(s, w);
        } else {
            lemma_entry_in_map(s, w + 1);
        }
    }
    assert(entries_map(nv) =~= entries_map(s).remove(kv));
}

impl InstanceCluster {
    /// Takes out the member under key `id`, if any.
    pub fn remove(&mut self, id: &str) -> (r: Option<ClusterMember>)
        ensures
            final(self).as_map() == old(self).as_map().remove(id@),
            r is Some <==> old(self).as_map().contains_key(id@),
            r is Some ==> r->0@ == old(self).as_map()[id@],
            keys_sorted(final(self)@),
    {
        proof { use_type_invariant(&*self); self.lemma_view_sorted(); }
        let ghost old_view = self@;
        match self.find(id) {
            None => {
                assert(self.as_map() =~= self.as_map().remove(id@));
                None
            },
            Some(p) => {
                let mut taken = InstanceCluster::new();
                std::mem::swap(&mut taken, self);
                proof { use_type_invariant(&taken); }
                let InstanceCluster { mut keys, mut members } = taken;
                assert(zip_view(keys@, members@) == old_view);
                let _removed_key = keys.remove(p);
                let removed = members.remove(p);
                let ghost nv = old_view.remove(p as int);
                proof {
                    assert(zip_view(keys@, members@) =~= nv);
                    lemma_entry_in_map(old_view, p as int);
                    lemma_remove_entry(old_view, p as int);
                    assert forall|i: int, j: int| 0 <= i < j < keys@.len() implies str_lt(#[trigger] keys@[i]@, #[trigger] keys@[j]@) by {
                        assert(nv[i].0 == keys@[i]@);
                        assert(nv[j].0 == keys@[j]@);
                    }
                }
                *self = InstanceCluster { keys, members };
                Some(removed)
            },
        }
    }

    /// The status of the member under key `id`, if any.
    pub fn get_member_status(&self, id: &str) -> (r: Option<&str>)
        ensures
            r is Some <==> self.as_map().contains_key(id@),
            r is Some ==> r->0@ == self.as_map()[id@].status,
    {
        if let Some(member) = self.get(id) {
            return Some(member.status());
        }
        None
    }

    /// The last heartbeat of the member under key `id`, if any.
    pub fn get_member_last_heartbeat(&self, id: &str) -> (r: Option<i64>)
        ensures
            r is Some <==> self.as_map().contains_key(id@),
            r is Some ==> r->0 == self.as_map()[id@].last_heartbeat,
    {
        if let Some(member) = self.get(id) {
            return Some(member.last_heartbeat());
        }
        None
    }

    /// How many heartbeats the member under key `id` has skipped, if there is one.
    pub fn get_member_heartbeats_skipped(&self, id: &str) -> (r: Option<u32>)
        ensures
            r is Some <==> self.as_map().contains_key(id@),
            r is Some ==> r->0 == self.as_map()[id@].heartbeats_skipped,
    {
        if let Some(member) = self.get(id) {
            return Some(member.heartbeats_skipped());
        }
        None
    }

    /// An entry-by-entry copy.
    pub fn copy(&self) -> (r: InstanceCluster)
        ensures
            r@ == self@,
    {
        proof { use_type_invariant(self); }
        let mut keys: Vec<String> = Vec::new();
        let mut members: Vec<ClusterMember> = Vec::new();
        let mut i: usize = 0;
        while i < self.keys.len()
            invariant
                i <= self.keys@.len(),
                self.keys@.len() == self.members@.len(),
                increasing_keys(self.keys@),
                keys@.len() == i,
                members@.len() == i,
                forall|k: int| 0 <= k < i ==> (#[trigger] keys@[k])@ == self.keys@[k]@,
                forall|k: int| 0 <= k < i ==> (#[trigger] members@[k])@ == self.members@[k]@,
            decreases self.keys@.len() - i,
        {
            keys.push(self.keys[i].clone());
            members.push(self.members[i].copy());
            i = i + 1;
        }
        proof {
            assert forall|a: int, b: int| 0 <= a < b < keys@.len() implies str_lt(#[trigger] keys@[a]@, #[trigger] keys@[b]@) by {
                assert(str_lt(self.keys@[a]@, self.keys@[b]@));
            }
        }
        let r = InstanceCluster { keys, members };
        assert(r@ =~= self@);
        r
    }

    /// Whether two clusters hold the same entries in the same order.
    pub fn same_as(&self, other: &InstanceCluster) -> (r: bool)
        ensures
            r == (self@ == other@),
    {
        proof { use_type_invariant(self); use_type_invariant(other); }
        if self.keys.len() != other.keys.len() {
            assert(self@.len() != other@.len());
            return false;
        }
        let mut i: usize = 0;
        while i < self.keys.len()
            invariant
                self.keys@.len() == other.keys@.len(),
                self.keys@.len() == self.members@.len(),
                other.keys@.len() == other.members@.len(),
                i <= self.keys@.len(),
                forall|k: int| 0 <= k < i ==> #[trigger] self@[k] == other@[k],
            decreases self.keys@.len() - i,
        {
            if self.keys[i] != other.keys[i] || !self.members[i].same_as(&other.members[i]) {
                assert(self@[i as int] != other@[i as int]);
                return false;
            }
            assert(self@[i as int] == other@[i as int]);
            i = i + 1;
        }
        assert(self@ =~= other@);
        true
    }
}

impl Clone for InstanceCluster {
    fn clone(&self) -> (r: Self)
        ensures
            r@ == self@,
    {
        self.copy()
    }
}

impl Default for InstanceCluster {
    fn default() -> (r: Self)
        ensures
            r@ == Seq::<(Seq<char>, ClusterMemberView)>::empty(),
    {
        InstanceCluster::new()
    }
}

/// After a member is inserted under a key, looking the key up finds that
/// member, and every other key finds what it found before.
pub proof fn law_insert_then_get(
    before: Map<Seq<char>, ClusterMemberView>,
    key: Seq<char>,
    member: ClusterMemberView,
    other: Seq<char>,
)
    ensures
        before.insert(key, member).contains_key(key),
        before.insert(key, member)[key] == member,
        other != key ==> before.insert(key, member).contains_key(other) == before.contains_key(other),
        other != key && before.contains_key(other) ==> before.insert(key, member)[other] == before[other],
{
}

/// After the member under a key is removed, the key is absent, and every other
/// key finds what it found before.
pub proof fn law_remove_then_absent(
    before: Map<Seq<char>, ClusterMemberView>,
    key: Seq<char>,
    other: Seq<char>,
)
    ensures
        !before.remove(key).contains_key(key),
        other != key ==> before.remove(key).contains_key(other) == before.contains_key(other),
        other != key && before.contains_key(other) ==> before.remove(key)[other] == before[other],
{
}

/// Removing a member that was just inserted under a new key gives back the
/// cluster as it was.
pub proof fn law_insert_then_remove(
    before: Map<Seq<char>, ClusterMemberView>,
    key: Seq<char>,
    member: ClusterMemberView,
)
    requires
        !before.contains_key(key),
    ensures
        before.insert(key, member).remove(key) == before,
{
    assert(before.insert(key, member).remove(key) =~= before);
}

/// Inserting the same member twice changes nothing the second time.
pub proof fn law_insert_idempotent(
    before: Map<Seq<char>, ClusterMemberView>,
    key: Seq<char>,
    member: ClusterMemberView,
)
    ensures
        before.insert(key, member).insert(key, member) == before.insert(key, member),
{
    assert(before.insert(key, member).insert(key, member) =~= before.insert(key, member));
}

/// Entries in key order never hold one key twice.
pub proof fn law_sorted_keys_unique(s: Seq<(Seq<char>, ClusterMemberView)>, i: int, j: int)
    requires
        keys_sorted(s),
        0 <= i < s.len(),
        0 <= j < s.len(),
        i != j,
    ensures
        s[i].0 != s[j].0,
{
    if i < j {
        assert(str_lt(s[i].0, s[j].0));
    } else {
        assert(str_lt(s[j].0, s[i].0));
    }
}

} // verus!
