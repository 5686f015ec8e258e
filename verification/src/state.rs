use vstd::prelude::*;
use vstd::string::*;
use crate::model::IpAddr;
use crate::text::string_eq;
use crate::instance::{Instance, InstanceView};
use crate::codec::{hex_bytes, reports_hex_error};
use crate::keys::{KeyError, signing_key_bytes, valid_secret_key_bytes};

verus! {

/// What a node's replicated register holds for one key, as read next to an
/// update that was applied to it.
pub struct RegisterReading {
    /// The register's current value, if it has one.
    pub value: Option<Instance>,
    /// The update's node is in the register's history.
    pub update_in_history: bool,
    /// The update's node is one of the register's current heads.
    pub update_is_head: bool,
    /// The update's node waits for a parent that has not arrived.
    pub update_is_orphaned: bool,
}

pub open spec fn opt_instance(o: Option<Instance>) -> Option<InstanceView> {
    match o {
        Some(i) => Some(i@),
        None => None,
    }
}

/// Whether an update took effect, and the value to report: with no register
/// under the key, or a register without a value, the update failed and its own
/// value is reported; otherwise the register's value is reported, and the
/// update succeeded when that value is the update's, when the update is a head
/// of the register's history, or when it is an orphan waiting for its parent.
pub open spec fn update_outcome(
    reading: Option<(Option<InstanceView>, bool, bool, bool)>,
    proposed: InstanceView,
) -> (bool, InstanceView) {
    match reading {
        None => (false, proposed),
        Some((None, _, _, _)) => (false, proposed),
        Some((Some(v), in_history, is_head, is_orphaned)) => (
            v == proposed || (in_history && is_head) || is_orphaned,
            v,
        ),
    }
}

pub open spec fn reading_view(r: Option<RegisterReading>) -> Option<(Option<InstanceView>, bool, bool, bool)> {
    match r {
        None => None,
        Some(x) => Some((opt_instance(x.value), x.update_in_history, x.update_is_head, x.update_is_orphaned)),
    }
}

/// Decides whether an update to the instance stored under a key succeeded,
/// given what the register under that key holds afterwards (`None` when there
/// is no register under the key) and the value the update carried.
pub fn instance_op_success(reading: Option<RegisterReading>, proposed: Instance) -> (r: (bool, Instance))
    ensures
        (r.0, r.1@) == update_outcome(reading_view(reading), proposed@),
        reading is Some && reading->0.value is Some ==> {
            &&& r.0 == (reading->0.value->0@ == proposed@ || (reading->0.update_in_history
                && reading->0.update_is_head) || reading->0.update_is_orphaned)
            &&& r.1@ == reading->0.value->0@
        },
        reading is Some && reading->0.value is None ==> !r.0 && r.1@ == proposed@,
        reading is None ==> !r.0 && r.1@ == proposed@,
{
    match reading {
        Some(reg) => {
            match reg.value {
                Some(v) => {
                    if v.same_as(&proposed) {
                        (true, v)
                    } else if reg.update_in_history && reg.update_is_head {
                        (true, v)
                    } else if reg.update_is_orphaned {
                        (true, v)
                    } else {
                        (false, v)
                    }
                },
                None => (false, proposed),
            }
        },
        None => (false, proposed),
    }
}

/// The instance that a register holds, if there is a register under the key
/// and it holds a value.
pub fn stored_instance(register: Option<Option<Instance>>) -> (r: Option<Instance>)
    ensures
        opt_instance(r) == (match register {
            Some(Some(v)) => Some(v@),
            _ => None::<InstanceView>,
        }),
{
    match register {
        Some(Some(v)) => Some(v),
        _ => None,
    }
}

pub open spec fn values_view(s: Seq<Option<Instance>>) -> Seq<Option<InstanceView>> {
    s.map_values(|o: Option<Instance>| opt_instance(o))
}

/// The values, in order, whose build id is `build_id`; registers without a value are skipped.
pub open spec fn with_build_id(s: Seq<Option<InstanceView>>, build_id: Seq<char>) -> Seq<InstanceView>
    decreases s.len(),
{
    if s.len() == 0 {
        Seq::empty()
    } else {
        let rest = with_build_id(s.drop_last(), build_id);
        match s.last() {
            Some(v) => if v.build_id == build_id {
                rest.push(v)
            } else {
                rest
            },
            None => rest,
        }
    }
}

/// The instances built from `build_id`, in the order of the registers that hold them.
pub fn get_instances_by_build_id(values: &Vec<Option<Instance>>, build_id: &str) -> (r: Vec<Instance>)
    ensures
        r@.map_values(|i: Instance| i@) == with_build_id(values_view(values@), build_id@),
{
    let ghost s = values_view(values@);
    let mut out: Vec<Instance> = Vec::new();
    let mut i: usize = 0;
    while i < values.len()
        invariant
            i <= values@.len(),
            s == values_view(values@),
            out@.map_values(|x: Instance| x@) == with_build_id(s.take(i as int), build_id@),
        decreases values@.len() - i,
    {
        assert(s.take(i + 1).drop_last() =~= s.take(i as int));
        assert(s.take(i + 1).last() == s[i as int]);
        if let Some(instance) = &values[i] {
            if string_eq(instance.build_id.as_str(), build_id) {
                let ghost before = out@;
                out.push(instance.copy());
                assert(out@.map_values(|x: Instance| x@) =~= before.map_values(|x: Instance| x@).push(
                    instance@,
                ));
            }
        }
        i = i + 1;
    }
    assert(s.take(values@.len() as int) =~= s);
    out
}

/// The last of the values, in order, whose formnet address is `ip`.
pub open spec fn last_with_ip(s: Seq<Option<InstanceView>>, ip: IpAddr) -> Option<InstanceView>
    decreases s.len(),
{
    if s.len() == 0 {
        None
    } else {
        match s.last() {
            Some(v) => if v.formnet_ip == Some(ip) {
                Some(v)
            } else {
                last_with_ip(s.drop_last(), ip)
            },
            None => last_with_ip(s.drop_last(), ip),
        }
    }
}

/// No instance has the address that was asked for.
#[derive(Clone, Copy, Debug, PartialEq, Eq, Structural)]
pub struct InstanceNotFound {
    pub ip: IpAddr,
}

/// The instance whose formnet address is `ip`; where several have it, the last
/// in register order.
pub fn get_instance_by_ip(values: &Vec<Option<Instance>>, ip: IpAddr) -> (r: Result<Instance, InstanceNotFound>)
    ensures
        match r {
            Ok(v) => last_with_ip(values_view(values@), ip) == Some(v@),
            Err(e) => last_with_ip(values_view(values@), ip) is None && e.ip == ip,
        },
{
    let ghost s = values_view(values@);
    let mut found: Option<Instance> = None;
    let mut i: usize = 0;
    while i < values.len()
        invariant
            i <= values@.len(),
            s == values_view(values@),
            opt_instance(found) == last_with_ip(s.take(i as int), ip),
        decreases values@.len() - i,
    {
        assert(s.take(i + 1).drop_last() =~= s.take(i as int));
        assert(s.take(i + 1).last() == s[i as int]);
        if let Some(instance) = &values[i] {
            if let Some(formnet_ip) = instance.formnet_ip {
                if ip == formnet_ip {
                    found = Some(instance.copy());
                }
            }
        }
        i = i + 1;
    }
    assert(s.take(values@.len() as int) =~= s);
    match found {
        Some(v) => Ok(v),
        None => Err(InstanceNotFound { ip }),
    }
}

/// An operation on the replicated map of instances, as far as its origin goes.
pub enum MapOp {
    /// An update of the register under `key`, made by node `actor`.
    Up { actor: String, key: String },
    /// A removal.
    Rm,
}

/// The node and key behind an operation: updates name both, removals neither.
pub fn instance_op(op: MapOp) -> (r: Option<(String, String)>)
    ensures
        match op {
            MapOp::Up { actor, key } => r matches Some(p) && p.0@ == actor@ && p.1@ == key@,
            MapOp::Rm => r is None,
        },
{
    match op {
        MapOp::Up { actor, key } => Some((actor, key)),
        MapOp::Rm => None,
    }
}

/// What a node needs to record an instance locally: the key it goes under,
/// the node that signs, and the node's secret key bytes.
pub struct LocalUpdate {
    pub key: String,
    pub actor: String,
    pub secret_key: Vec<u8>,
}

/// Prepares a local update of `instance` by node `node_id` holding private key
/// `pk` (hexadecimal): the instance goes under its own id and is signed by the
/// node. Fails when the key text is not hexadecimal or not a secret key.
pub fn update_instance_local(node_id: &str, pk: &str, instance: &Instance) -> (r: Result<LocalUpdate, KeyError>)
    ensures
        r matches Err(KeyError::InvalidHex(_)) <==> hex_bytes(pk.spec_bytes()) is None,
        r matches Err(KeyError::InvalidHex(e)) ==> reports_hex_error(pk.spec_bytes(), e),
        r matches Err(KeyError::InvalidKey) <==> (hex_bytes(pk.spec_bytes()) matches Some(b)
            && !valid_secret_key_bytes(b)),
        r matches Ok(u) ==> {
            &&& u.key@ == instance.instance_id@
            &&& u.actor@ == node_id@
            &&& hex_bytes(pk.spec_bytes()) == Some(u.secret_key@)
            &&& valid_secret_key_bytes(u.secret_key@)
        },
{
    let secret_key = signing_key_bytes(pk)?;
    Ok(LocalUpdate { key: instance.instance_id.clone(), actor: node_id.to_owned(), secret_key })
}


/// An update succeeds when the register ends up holding the update's own
/// value, and the report is then that value; with no register under the key,
/// or an empty register, it fails and reports the update's value.
pub proof fn law_update_outcome(
    value: InstanceView,
    in_history: bool,
    is_head: bool,
    is_orphaned: bool,
    proposed: InstanceView,
)
    ensures
        update_outcome(Some((Some(proposed), in_history, is_head, is_orphaned)), proposed) == (true, proposed),
        update_outcome(None, proposed) == (false, proposed),
        update_outcome(Some((None, in_history, is_head, is_orphaned)), proposed) == (false, proposed),
        update_outcome(Some((Some(value), in_history, is_head, is_orphaned)), proposed).1 == value,
{
}

/// A stored value counts as the update's only when it equals the update's
/// value in every field: when the two differ in any field, the update took
/// effect only if it is a head of the register's history or an orphan waiting
/// for its parent. Whatever the flag, the stored value is what is reported.
pub proof fn law_update_needs_equal_value(
    stored: InstanceView,
    proposed: InstanceView,
    in_history: bool,
    is_head: bool,
    is_orphaned: bool,
)
    ensures
        update_outcome(Some((Some(stored), in_history, is_head, is_orphaned)), proposed).0
            <==> (stored == proposed || (in_history && is_head) || is_orphaned),
        stored != proposed && !(in_history && is_head) && !is_orphaned
            ==> !update_outcome(Some((Some(stored), in_history, is_head, is_orphaned)), proposed).0,
        stored.status != proposed.status && !(in_history && is_head) && !is_orphaned
            ==> !update_outcome(Some((Some(stored), in_history, is_head, is_orphaned)), proposed).0,
        stored.metadata != proposed.metadata && !(in_history && is_head) && !is_orphaned
            ==> !update_outcome(Some((Some(stored), in_history, is_head, is_orphaned)), proposed).0,
        update_outcome(Some((Some(stored), in_history, is_head, is_orphaned)), proposed).1 == stored,
{
}

/// Selecting by build id keeps exactly the stored instances with that build
/// id: each one kept has it, none is invented, and none with it is dropped.
pub proof fn law_build_id_selection(s: Seq<Option<InstanceView>>, build_id: Seq<char>)
    ensures
        with_build_id(s, build_id).len() <= s.len(),
        forall|k: int| 0 <= k < with_build_id(s, build_id).len() ==> (#[trigger] with_build_id(s, build_id)[k]).build_id == build_id,
        forall|k: int| 0 <= k < with_build_id(s, build_id).len() ==> s.contains(Some(#[trigger] with_build_id(s, build_id)[k])),
        forall|i: int| 0 <= i < s.len() && (#[trigger] s[i]) is Some && s[i]->0.build_id == build_id ==> with_build_id(s, build_id).contains(s[i]->0),
    decreases s.len(),
{
    if s.len() > 0 {
        let t = s.drop_last();
        law_build_id_selection(t, build_id);
        let r = with_build_id(s, build_id);
        let rt = with_build_id(t, build_id);
        assert forall|k: int| 0 <= k < r.len() implies s.contains(Some(#[trigger] r[k])) by {
            if k < rt.len() {
                assert(r[k] == rt[k]);
                let w = choose|w: int| 0 <= w < t.len() && t[w] == Some(rt[k]);
                assert(s[w] == t[w]);
            } else {
                assert(s[s.len() - 1] == Some(r[k]));
            }
        }
        assert forall|i: int| 0 <= i < s.len() && (#[trigger] s[i]) is Some && s[i]->0.build_id == build_id implies r.contains(s[i]->0) by {
            if i < s.len() - 1 {
                assert(t[i] == s[i]);
                let w = choose|w: int| 0 <= w < rt.len() && rt[w] == s[i]->0;
                assert(r[w] == rt[w]);
            } else {
                assert(r[r.len() - 1] == s[i]->0);
            }
        }
    }
}

/// The register holds an instance whose formnet address is `ip`.
pub open spec fn has_ip(o: Option<InstanceView>, ip: IpAddr) -> bool {
    o is Some && o->0.formnet_ip == Some(ip)
}

/// Looking up by address finds an instance with that address, stored in one
/// of the registers, and no register after it holds one; it finds nothing only
/// when no register holds an instance with that address.
pub proof fn law_ip_lookup(s: Seq<Option<InstanceView>>, ip: IpAddr)
    ensures
        last_with_ip(s, ip) matches Some(v) ==> v.formnet_ip == Some(ip) && exists|i: int|
            0 <= i < s.len() && s[i] == Some(v) && forall|j: int| i < j < s.len() ==> !has_ip(#[trigger] s[j], ip),
        last_with_ip(s, ip) is None <==> forall|i: int| 0 <= i < s.len() ==> !has_ip(#[trigger] s[i], ip),
    decreases s.len(),
{
    if s.len() > 0 {
        let t = s.drop_last();
        law_ip_lookup(t, ip);
        let n = s.len() - 1;
        if has_ip(s[n], ip) {
            assert(last_with_ip(s, ip) == s[n]);
        } else {
            assert(last_with_ip(s, ip) == last_with_ip(t, ip));
            if let Some(v) = last_with_ip(t, ip) {
                let i = choose|i: int| 0 <= i < t.len() && t[i] == Some(v) && forall|j: int| i < j < t.len() ==> !has_ip(#[trigger] t[j], ip);
                assert(s[i] == Some(v));
                assert forall|j: int| i < j < s.len() implies !has_ip(#[trigger] s[j], ip) by {
                    if j < n {
                        assert(s[j] == t[j]);
                    }
                }
            } else {
                assert forall|i: int| 0 <= i < s.len() implies !has_ip(#[trigger] s[i], ip) by {
                    if i < n {
                        assert(s[i] == t[i]);
                    }
                }
            }
        }
    }
}

} // verus!
