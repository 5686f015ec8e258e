use vstd::prelude::*;
use vstd::string::*;
use crate::text::{strs, opt_str, copy_opt_string, opt_string_eq};
use crate::model::{
    InstanceStatus, IpAddr, InstanceGpu, InstanceResources, InstanceResourcesView, InstanceMetadata,
    InstanceMetadataView, InstanceAnnotations, InstanceSecurity, InstanceMonitoring, InstanceEncryption,
    opt_gpu,
};
use crate::cluster::{ClusterMember, ClusterMemberView, InstanceCluster, keys_sorted};
use crate::snapshots::{Snapshots, SnapshotEntry, history, copy_history, same_history, snapshots_back, steps_back};
use crate::codec::{encode_hex, hex_text};

verus! {

/// A virtual machine instance as the network records it.
#[derive(Debug, PartialEq, Eq, Hash)]
pub struct Instance {
    pub instance_id: String,
    pub node_id: String,
    pub build_id: String,
    pub instance_owner: String,
    pub formnet_ip: Option<IpAddr>,
    /// The instance's DNS record, in its JSON text.
    pub dns_record: Option<String>,
    pub created_at: i64,
    pub updated_at: i64,
    pub last_snapshot: i64,
    pub status: InstanceStatus,
    pub host_region: String,
    pub resources: InstanceResources,
    pub cluster: InstanceCluster,
    /// Base64 encoded formfile
    pub formfile: String,
    pub snapshots: Option<Snapshots>,
    pub metadata: InstanceMetadata,
}

pub struct InstanceView {
    pub instance_id: Seq<char>,
    pub node_id: Seq<char>,
    pub build_id: Seq<char>,
    pub instance_owner: Seq<char>,
    pub formnet_ip: Option<IpAddr>,
    pub dns_record: Option<Seq<char>>,
    pub created_at: i64,
    pub updated_at: i64,
    pub last_snapshot: i64,
    pub status: InstanceStatus,
    pub host_region: Seq<char>,
    pub resources: InstanceResourcesView,
    pub cluster: Seq<(Seq<char>, ClusterMemberView)>,
    pub formfile: Seq<char>,
    pub snapshots: Seq<SnapshotEntry>,
    pub metadata: InstanceMetadataView,
}

impl View for Instance {
    type V = InstanceView;

    open spec fn view(&self) -> InstanceView {
        InstanceView {
            instance_id: self.instance_id@,
            node_id: self.node_id@,
            build_id: self.build_id@,
            instance_owner: self.instance_owner@,
            formnet_ip: self.formnet_ip,
            dns_record: opt_str(self.dns_record),
            created_at: self.created_at,
            updated_at: self.updated_at,
            last_snapshot: self.last_snapshot,
            status: self.status,
            host_region: self.host_region@,
            resources: self.resources@,
            cluster: self.cluster@,
            formfile: self.formfile@,
            snapshots: history(self.snapshots),
            metadata: self.metadata@,
        }
    }
}

/// The hexadecimal text of 32 zero bytes: 64 zero digits.
pub open spec fn null_hex() -> Seq<char> {
    Seq::new(64, |i: int| '0')
}

impl Default for Instance {
    /// An instance with every id the hexadecimal text of 32 zero bytes, every
    /// time zero, status `Building`, and everything else empty.
    fn default() -> (r: Self)
        ensures
            r.instance_id@ == null_hex(),
            r.node_id@ == null_hex(),
            r.build_id@ == null_hex(),
            r.instance_owner@ == null_hex(),
            r.formnet_ip is None,
            r.dns_record is None,
            r.created_at == 0,
            r.updated_at == 0,
            r.last_snapshot == 0,
            r.status == InstanceStatus::Building,
            r.host_region@ == Seq::<char>::empty(),
            r.resources.vcpus == 0,
            r.resources.memory_mb == 0,
            r.resources.bandwidth_mbps == 0,
            r.resources.gpu is None,
            r.cluster@ == Seq::<(Seq<char>, ClusterMemberView)>::empty(),
            r.formfile@ == Seq::<char>::empty(),
            r.snapshots is None,
            r.metadata.tags@.len() == 0,
            r.metadata.description@ == Seq::<char>::empty(),
            r.metadata.annotations.deployed_by@ == Seq::<char>::empty(),
            r.metadata.annotations.network_id == 0,
            r.metadata.annotations.build_commit is None,
            !r.metadata.security.encryption.is_encrypted,
            r.metadata.security.encryption.scheme is None,
            !r.metadata.security.tee,
            !r.metadata.security.hsm,
            !r.metadata.monitoring.logging_enabled,
            r.metadata.monitoring.metrics_endpoint@ == Seq::<char>::empty(),
    {
        let null_hash: Vec<u8> = vec![0u8; 32];
        let null_hex_text = encode_hex(null_hash.as_slice());
        proof {
            assert(hex_text(null_hash@) =~= null_hex());
        }
        Instance {
            instance_id: null_hex_text.clone(),
            node_id: null_hex_text.clone(),
            build_id: null_hex_text.clone(),
            instance_owner: null_hex_text,
            formnet_ip: None,
            dns_record: None,
            created_at: 0,
            updated_at: 0,
            last_snapshot: 0,
            status: InstanceStatus::Building,
            host_region: String::new(),
            resources: InstanceResources::default(),
            cluster: InstanceCluster::default(),
            formfile: String::new(),
            snapshots: None,
            metadata: InstanceMetadata::default(),
        }
    }
}


/// `after` is `before` with only the cluster changed.
pub open spec fn only_cluster_changed(before: InstanceView, after: InstanceView) -> bool {
    after == InstanceView { cluster: after.cluster, ..before }
}

impl Instance {
    pub fn instance_id(&self) -> (r: &str)
        ensures
            r@ == self.instance_id@,
    {
        self.instance_id.as_str()
    }

    pub fn instance_owner(&self) -> (r: &str)
        ensures
            r@ == self.instance_owner@,
    {
        self.instance_owner.as_str()
    }

    pub fn created_at(&self) -> (r: i64)
        ensures
            r == self.created_at,
    {
        self.created_at
    }

    pub fn updated_at(&self) -> (r: i64)
        ensures
            r == self.updated_at,
    {
        self.updated_at
    }

    pub fn last_snapshot(&self) -> (r: i64)
        ensures
            r == self.last_snapshot,
    {
        self.last_snapshot
    }

    pub fn host_region(&self) -> (r: &str)
        ensures
            r@ == self.host_region@,
    {
        self.host_region.as_str()
    }

    pub fn resources(&self) -> (r: &InstanceResources)
        ensures
            *r == self.resources,
    {
        &self.resources
    }

    pub fn cluster(&self) -> (r: &InstanceCluster)
        ensures
            *r == self.cluster,
    {
        &self.cluster
    }

    pub fn formfile(&self) -> (r: &str)
        ensures
            r@ == self.formfile@,
    {
        self.formfile.as_str()
    }

    pub fn snapshots(&self) -> (r: &Option<Snapshots>)
        ensures
            *r == self.snapshots,
    {
        &self.snapshots
    }

    pub fn metadata(&self) -> (r: &InstanceMetadata)
        ensures
            *r == self.metadata,
    {
        &self.metadata
    }

    pub fn vcpus(&self) -> (r: u8)
        ensures
            r == self.resources.vcpus,
    {
        self.resources.vcpus()
    }

    pub fn memory_mb(&self) -> (r: u32)
        ensures
            r == self.resources.memory_mb,
    {
        self.resources.memory_mb()
    }

    pub fn bandwidth_mbps(&self) -> (r: u32)
        ensures
            r == self.resources.bandwidth_mbps,
    {
        self.resources.bandwidth_mbps()
    }

    pub fn gpu(&self) -> (r: Option<InstanceGpu>)
        ensures
            opt_gpu(r) == opt_gpu(self.resources.gpu),
    {
        self.resources.gpu()
    }

    pub fn gpu_count(&self) -> (r: Option<u8>)
        ensures
            r == (match self.resources.gpu {
                Some(g) => Some(g.count),
                None => None::<u8>,
            }),
    {
        self.resources.gpu_count()
    }

    pub fn gpu_model(&self) -> (r: Option<&str>)
        ensures
            r is Some <==> self.resources.gpu is Some,
            r is Some ==> r->0@ == self.resources.gpu->0.model@,
    {
        self.resources.gpu_model()
    }

    /// The GPU's video memory in megabytes, if the instance has a GPU.
    pub fn gpu_vram_mp(&self) -> (r: Option<u32>)
        ensures
            r == (match self.resources.gpu {
                Some(g) => Some(g.vram_mb),
                None => None::<u32>,
            }),
    {
        self.resources.gpu_vram_mb()
    }

    pub fn gpu_usage(&self) -> (r: Option<u32>)
        ensures
            r == (match self.resources.gpu {
                Some(g) => Some(g.usage),
                None => None::<u32>,
            }),
    {
        self.resources.gpu_usage()
    }

    /// The cluster's entries, key and member, in key order.
    pub fn cluster_members(&self) -> (r: Vec<(String, ClusterMember)>)
        ensures
            r@.len() == self.cluster@.len(),
            forall|i: int| 0 <= i < r@.len() ==> (#[trigger] r@[i]).0@ == self.cluster@[i].0 && r@[i].1@ == self.cluster@[i].1,
            keys_sorted(self.cluster@),
    {
        self.cluster.members()
    }

    pub fn is_cluster_member(&self, id: &str) -> (r: bool)
        ensures
            r == self.cluster.as_map().contains_key(id@),
    {
        self.cluster.contains_key(id)
    }

    pub fn get_cluster_member(&self, id: &str) -> (r: Option<&ClusterMember>)
        ensures
            r is Some <==> self.cluster.as_map().contains_key(id@),
            r is Some ==> r->0@ == self.cluster.as_map()[id@],
    {
        self.cluster.get(id)
    }

    pub fn get_cluster_member_status(&self, id: &str) -> (r: Option<&str>)
        ensures
            r is Some <==> self.cluster.as_map().contains_key(id@),
            r is Some ==> r->0@ == self.cluster.as_map()[id@].status,
    {
        self.cluster.get_member_status(id)
    }

    pub fn get_cluster_member_last_heartbeat(&self, id: &str) -> (r: Option<i64>)
        ensures
            r is Some <==> self.cluster.as_map().contains_key(id@),
            r is Some ==> r->0 == self.cluster.as_map()[id@].last_heartbeat,
    {
        self.cluster.get_member_last_heartbeat(id)
    }

    pub fn get_cluster_member_heartbeats_skipped(&self, id: &str) -> (r: Option<u32>)
        ensures
            r is Some <==> self.cluster.as_map().contains_key(id@),
            r is Some ==> r->0 == self.cluster.as_map()[id@].heartbeats_skipped,
    {
        self.cluster.get_member_heartbeats_skipped(id)
    }

    /// Adds `member` to the cluster under its id, replacing any member with that id.
    pub fn insert_cluster_member(&mut self, member: ClusterMember)
        ensures
            final(self).cluster.as_map() == old(self).cluster.as_map().insert(member.instance_id@, member@),
            keys_sorted(final(self).cluster@),
            only_cluster_changed(old(self)@, final(self)@),
    {
        self.cluster.insert(member);
    }

    /// Takes the member with id `id` out of the cluster, if there is one.
    pub fn remove_cluster_member(&mut self, id: &str) -> (r: Option<ClusterMember>)
        ensures
            final(self).cluster.as_map() == old(self).cluster.as_map().remove(id@),
            r is Some <==> old(self).cluster.as_map().contains_key(id@),
            r is Some ==> r->0@ == old(self).cluster.as_map()[id@],
            keys_sorted(final(self).cluster@),
            only_cluster_changed(old(self)@, final(self)@),
    {
        self.cluster.remove(id)
    }

    /// The cluster's entries in key order; the same as `cluster_members`.
    pub fn cluster_member_iter(&self) -> (r: Vec<(String, ClusterMember)>)
        ensures
            r@.len() == self.cluster@.len(),
            forall|i: int| 0 <= i < r@.len() ==> (#[trigger] r@[i]).0@ == self.cluster@[i].0 && r@[i].1@ == self.cluster@[i].1,
            keys_sorted(self.cluster@),
    {
        self.cluster.iter()
    }

    /// The cluster's keys in order, beside its members to change in place.
    pub fn cluster_member_iter_mut(&mut self) -> (r: (&[String], &mut [ClusterMember]))
        ensures
            r.0@.len() == old(self).cluster@.len(),
            (*r.1)@.len() == old(self).cluster@.len(),
            forall|i: int| 0 <= i < old(self).cluster@.len() ==> (#[trigger] r.0@[i])@ == old(self).cluster@[i].0 && (*r.1)@[i]@ == old(self).cluster@[i].1,
            final(self).cluster@.len() == old(self).cluster@.len(),
            forall|i: int| 0 <= i < old(self).cluster@.len() ==> (#[trigger] final(self).cluster@[i]).0 == old(self).cluster@[i].0 && final(self).cluster@[i].1 == (*final(r.1))@[i]@,
            keys_sorted(final(self).cluster@),
            only_cluster_changed(old(self)@, final(self)@),
    {
        self.cluster.iter_mut()
    }

    /// The base64 text of the instance's formfile.
    pub fn formfile_b64(&self) -> (r: &str)
        ensures
            r@ == self.formfile@,
    {
        self.formfile.as_str()
    }

    /// Walks `n` snapshots back from the newest one. The result is where the
    /// walk ended and how many of the `n` steps could not be taken: with no
    /// snapshot at all, nothing and all `n`; otherwise the walk stops early at
    /// the oldest snapshot.
    pub fn n_snapshots_ago(&self, n: u32) -> (r: (Option<Snapshots>, u32))
        ensures
            history(r.0) == steps_back(history(self.snapshots), n).0,
            r.1 == steps_back(history(self.snapshots), n).1,
    {
        snapshots_back(&self.snapshots, n)
    }

    pub fn tags(&self) -> (r: Vec<String>)
        ensures
            strs(r@) == strs(self.metadata.tags@),
    {
        self.metadata.tags()
    }

    pub fn description(&self) -> (r: &str)
        ensures
            r@ == self.metadata.description@,
    {
        self.metadata.description()
    }

    pub fn annotations(&self) -> (r: &InstanceAnnotations)
        ensures
            *r == self.metadata.annotations,
    {
        self.metadata.annotations()
    }

    pub fn security(&self) -> (r: &InstanceSecurity)
        ensures
            *r == self.metadata.security,
    {
        self.metadata.security()
    }

    pub fn monitoring(&self) -> (r: &InstanceMonitoring)
        ensures
            *r == self.metadata.monitoring,
    {
        self.metadata.monitoring()
    }

    pub fn encryption(&self) -> (r: &InstanceEncryption)
        ensures
            *r == self.metadata.security.encryption,
    {
        self.security().encryption()
    }

    pub fn tee(&self) -> (r: bool)
        ensures
            r == self.metadata.security.tee,
    {
        self.security().tee()
    }

    pub fn hsm(&self) -> (r: bool)
        ensures
            r == self.metadata.security.hsm,
    {
        self.security().hsm()
    }

    pub fn is_encrypted(&self) -> (r: bool)
        ensures
            r == self.metadata.security.encryption.is_encrypted,
    {
        self.encryption().is_encrypted()
    }

    pub fn scheme(&self) -> (r: Option<String>)
        ensures
            opt_str(r) == opt_str(self.metadata.security.encryption.scheme),
    {
        self.encryption().scheme()
    }

    /// A field-by-field copy.
    pub fn copy(&self) -> (r: Instance)
        ensures
            r@ == self@,
    {
        Instance {
            instance_id: self.instance_id.clone(),
            node_id: self.node_id.clone(),
            build_id: self.build_id.clone(),
            instance_owner: self.instance_owner.clone(),
            formnet_ip: self.formnet_ip,
            dns_record: copy_opt_string(&self.dns_record),
            created_at: self.created_at,
            updated_at: self.updated_at,
            last_snapshot: self.last_snapshot,
            status: self.status,
            host_region: self.host_region.clone(),
            resources: self.resources.copy(),
            cluster: self.cluster.copy(),
            formfile: self.formfile.clone(),
            snapshots: copy_history(&self.snapshots),
            metadata: self.metadata.copy(),
        }
    }

    /// Whether two instances agree in every field.
    pub fn same_as(&self, other: &Instance) -> (r: bool)
        ensures
            r == (self@ == other@),
    {
        self.instance_id == other.instance_id && self.node_id == other.node_id && self.build_id
            == other.build_id && self.instance_owner == other.instance_owner && self.formnet_ip
            == other.formnet_ip && opt_string_eq(&self.dns_record, &other.dns_record) && self.created_at == other.created_at && self.updated_at
            == other.updated_at && self.last_snapshot == other.last_snapshot && self.status
            == other.status && self.host_region == other.host_region && self.resources.same_as(
            &other.resources,
        ) && self.cluster.same_as(&other.cluster) && self.formfile == other.formfile
            && same_history(&self.snapshots, &other.snapshots) && self.metadata.same_as(
            &other.metadata,
        )
    }
}


impl Clone for Instance {
    fn clone(&self) -> (r: Self)
        ensures
            r@ == self@,
    {
        self.copy()
    }
}

/// Where the local state service answers for the instance with id `id`.
pub fn instance_url(id: &str) -> (r: String)
    ensures
        r@ == "http://127.0.0.1:3004/instance/"@ + id@ + "/get"@,
{
    let mut url = "http://127.0.0.1:3004/instance/".to_owned();
    url.append(id);
    url.append("/get");
    url
}

} // verus!
