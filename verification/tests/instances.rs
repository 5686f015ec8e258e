use formation::cluster::{ClusterMember, InstanceCluster};
use formation::instance::{instance_url, Instance};
use formation::model::{
    InstanceAnnotations, InstanceEncryption, InstanceGpu, InstanceMetadata, InstanceMonitoring,
    InstanceResources, InstanceSecurity, InstanceStatus, IpAddr,
};
use formation::snapshots::Snapshots;

fn member(id: &str, status: &str, heartbeat: i64, skipped: u32) -> ClusterMember {
    ClusterMember {
        node_id: format!("node-{}", id),
        node_public_ip: IpAddr::V4(0x0a000001),
        node_formnet_ip: IpAddr::V4(0x0a000002),
        instance_id: id.to_string(),
        instance_formnet_ip: IpAddr::V4(0x0a000003),
        status: status.to_string(),
        last_heartbeat: heartbeat,
        heartbeats_skipped: skipped,
    }
}

fn snapshot(id: &str, timestamp: i64, previous: Option<Snapshots>) -> Snapshots {
    Snapshots {
        snapshot_id: id.to_string(),
        timestamp,
        description: Some(format!("snapshot {}", id)),
        previous_snapshot: Box::new(previous),
    }
}

fn gpu_resources() -> InstanceResources {
    InstanceResources {
        vcpus: 4,
        memory_mb: 8192,
        bandwidth_mbps: 1000,
        gpu: Some(InstanceGpu { count: 2, model: "A100".to_string(), vram_mb: 40960, usage: 75 }),
    }
}

#[test]
fn status_lines() {
    assert_eq!(InstanceStatus::Building.to_string(), "Building\n");
    assert_eq!(InstanceStatus::Built.to_string(), "Built\n");
    assert_eq!(InstanceStatus::Created.to_string(), "Created\n");
    assert_eq!(InstanceStatus::Started.to_string(), "Started\n");
    assert_eq!(InstanceStatus::Stopped.to_string(), "Stopped\n");
    assert_eq!(InstanceStatus::Killed.to_string(), "Killed\n");
    assert_eq!(InstanceStatus::CriticalError.to_string(), "Critical Error\n");
}

#[test]
fn default_instance_uses_null_hash_ids() {
    let i = Instance::default();
    let zeros = "0".repeat(64);
    assert_eq!(i.instance_id(), zeros);
    assert_eq!(i.node_id, zeros);
    assert_eq!(i.build_id, zeros);
    assert_eq!(i.instance_owner(), zeros);
    assert_eq!(i.status, InstanceStatus::Building);
    assert_eq!(i.created_at(), 0);
    assert_eq!(i.updated_at(), 0);
    assert_eq!(i.last_snapshot(), 0);
    assert_eq!(i.host_region(), "");
    assert_eq!(i.formfile(), "");
    assert!(i.formnet_ip.is_none());
    assert!(i.snapshots().is_none());
    assert_eq!(i.vcpus(), 0);
    assert_eq!(i.gpu_count(), None);
    assert!(i.cluster_members().is_empty());
    assert!(i.tags().is_empty());
    assert!(!i.is_encrypted());
}

#[test]
fn resource_accessors() {
    let r = gpu_resources();
    assert_eq!(r.vcpus(), 4);
    assert_eq!(r.memory_mb(), 8192);
    assert_eq!(r.bandwidth_mbps(), 1000);
    assert_eq!(r.gpu_count(), Some(2));
    assert_eq!(r.gpu_model(), Some("A100"));
    assert_eq!(r.gpu_vram_mb(), Some(40960));
    assert_eq!(r.gpu_usage(), Some(75));
    assert_eq!(r.gpu().unwrap().model(), "A100");
    let none = InstanceResources::default();
    assert_eq!(none.gpu_count(), None);
    assert_eq!(none.gpu_model(), None);
    assert_eq!(none.gpu_vram_mb(), None);
    assert_eq!(none.gpu_usage(), None);
    assert!(none.gpu().is_none());
}

#[test]
fn gpu_accessors() {
    let g = InstanceGpu { count: 1, model: "T4".to_string(), vram_mb: 16384, usage: 10 };
    assert_eq!(g.count(), 1);
    assert_eq!(g.model(), "T4");
    assert_eq!(g.vram_mb(), 16384);
    assert_eq!(g.usage(), 10);
}

#[test]
fn instance_delegates_resources() {
    let mut i = Instance::default();
    i.resources = gpu_resources();
    assert_eq!(i.vcpus(), 4);
    assert_eq!(i.memory_mb(), 8192);
    assert_eq!(i.bandwidth_mbps(), 1000);
    assert_eq!(i.gpu_count(), Some(2));
    assert_eq!(i.gpu_model(), Some("A100"));
    assert_eq!(i.gpu_vram_mp(), Some(40960));
    assert_eq!(i.gpu_usage(), Some(75));
    assert_eq!(i.resources().vcpus, 4);
}

fn metadata() -> InstanceMetadata {
    InstanceMetadata {
        tags: vec!["web".to_string(), "prod".to_string()],
        description: "frontend".to_string(),
        annotations: InstanceAnnotations {
            deployed_by: "alice".to_string(),
            network_id: 7,
            build_commit: Some("abc123".to_string()),
        },
        security: InstanceSecurity {
            encryption: InstanceEncryption { is_encrypted: true, scheme: Some("aes-256".to_string()) },
            tee: true,
            hsm: false,
        },
        monitoring: InstanceMonitoring { logging_enabled: true, metrics_endpoint: "http://m".to_string() },
    }
}

#[test]
fn metadata_accessors() {
    let m = metadata();
    assert_eq!(m.tags(), vec!["web".to_string(), "prod".to_string()]);
    assert_eq!(m.description(), "frontend");
    assert_eq!(m.deployed_by(), "alice");
    assert_eq!(m.network_id(), 7);
    assert_eq!(m.build_commit(), Some("abc123".to_string()));
    assert!(m.is_encrypted());
    assert_eq!(m.encryption_scheme(), Some("aes-256".to_string()));
    assert!(m.is_tee_enabled());
    assert!(!m.is_hsm_enabled());
    assert_eq!(m.annotations().deployed_by(), "alice");
    assert_eq!(m.annotations().network_id(), 7);
    assert_eq!(m.annotations().build_commit(), Some("abc123".to_string()));
    assert!(m.security().tee());
    assert!(!m.security().hsm());
    assert!(m.security().is_encrypted());
    assert_eq!(m.security().scheme(), Some("aes-256".to_string()));
    assert!(m.security().encryption().is_encrypted());
    assert_eq!(m.security().encryption().scheme(), Some("aes-256".to_string()));
    assert!(m.monitoring().logging_enabled());
    assert_eq!(m.monitoring().metrics_endpoint(), "http://m");
}

#[test]
fn metadata_defaults() {
    let m = InstanceMetadata::default();
    assert!(m.tags().is_empty());
    assert_eq!(m.description(), "");
    assert_eq!(m.network_id(), 0);
    assert_eq!(m.build_commit(), None);
    assert!(!m.is_encrypted());
    assert_eq!(m.encryption_scheme(), None);
    assert!(!m.is_tee_enabled());
    assert!(!m.is_hsm_enabled());
    assert!(!m.monitoring().logging_enabled());
}

#[test]
fn instance_delegates_metadata() {
    let mut i = Instance::default();
    i.metadata = metadata();
    assert_eq!(i.tags(), vec!["web".to_string(), "prod".to_string()]);
    assert_eq!(i.description(), "frontend");
    assert_eq!(i.annotations().deployed_by(), "alice");
    assert!(i.security().tee());
    assert!(i.monitoring().logging_enabled());
    assert!(i.encryption().is_encrypted());
    assert!(i.tee());
    assert!(!i.hsm());
    assert!(i.is_encrypted());
    assert_eq!(i.scheme(), Some("aes-256".to_string()));
    assert_eq!(i.metadata().description(), "frontend");
}

#[test]
fn cluster_insert_get_remove() {
    let mut c = InstanceCluster::new();
    c.insert(member("b", "healthy", 10, 0));
    c.insert(member("a", "degraded", 20, 2));
    c.insert(member("c", "healthy", 30, 1));
    assert!(c.contains_key("a"));
    assert!(!c.contains_key("d"));
    assert_eq!(c.get("a").unwrap().status(), "degraded");
    assert_eq!(c.get_member_status("b"), Some("healthy"));
    assert_eq!(c.get_member_last_heartbeat("c"), Some(30));
    assert_eq!(c.get_member_heartbeats_skipped("a"), Some(2));
    assert_eq!(c.get_member_status("zz"), None);
    assert_eq!(c.get_member_last_heartbeat("zz"), None);
    assert_eq!(c.get_member_heartbeats_skipped("zz"), None);
    let keys: Vec<String> = c.iter().into_iter().map(|(k, _)| k).collect();
    assert_eq!(keys, vec!["a", "b", "c"]);
    let removed = c.remove("b").unwrap();
    assert_eq!(removed.id(), "b");
    assert_eq!(removed.last_heartbeat(), 10);
    assert!(c.remove("b").is_none());
    assert!(!c.contains_key("b"));
    let keys: Vec<String> = c.members().into_iter().map(|(k, _)| k).collect();
    assert_eq!(keys, vec!["a", "c"]);
}

#[test]
fn cluster_insert_replaces_same_id() {
    let mut c = InstanceCluster::new();
    c.insert(member("x", "healthy", 1, 0));
    c.insert(member("x", "failed", 2, 5));
    assert_eq!(c.iter().len(), 1);
    assert_eq!(c.get("x").unwrap().heartbeats_skipped(), 5);
}

#[test]
fn cluster_orders_by_code_point() {
    let mut c = InstanceCluster::new();
    for id in ["node10", "Node", "node2", "node1", "é", "node"] {
        c.insert(member(id, "ok", 0, 0));
    }
    let keys: Vec<String> = c.iter().into_iter().map(|(k, _)| k).collect();
    let mut expected: Vec<String> = ["node10", "Node", "node2", "node1", "é", "node"].iter().map(|s| s.to_string()).collect();
    expected.sort();
    assert_eq!(keys, expected);
}

#[test]
fn cluster_keyed_insert() {
    let mut c = InstanceCluster::default();
    c.insert_keyed("alias".to_string(), member("real", "ok", 0, 0));
    assert!(c.contains_key("alias"));
    assert!(!c.contains_key("real"));
}

#[test]
fn instance_cluster_members() {
    let mut i = Instance::default();
    i.insert_cluster_member(member("m1", "healthy", 5, 0));
    i.insert_cluster_member(member("m0", "healthy", 6, 1));
    assert!(i.is_cluster_member("m1"));
    assert!(!i.is_cluster_member("m2"));
    assert_eq!(i.get_cluster_member("m0").unwrap().last_heartbeat(), 6);
    assert_eq!(i.get_cluster_member_status("m1"), Some("healthy"));
    assert_eq!(i.get_cluster_member_last_heartbeat("m1"), Some(5));
    assert_eq!(i.get_cluster_member_heartbeats_skipped("m0"), Some(1));
    let keys: Vec<String> = i.cluster_member_iter().into_iter().map(|(k, _)| k).collect();
    assert_eq!(keys, vec!["m0", "m1"]);
    assert_eq!(i.cluster().iter().len(), 2);
    assert!(i.remove_cluster_member("m1").is_some());
    assert!(!i.is_cluster_member("m1"));
    assert_eq!(i.instance_id, "0".repeat(64));
}

#[test]
fn snapshots_walk_back() {
    let mut i = Instance::default();
    let (s, left) = i.n_snapshots_ago(3);
    assert!(s.is_none());
    assert_eq!(left, 3);

    let chain = snapshot("s3", 30, Some(snapshot("s2", 20, Some(snapshot("s1", 10, None)))));
    i.snapshots = Some(chain);
    let (s, left) = i.n_snapshots_ago(0);
    assert_eq!(s.unwrap().id(), "s3");
    assert_eq!(left, 0);
    let (s, left) = i.n_snapshots_ago(1);
    assert_eq!(s.unwrap().id(), "s2");
    assert_eq!(left, 0);
    let (s, left) = i.n_snapshots_ago(2);
    assert_eq!(s.unwrap().timestamp(), 10);
    assert_eq!(left, 0);
    let (s, left) = i.n_snapshots_ago(5);
    assert_eq!(s.unwrap().id(), "s1");
    assert_eq!(left, 3);
}

#[test]
fn snapshots_walks_compose() {
    let chain = snapshot("s3", 30, Some(snapshot("s2", 20, Some(snapshot("s1", 10, None)))));
    let mut i = Instance::default();
    i.snapshots = Some(chain);
    let (first, left1) = i.n_snapshots_ago(1);
    let mut j = Instance::default();
    j.snapshots = first;
    let (second, left2) = j.n_snapshots_ago(4);
    let (direct, left) = i.n_snapshots_ago(5);
    assert_eq!(second.unwrap().id(), direct.unwrap().id());
    assert_eq!(left1 + left2, left);
}

#[test]
fn snapshot_accessors() {
    let s = snapshot("s2", 20, Some(snapshot("s1", 10, None)));
    assert_eq!(s.id(), "s2");
    assert_eq!(s.timestamp(), 20);
    assert_eq!(s.description(), Some("snapshot s2".to_string()));
    let prev = s.previous_snapshot();
    assert_eq!((*prev).as_ref().unwrap().id(), "s1");
    assert!((*(*prev).as_ref().unwrap().previous_snapshot()).is_none());
}

#[test]
fn instance_copy_and_compare() {
    let mut i = Instance::default();
    i.host_region = "eu".to_string();
    i.insert_cluster_member(member("m", "ok", 1, 0));
    i.snapshots = Some(snapshot("s1", 1, None));
    let c = i.copy();
    assert!(c.same_as(&i));
    assert_eq!(c, i);
    let mut d = i.copy();
    d.updated_at = 9;
    assert!(!d.same_as(&i));
    let mut e = i.copy();
    e.snapshots = Some(snapshot("s1", 2, None));
    assert!(!e.same_as(&i));
}

#[test]
fn formfile_accessors() {
    let mut i = Instance::default();
    i.formfile = "RlJPTSB1YnVudHU=".to_string();
    assert_eq!(i.formfile_b64(), "RlJPTSB1YnVudHU=");
    assert_eq!(i.formfile(), "RlJPTSB1YnVudHU=");
}

#[test]
fn instance_url_names_the_instance() {
    assert_eq!(instance_url("abc"), "http://127.0.0.1:3004/instance/abc/get");
}

#[test]
fn status_lines_are_distinct() {
    let all = [
        InstanceStatus::Building,
        InstanceStatus::Built,
        InstanceStatus::Created,
        InstanceStatus::Started,
        InstanceStatus::Stopped,
        InstanceStatus::Killed,
        InstanceStatus::CriticalError,
    ];
    for (i, a) in all.iter().enumerate() {
        for b in all.iter().skip(i + 1) {
            assert_ne!(a.to_string(), b.to_string());
        }
    }
}

#[test]
fn cluster_insert_then_remove_restores() {
    let mut c = InstanceCluster::new();
    c.insert(member("a", "ok", 1, 0));
    c.insert(member("n", "new", 2, 0));
    c.remove("n");
    let keys: Vec<String> = c.iter().into_iter().map(|(k, _)| k).collect();
    assert_eq!(keys, vec!["a"]);
    assert_eq!(c.get_member_status("a"), Some("ok"));
}

#[test]
fn cluster_get_mut_changes_in_place() {
    let mut c = InstanceCluster::new();
    c.insert(member("a", "ok", 1, 0));
    c.insert(member("b", "ok", 2, 0));
    if let Some(m) = c.get_mut("b") {
        m.status = "failed".to_string();
        m.heartbeats_skipped = 3;
    }
    assert!(c.get_mut("zz").is_none());
    assert_eq!(c.get_member_status("b"), Some("failed"));
    assert_eq!(c.get_member_heartbeats_skipped("b"), Some(3));
    assert_eq!(c.get_member_status("a"), Some("ok"));
    let keys: Vec<String> = c.iter().into_iter().map(|(k, _)| k).collect();
    assert_eq!(keys, vec!["a", "b"]);
}

#[test]
fn dns_record_takes_part_in_comparison() {
    let mut a = Instance::default();
    a.dns_record = Some("{\"domain\":\"a.example\"}".to_string());
    let mut b = a.copy();
    assert!(a.same_as(&b));
    b.dns_record = Some("{\"domain\":\"b.example\"}".to_string());
    assert!(!a.same_as(&b));
    b.dns_record = None;
    assert!(!a.same_as(&b));
    assert!(Instance::default().dns_record.is_none());
}

#[test]
fn cluster_iter_mut_changes_members_in_place() {
    let mut i = Instance::default();
    i.insert_cluster_member(member("b", "ok", 1, 0));
    i.insert_cluster_member(member("a", "ok", 2, 0));
    {
        let (keys, members) = i.cluster_member_iter_mut();
        assert_eq!(keys, &["a".to_string(), "b".to_string()][..]);
        for m in members.iter_mut() {
            m.heartbeats_skipped += 1;
        }
    }
    assert_eq!(i.get_cluster_member_heartbeats_skipped("a"), Some(1));
    assert_eq!(i.get_cluster_member_heartbeats_skipped("b"), Some(1));
    let mut c = InstanceCluster::new();
    c.insert(member("x", "ok", 0, 0));
    let (_, ms) = c.iter_mut();
    ms[0].status = "down".to_string();
    assert_eq!(c.get_member_status("x"), Some("down"));
}

#[test]
fn clones_are_equal() {
    let mut i = Instance::default();
    i.insert_cluster_member(member("m", "ok", 1, 0));
    i.snapshots = Some(snapshot("s2", 2, Some(snapshot("s1", 1, None))));
    let j = i.clone();
    assert_eq!(i, j);
    let s = i.snapshots.as_ref().unwrap().clone();
    assert_eq!(&s, i.snapshots.as_ref().unwrap());
    let c = i.cluster.clone();
    assert_eq!(c, i.cluster);
}
