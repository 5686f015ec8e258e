use vstd::prelude::*;
use crate::text::{opt_str, strs, copy_opt_string, copy_strings, opt_string_eq, strings_eq};

verus! {

/// The lifecycle state of an instance.
#[derive(Clone, Copy, Debug, PartialEq, Eq, Structural, PartialOrd, Ord, Hash)]
pub enum InstanceStatus {
    Building,
    Built,
    Created,
    Started,
    Stopped,
    Killed,
    CriticalError,
}

/// The line that names a status, newline included.
pub open spec fn status_line(s: InstanceStatus) -> Seq<char> {
    match s {
        InstanceStatus::Building => "Building\n"@,
        InstanceStatus::Built => "Built\n"@,
        InstanceStatus::Created => "Created\n"@,
        InstanceStatus::Started => "Started\n"@,
        InstanceStatus::Stopped => "Stopped\n"@,
        InstanceStatus::Killed => "Killed\n"@,
        InstanceStatus::CriticalError => "Critical Error\n"@,
    }
}

/// Different statuses are displayed differently.
pub proof fn law_status_lines_distinct(a: InstanceStatus, b: InstanceStatus)
    requires
        a != b,
    ensures
        status_line(a) != status_line(b),
{
    reveal_strlit("Building\n");
    reveal_strlit("Built\n");
    reveal_strlit("Created\n");
    reveal_strlit("Started\n");
    reveal_strlit("Stopped\n");
    reveal_strlit("Killed\n");
    reveal_strlit("Critical Error\n");
    if status_line(a) == status_line(b) {
        assert(status_line(a).len() == status_line(b).len());
        assert(status_line(a)[0] == status_line(b)[0]);
        assert(status_line(a)[2] == status_line(b)[2]);
    }
}

impl InstanceStatus {
    /// The status as it is displayed: its name on a line of its own.
    pub fn to_string(&self) -> (r: String)
        ensures
            r@ == status_line(*self),
    {
        match self {
            InstanceStatus::Building => "Building\n".to_owned(),
            InstanceStatus::Built => "Built\n".to_owned(),
            InstanceStatus::Created => "Created\n".to_owned(),
            InstanceStatus::Started => "Started\n".to_owned(),
            InstanceStatus::Stopped => "Stopped\n".to_owned(),
            InstanceStatus::Killed => "Killed\n".to_owned(),
            InstanceStatus::CriticalError => "Critical Error\n".to_owned(),
        }
    }
}

/// An IP address: a version 4 address as its 32 bits, a version 6 address as its 128 bits.
#[derive(Clone, Copy, Debug, PartialEq, Eq, Structural, PartialOrd, Ord, Hash)]
pub enum IpAddr {
    V4(u32),
    V6(u128),
}

// ---------------------------------------------------------------------------
// GPU

/// A GPU attached to an instance.
#[derive(Clone, Debug, PartialEq, Eq, PartialOrd, Ord, Hash)]
pub struct InstanceGpu {
    pub count: u8,
    pub model: String,
    pub vram_mb: u32,
    pub usage: u32,
}

pub struct InstanceGpuView {
    pub count: u8,
    pub model: Seq<char>,
    pub vram_mb: u32,
    pub usage: u32,
}

impl View for InstanceGpu {
    type V = InstanceGpuView;

    open spec fn view(&self) -> InstanceGpuView {
        InstanceGpuView { count: self.count, model: self.model@, vram_mb: self.vram_mb, usage: self.usage }
    }
}

pub open spec fn opt_gpu(o: Option<InstanceGpu>) -> Option<InstanceGpuView> {
    match o {
        Some(g) => Some(g@),
        None => None,
    }
}

impl InstanceGpu {
    pub fn count(&self) -> (r: u8)
        ensures
            r == self.count,
    {
        self.count
    }

    pub fn model(&self) -> (r: &str)
        ensures
            r@ == self.model@,
    {
        self.model.as_str()
    }

    pub fn vram_mb(&self) -> (r: u32)
        ensures
            r == self.vram_mb,
    {
        self.vram_mb
    }

    pub fn usage(&self) -> (r: u32)
        ensures
            r == self.usage,
    {
        self.usage
    }

    /// A field-by-field copy.
    pub fn copy(&self) -> (r: InstanceGpu)
        ensures
            r@ == self@,
    {
        InstanceGpu { count: self.count, model: self.model.clone(), vram_mb: self.vram_mb, usage: self.usage }
    }

    /// Whether two GPUs agree in every field.
    pub fn same_as(&self, other: &InstanceGpu) -> (r: bool)
        ensures
            r == (self@ == other@),
    {
        self.count == other.count && self.model == other.model && self.vram_mb == other.vram_mb
            && self.usage == other.usage
    }
}

pub fn copy_opt_gpu(o: &Option<InstanceGpu>) -> (r: Option<InstanceGpu>)
    ensures
        opt_gpu(r) == opt_gpu(*o),
{
    match o {
        Some(g) => Some(g.copy()),
        None => None,
    }
}

// ---------------------------------------------------------------------------
// Resources

/// The compute resources of an instance.
#[derive(Clone, Debug, PartialEq, Eq, PartialOrd, Ord, Hash)]
pub struct InstanceResources {
    pub vcpus: u8,
    pub memory_mb: u32,
    pub bandwidth_mbps: u32,
    pub gpu: Option<InstanceGpu>,
}

pub struct InstanceResourcesView {
    pub vcpus: u8,
    pub memory_mb: u32,
    pub bandwidth_mbps: u32,
    pub gpu: Option<InstanceGpuView>,
}

impl View for InstanceResources {
    type V = InstanceResourcesView;

    open spec fn view(&self) -> InstanceResourcesView {
        InstanceResourcesView {
            vcpus: self.vcpus,
            memory_mb: self.memory_mb,
            bandwidth_mbps: self.bandwidth_mbps,
            gpu: opt_gpu(self.gpu),
        }
    }
}

impl Default for InstanceResources {
    fn default() -> (r: Self)
        ensures
            r.vcpus == 0,
            r.memory_mb == 0,
            r.bandwidth_mbps == 0,
            r.gpu is None,
    {
        InstanceResources { vcpus: 0, memory_mb: 0, bandwidth_mbps: 0, gpu: None }
    }
}

impl InstanceResources {
    pub fn vcpus(&self) -> (r: u8)
        ensures
            r == self.vcpus,
    {
        self.vcpus
    }

    pub fn memory_mb(&self) -> (r: u32)
        ensures
            r == self.memory_mb,
    {
        self.memory_mb
    }

    pub fn bandwidth_mbps(&self) -> (r: u32)
        ensures
            r == self.bandwidth_mbps,
    {
        self.bandwidth_mbps
    }

    pub fn gpu(&self) -> (r: Option<InstanceGpu>)
        ensures
            opt_gpu(r) == opt_gpu(self.gpu),
    {
        copy_opt_gpu(&self.gpu)
    }

    pub fn gpu_count(&self) -> (r: Option<u8>)
        ensures
            r == (match self.gpu {
                Some(g) => Some(g.count),
                None => None::<u8>,
            }),
    {
        if let Some(gpu) = &self.gpu {
            return Some(gpu.count());
        }
        None
    }

    pub fn gpu_model(&self) -> (r: Option<&str>)
        ensures
            r is Some <==> self.gpu is Some,
            r is Some ==> r->0@ == self.gpu->0.model@,
    {
        if let Some(gpu) = &self.gpu {
            return Some(gpu.model());
        }
        None
    }

    pub fn gpu_vram_mb(&self) -> (r: Option<u32>)
        ensures
            r == (match self.gpu {
                Some(g) => Some(g.vram_mb),
                None => None::<u32>,
            }),
    {
        if let Some(gpu) = &self.gpu {
            return Some(gpu.vram_mb());
        }
        None
    }

    pub fn gpu_usage(&self) -> (r: Option<u32>)
        ensures
            r == (match self.gpu {
                Some(g) => Some(g.usage),
                None => None::<u32>,
            }),
    {
        if let Some(gpu) = &self.gpu {
            return Some(gpu.usage());
        }
        None
    }

    pub fn copy(&self) -> (r: InstanceResources)
        ensures
            r@ == self@,
    {
        InstanceResources {
            vcpus: self.vcpus,
            memory_mb: self.memory_mb,
            bandwidth_mbps: self.bandwidth_mbps,
            gpu: copy_opt_gpu(&self.gpu),
        }
    }

    pub fn same_as(&self, other: &InstanceResources) -> (r: bool)
        ensures
            r == (self@ == other@),
    {
        if self.vcpus != other.vcpus || self.memory_mb != other.memory_mb || self.bandwidth_mbps
            != other.bandwidth_mbps {
            return false;
        }
        match (&self.gpu, &other.gpu) {
            (Some(a), Some(b)) => a.same_as(b),
            (None, None) => true,
            _ => false,
        }
    }
}

} // verus!

verus! {

// ---------------------------------------------------------------------------
// Annotations

/// Who deployed an instance, on which network, from which commit.
#[derive(Clone, Debug, PartialEq, Eq, PartialOrd, Ord, Hash)]
pub struct InstanceAnnotations {
    pub deployed_by: String,
    pub network_id: u16,
    pub build_commit: Option<String>,
}

pub struct InstanceAnnotationsView {
    pub deployed_by: Seq<char>,
    pub network_id: u16,
    pub build_commit: Option<Seq<char>>,
}

impl View for InstanceAnnotations {
    type V = InstanceAnnotationsView;

    open spec fn view(&self) -> InstanceAnnotationsView {
        InstanceAnnotationsView {
            deployed_by: self.deployed_by@,
            network_id: self.network_id,
            build_commit: opt_str(self.build_commit),
        }
    }
}

impl Default for InstanceAnnotations {
    fn default() -> (r: Self)
        ensures
            r.deployed_by@ == Seq::<char>::empty(),
            r.network_id == 0,
            r.build_commit is None,
    {
        InstanceAnnotations { deployed_by: String::new(), network_id: 0, build_commit: None }
    }
}

impl InstanceAnnotations {
    pub fn deployed_by(&self) -> (r: &str)
        ensures
            r@ == self.deployed_by@,
    {
        self.deployed_by.as_str()
    }

    pub fn network_id(&self) -> (r: u16)
        ensures
            r == self.network_id,
    {
        self.network_id
    }

    pub fn build_commit(&self) -> (r: Option<String>)
        ensures
            opt_str(r) == opt_str(self.build_commit),
    {
        copy_opt_string(&self.build_commit)
    }

    pub fn copy(&self) -> (r: InstanceAnnotations)
        ensures
            r@ == self@,
    {
        InstanceAnnotations {
            deployed_by: self.deployed_by.clone(),
            network_id: self.network_id,
            build_commit: copy_opt_string(&self.build_commit),
        }
    }

    pub fn same_as(&self, other: &InstanceAnnotations) -> (r: bool)
        ensures
            r == (self@ == other@),
    {
        self.deployed_by == other.deployed_by && self.network_id == other.network_id
            && opt_string_eq(&self.build_commit, &other.build_commit)
    }
}

// ---------------------------------------------------------------------------
// Encryption

/// Whether an instance's storage is encrypted, and with which scheme.
#[derive(Clone, Debug, PartialEq, Eq, PartialOrd, Ord, Hash)]
pub struct InstanceEncryption {
    pub is_encrypted: bool,
    pub scheme: Option<String>,
}

pub struct InstanceEncryptionView {
    pub is_encrypted: bool,
    pub scheme: Option<Seq<char>>,
}

impl View for InstanceEncryption {
    type V = InstanceEncryptionView;

    open spec fn view(&self) -> InstanceEncryptionView {
        InstanceEncryptionView { is_encrypted: self.is_encrypted, scheme: opt_str(self.scheme) }
    }
}

impl Default for InstanceEncryption {
    fn default() -> (r: Self)
        ensures
            !r.is_encrypted,
            r.scheme is None,
    {
        InstanceEncryption { is_encrypted: false, scheme: None }
    }
}

impl InstanceEncryption {
    pub fn is_encrypted(&self) -> (r: bool)
        ensures
            r == self.is_encrypted,
    {
        self.is_encrypted
    }

    pub fn scheme(&self) -> (r: Option<String>)
        ensures
            opt_str(r) == opt_str(self.scheme),
    {
        copy_opt_string(&self.scheme)
    }

    pub fn copy(&self) -> (r: InstanceEncryption)
        ensures
            r@ == self@,
    {
        InstanceEncryption { is_encrypted: self.is_encrypted, scheme: copy_opt_string(&self.scheme) }
    }

    pub fn same_as(&self, other: &InstanceEncryption) -> (r: bool)
        ensures
            r == (self@ == other@),
    {
        self.is_encrypted == other.is_encrypted && opt_string_eq(&self.scheme, &other.scheme)
    }
}

// ---------------------------------------------------------------------------
// Security

/// The security settings of an instance.
#[derive(Clone, Debug, PartialEq, Eq, PartialOrd, Ord, Hash)]
pub struct InstanceSecurity {
    pub encryption: InstanceEncryption,
    pub tee: bool,
    pub hsm: bool,
}

pub struct InstanceSecurityView {
    pub encryption: InstanceEncryptionView,
    pub tee: bool,
    pub hsm: bool,
}

impl View for InstanceSecurity {
    type V = InstanceSecurityView;

    open spec fn view(&self) -> InstanceSecurityView {
        InstanceSecurityView { encryption: self.encryption@, tee: self.tee, hsm: self.hsm }
    }
}

impl Default for InstanceSecurity {
    fn default() -> (r: Self)
        ensures
            !r.encryption.is_encrypted,
            r.encryption.scheme is None,
            !r.tee,
            !r.hsm,
    {
        InstanceSecurity { encryption: InstanceEncryption::default(), tee: false, hsm: false }
    }
}

impl InstanceSecurity {
    pub fn encryption(&self) -> (r: &InstanceEncryption)
        ensures
            *r == self.encryption,
    {
        &self.encryption
    }

    pub fn tee(&self) -> (r: bool)
        ensures
            r == self.tee,
    {
        self.tee
    }

    pub fn hsm(&self) -> (r: bool)
        ensures
            r == self.hsm,
    {
        self.hsm
    }

    pub fn is_encrypted(&self) -> (r: bool)
        ensures
            r == self.encryption.is_encrypted,
    {
        self.encryption.is_encrypted()
    }

    pub fn scheme(&self) -> (r: Option<String>)
        ensures
            opt_str(r) == opt_str(self.encryption.scheme),
    {
        self.encryption.scheme()
    }

    pub fn copy(&self) -> (r: InstanceSecurity)
        ensures
            r@ == self@,
    {
        InstanceSecurity { encryption: self.encryption.copy(), tee: self.tee, hsm: self.hsm }
    }

    pub fn same_as(&self, other: &InstanceSecurity) -> (r: bool)
        ensures
            r == (self@ == other@),
    {
        self.encryption.same_as(&other.encryption) && self.tee == other.tee && self.hsm == other.hsm
    }
}

// ---------------------------------------------------------------------------
// Monitoring

/// Logging and metrics settings of an instance.
#[derive(Clone, Debug, PartialEq, Eq, PartialOrd, Ord, Hash)]
pub struct InstanceMonitoring {
    pub logging_enabled: bool,
    pub metrics_endpoint: String,
}

pub struct InstanceMonitoringView {
    pub logging_enabled: bool,
    pub metrics_endpoint: Seq<char>,
}

impl View for InstanceMonitoring {
    type V = InstanceMonitoringView;

    open spec fn view(&self) -> InstanceMonitoringView {
        InstanceMonitoringView {
            logging_enabled: self.logging_enabled,
            metrics_endpoint: self.metrics_endpoint@,
        }
    }
}

impl Default for InstanceMonitoring {
    fn default() -> (r: Self)
        ensures
            !r.logging_enabled,
            r.metrics_endpoint@ == Seq::<char>::empty(),
    {
        InstanceMonitoring { logging_enabled: false, metrics_endpoint: String::new() }
    }
}

impl InstanceMonitoring {
    pub fn logging_enabled(&self) -> (r: bool)
        ensures
            r == self.logging_enabled,
    {
        self.logging_enabled
    }

    pub fn metrics_endpoint(&self) -> (r: &str)
        ensures
            r@ == self.metrics_endpoint@,
    {
        self.metrics_endpoint.as_str()
    }

    pub fn copy(&self) -> (r: InstanceMonitoring)
        ensures
            r@ == self@,
    {
        InstanceMonitoring {
            logging_enabled: self.logging_enabled,
            metrics_endpoint: self.metrics_endpoint.clone(),
        }
    }

    pub fn same_as(&self, other: &InstanceMonitoring) -> (r: bool)
        ensures
            r == (self@ == other@),
    {
        self.logging_enabled == other.logging_enabled && self.metrics_endpoint == other.metrics_endpoint
    }
}

// ---------------------------------------------------------------------------
// Metadata

/// Tags, description and the settings above, grouped.
#[derive(Clone, Debug, PartialEq, Eq, PartialOrd, Ord, Hash)]
pub struct InstanceMetadata {
    pub tags: Vec<String>,
    pub description: String,
    pub annotations: InstanceAnnotations,
    pub security: InstanceSecurity,
    pub monitoring: InstanceMonitoring,
}

pub struct InstanceMetadataView {
    pub tags: Seq<Seq<char>>,
    pub description: Seq<char>,
    pub annotations: InstanceAnnotationsView,
    pub security: InstanceSecurityView,
    pub monitoring: InstanceMonitoringView,
}

impl View for InstanceMetadata {
    type V = InstanceMetadataView;

    open spec fn view(&self) -> InstanceMetadataView {
        InstanceMetadataView {
            tags: strs(self.tags@),
            description: self.description@,
            annotations: self.annotations@,
            security: self.security@,
            monitoring: self.monitoring@,
        }
    }
}

impl Default for InstanceMetadata {
    fn default() -> (r: Self)
        ensures
            r.tags@.len() == 0,
            r.description@ == Seq::<char>::empty(),
            r.annotations.deployed_by@ == Seq::<char>::empty(),
            r.annotations.network_id == 0,
            r.annotations.build_commit is None,
            !r.security.encryption.is_encrypted,
            r.security.encryption.scheme is None,
            !r.security.tee,
            !r.security.hsm,
            !r.monitoring.logging_enabled,
            r.monitoring.metrics_endpoint@ == Seq::<char>::empty(),
    {
        InstanceMetadata {
            tags: Vec::new(),
            description: String::new(),
            annotations: InstanceAnnotations::default(),
            security: InstanceSecurity::default(),
            monitoring: InstanceMonitoring::default(),
        }
    }
}

impl InstanceMetadata {
    pub fn tags(&self) -> (r: Vec<String>)
        ensures
            strs(r@) == strs(self.tags@),
    {
        copy_strings(&self.tags)
    }

    pub fn description(&self) -> (r: &str)
        ensures
            r@ == self.description@,
    {
        self.description.as_str()
    }

    pub fn annotations(&self) -> (r: &InstanceAnnotations)
        ensures
            *r == self.annotations,
    {
        &self.annotations
    }

    pub fn security(&self) -> (r: &InstanceSecurity)
        ensures
            *r == self.security,
    {
        &self.security
    }

    pub fn monitoring(&self) -> (r: &InstanceMonitoring)
        ensures
            *r == self.monitoring,
    {
        &self.monitoring
    }

    pub fn deployed_by(&self) -> (r: &str)
        ensures
            r@ == self.annotations.deployed_by@,
    {
        self.annotations.deployed_by()
    }

    pub fn network_id(&self) -> (r: u16)
        ensures
            r == self.annotations.network_id,
    {
        self.annotations.network_id()
    }

    pub fn build_commit(&self) -> (r: Option<String>)
        ensures
            opt_str(r) == opt_str(self.annotations.build_commit),
    {
        copy_opt_string(&self.annotations.build_commit)
    }

    pub fn is_encrypted(&self) -> (r: bool)
        ensures
            r == self.security.encryption.is_encrypted,
    {
        self.security.encryption().is_encrypted()
    }

    pub fn encryption_scheme(&self) -> (r: Option<String>)
        ensures
            opt_str(r) == opt_str(self.security.encryption.scheme),
    {
        self.security.encryption().scheme()
    }

    pub fn is_tee_enabled(&self) -> (r: bool)
        ensures
            r == self.security.tee,
    {
        self.security.tee()
    }

    pub fn is_hsm_enabled(&self) -> (r: bool)
        ensures
            r == self.security.hsm,
    {
        self.security.hsm()
    }

    pub fn copy(&self) -> (r: InstanceMetadata)
        ensures
            r@ == self@,
    {
        InstanceMetadata {
            tags: copy_strings(&self.tags),
            description: self.description.clone(),
            annotations: self.annotations.copy(),
            security: self.security.copy(),
            monitoring: self.monitoring.copy(),
        }
    }

    pub fn same_as(&self, other: &InstanceMetadata) -> (r: bool)
        ensures
            r == (self@ == other@),
    {
        strings_eq(&self.tags, &other.tags) && self.description == other.description
            && self.annotations.same_as(&other.annotations) && self.security.same_as(
            &other.security,
        ) && self.monitoring.same_as(&other.monitoring)
    }
}

} // verus!
