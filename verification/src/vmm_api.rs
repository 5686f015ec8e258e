use vstd::prelude::*;
use crate::text::{opt_str, copy_opt_string};

verus! {

/// A request to ping a virtual machine by name.
pub struct PingVmmRequest {
    name: String,
}

impl PingVmmRequest {
    pub fn new(name: String) -> (r: PingVmmRequest)
        ensures
            r.name()@ == name@,
    {
        PingVmmRequest { name }
    }

    pub closed spec fn name(&self) -> String {
        self.name
    }
}

/// A request to create a virtual machine.
pub struct CreateVmRequest {
    pub distro: String,
    pub version: String,
    pub memory_mb: u64,
    pub vcpu_count: u8,
    pub name: String,
    pub user_data: Option<String>,
    pub meta_data: Option<String>,
    pub signature: Option<String>,
    pub recovery_id: u32,
}

/// A request to start a virtual machine.
pub struct StartVmRequest {
    pub id: String,
    pub name: String,
    pub signature: Option<String>,
    pub recovery_id: u32,
}

/// A request to stop a virtual machine.
pub struct StopVmRequest {
    pub id: String,
    pub name: String,
    pub signature: Option<String>,
    pub recovery_id: u32,
}

/// A request to delete a virtual machine.
pub struct DeleteVmRequest {
    pub id: String,
    pub name: String,
    pub signature: Option<String>,
    pub recovery_id: u32,
}

/// What the service answers about a virtual machine.
pub struct VmResponse {
    pub id: String,
    pub name: String,
    pub state: String,
}

/// An event for the VMM service, as the API sends them.
pub enum VmmEvent {
    Ping { name: String },
    Create {
        owner: String,
        recovery_id: u32,
        requestor: String,
        distro: String,
        version: String,
        user_data: Option<String>,
        meta_data: Option<String>,
        memory_mb: u64,
        vcpu_count: u8,
        name: String,
        custom_cmdline: Option<String>,
        rng_source: Option<String>,
        console_type: Option<String>,
    },
    Start { id: String, owner: String, recovery_id: u32, requestor: String },
}

/// The event for a ping: the machine's name, passed on.
pub fn ping_event(request: &PingVmmRequest) -> (r: VmmEvent)
    ensures
        r matches VmmEvent::Ping { name } && name@ == request.name()@,
{
    VmmEvent::Ping { name: request.name.clone() }
}

/// The event for a create request: the request's machine settings, with owner
/// `test`, requestor `test-api`, recovery id 0, and no kernel command line,
/// random source or console type.
pub fn create_event(request: &CreateVmRequest) -> (r: VmmEvent)
    ensures
        r matches VmmEvent::Create {
            owner,
            recovery_id,
            requestor,
            distro,
            version,
            user_data,
            meta_data,
            memory_mb,
            vcpu_count,
            name,
            custom_cmdline,
            rng_source,
            console_type,
        } && owner@ == "test"@ && recovery_id == 0 && requestor@ == "test-api"@ && distro@
            == request.distro@ && version@ == request.version@ && opt_str(user_data) == opt_str(
            request.user_data,
        ) && opt_str(meta_data) == opt_str(request.meta_data) && memory_mb == request.memory_mb
            && vcpu_count == request.vcpu_count && name@ == request.name@ && custom_cmdline is None
            && rng_source is None && console_type is None,
{
    VmmEvent::Create {
        owner: "test".to_owned(),
        recovery_id: 0,
        requestor: "test-api".to_owned(),
        distro: request.distro.clone(),
        version: request.version.clone(),
        user_data: copy_opt_string(&request.user_data),
        meta_data: copy_opt_string(&request.meta_data),
        memory_mb: request.memory_mb,
        vcpu_count: request.vcpu_count,
        name: request.name.clone(),
        custom_cmdline: None,
        rng_source: None,
        console_type: None,
    }
}

/// The answer to an accepted create request: the machine's name, id and state both `pending`.
pub fn create_response(request: &CreateVmRequest) -> (r: VmResponse)
    ensures
        r.id@ == "pending"@,
        r.name@ == request.name@,
        r.state@ == "pending"@,
{
    VmResponse { id: "pending".to_owned(), name: request.name.clone(), state: "pending".to_owned() }
}

/// The event for a start request: the machine's id, with owner `test`,
/// requestor `node` and recovery id 0.
pub fn start_event(request: &StartVmRequest) -> (r: VmmEvent)
    ensures
        r matches VmmEvent::Start { id, owner, recovery_id, requestor } && id@ == request.id@
            && owner@ == "test"@ && recovery_id == 0 && requestor@ == "node"@,
{
    VmmEvent::Start {
        id: request.id.clone(),
        owner: "test".to_owned(),
        recovery_id: 0,
        requestor: "node".to_owned(),
    }
}

/// The answer to an accepted start request: the machine's id and name, state `pending`.
pub fn start_response(request: &StartVmRequest) -> (r: VmResponse)
    ensures
        r.id@ == request.id@,
        r.name@ == request.name@,
        r.state@ == "pending"@,
{
    VmResponse { id: request.id.clone(), name: request.name.clone(), state: "pending".to_owned() }
}

/// The error answered when no reply came in time.
pub open spec fn timeout_message() -> Seq<char> {
    "Ping request timed out awaiting response"@
}

/// The outcome of waiting for the service's reply: the reply if one came,
/// otherwise the time-out error.
pub fn request_outcome<T>(reply: Option<T>) -> (r: Result<T, String>)
    ensures
        match reply {
            Some(v) => r == Ok::<T, String>(v),
            None => r matches Err(e) && e@ == timeout_message(),
        },
{
    match reply {
        Some(v) => Ok(v),
        None => Err("Ping request timed out awaiting response".to_owned()),
    }
}

/// The answer to a health check.
pub fn health_check() -> (r: &'static str)
    ensures
        r@ == "OK"@,
{
    "OK"
}

/// An HTTP method.
#[derive(Clone, Copy, Debug, PartialEq, Eq, Structural)]
pub enum Method {
    Get,
    Post,
}

/// One entry of the service's routing table.
pub struct Route {
    pub method: Method,
    pub path: &'static str,
    pub handler: Handler,
}

pub open spec fn route_views(v: Seq<Route>) -> Seq<(Method, Seq<char>, Handler)> {
    v.map_values(|r: Route| (r.method, r.path@, r.handler))
}

/// The operations the service answers, one per handler.
#[derive(Clone, Copy, Debug, PartialEq, Eq, Structural)]
pub enum Handler {
    HealthCheck,
    Create,
    Start,
    Delete,
    Stop,
    Reboot,
    PowerButton,
    Commit,
    Snapshot,
    Coredump,
    Restore,
    ResizeVcpu,
    ResizeMemory,
    AddDevice,
    AddDisk,
    AddFs,
    RemoveDevice,
    MigrateTo,
    MigrateFrom,
    Ping,
    GetVm,
    List,
}

/// The table of routes: method, path, handler, in the order they are registered.
pub open spec fn route_table() -> Seq<(Method, Seq<char>, Handler)> {
    seq![
        (Method::Get, "/health"@, Handler::HealthCheck),
        (Method::Post, "/vm/create"@, Handler::Create),
        (Method::Post, "/vm/:id/boot"@, Handler::Start),
        (Method::Post, "/vm/:id/delete"@, Handler::Delete),
        (Method::Post, "/vm/:id/pause"@, Handler::Stop),
        (Method::Post, "/vm/:id/stop"@, Handler::Stop),
        (Method::Post, "/vm/:id/reboot"@, Handler::Reboot),
        (Method::Post, "/vm/:id/resume"@, Handler::Start),
        (Method::Post, "/vm/:id/start"@, Handler::Start),
        (Method::Post, "/vm/:id/on"@, Handler::Start),
        (Method::Post, "/vm/:id/power_button"@, Handler::PowerButton),
        (Method::Post, "/vm/:id/commit"@, Handler::Commit),
        (Method::Post, "/vm/:id/update"@, Handler::Commit),
        (Method::Post, "/vm/:id/snapshot"@, Handler::Snapshot),
        (Method::Post, "/vm/:id/coredump"@, Handler::Coredump),
        (Method::Post, "/vm/:id/restore"@, Handler::Restore),
        (Method::Post, "/vm/:id/resize_vcpu"@, Handler::ResizeVcpu),
        (Method::Post, "/vm/:id/resize_memory"@, Handler::ResizeMemory),
        (Method::Post, "/vm/:id/add_device"@, Handler::AddDevice),
        (Method::Post, "/vm/:id/add_disk"@, Handler::AddDisk),
        (Method::Post, "/vm/:id/add_fs"@, Handler::AddFs),
        (Method::Post, "/vm/:id/remove_device"@, Handler::RemoveDevice),
        (Method::Post, "/vm/:id/migrate_to"@, Handler::MigrateTo),
        (Method::Post, "/vm/:id/migrate_from"@, Handler::MigrateFrom),
        (Method::Post, "/vm/:id/ping"@, Handler::Ping),
        (Method::Get, "/vm/:id/info"@, Handler::GetVm),
        (Method::Get, "/vm/:id"@, Handler::GetVm),
        (Method::Get, "/vms"@, Handler::List),
    ]
}

/// The routes of the service, in the order they are registered.
pub fn routes() -> (r: Vec<Route>)
    ensures
        route_views(r@) == route_table(),
{
    let mut r: Vec<Route> = Vec::new();
    r.push(Route { method: Method::Get, path: "/health", handler: Handler::HealthCheck });
    r.push(Route { method: Method::Post, path: "/vm/create", handler: Handler::Create });
    r.push(Route { method: Method::Post, path: "/vm/:id/boot", handler: Handler::Start });
    r.push(Route { method: Method::Post, path: "/vm/:id/delete", handler: Handler::Delete });
    r.push(Route { method: Method::Post, path: "/vm/:id/pause", handler: Handler::Stop });
    r.push(Route { method: Method::Post, path: "/vm/:id/stop", handler: Handler::Stop });
    r.push(Route { method: Method::Post, path: "/vm/:id/reboot", handler: Handler::Reboot });
    r.push(Route { method: Method::Post, path: "/vm/:id/resume", handler: Handler::Start });
    r.push(Route { method: Method::Post, path: "/vm/:id/start", handler: Handler::Start });
    r.push(Route { method: Method::Post, path: "/vm/:id/on", handler: Handler::Start });
    r.push(Route { method: Method::Post, path: "/vm/:id/power_button", handler: Handler::PowerButton });
    r.push(Route { method: Method::Post, path: "/vm/:id/commit", handler: Handler::Commit });
    r.push(Route { method: Method::Post, path: "/vm/:id/update", handler: Handler::Commit });
    r.push(Route { method: Method::Post, path: "/vm/:id/snapshot", handler: Handler::Snapshot });
    r.push(Route { method: Method::Post, path: "/vm/:id/coredump", handler: Handler::Coredump });
    r.push(Route { method: Method::Post, path: "/vm/:id/restore", handler: Handler::Restore });
    r.push(Route { method: Method::Post, path: "/vm/:id/resize_vcpu", handler: Handler::ResizeVcpu });
    r.push(Route { method: Method::Post, path: "/vm/:id/resize_memory", handler: Handler::ResizeMemory });
    r.push(Route { method: Method::Post, path: "/vm/:id/add_device", handler: Handler::AddDevice });
    r.push(Route { method: Method::Post, path: "/vm/:id/add_disk", handler: Handler::AddDisk });
    r.push(Route { method: Method::Post, path: "/vm/:id/add_fs", handler: Handler::AddFs });
    r.push(Route { method: Method::Post, path: "/vm/:id/remove_device", handler: Handler::RemoveDevice });
    r.push(Route { method: Method::Post, path: "/vm/:id/migrate_to", handler: Handler::MigrateTo });
    r.push(Route { method: Method::Post, path: "/vm/:id/migrate_from", handler: Handler::MigrateFrom });
    r.push(Route { method: Method::Post, path: "/vm/:id/ping", handler: Handler::Ping });
    r.push(Route { method: Method::Get, path: "/vm/:id/info", handler: Handler::GetVm });
    r.push(Route { method: Method::Get, path: "/vm/:id", handler: Handler::GetVm });
    r.push(Route { method: Method::Get, path: "/vms", handler: Handler::List });
    assert(route_views(r@) =~= route_table());
    r
}

/// No two routes share both method and path, so every request reaches at most one handler.
#[verifier::rlimit(50)]
pub proof fn law_routes_distinct(i: int, j: int)
    requires
        0 <= i < j < route_table().len(),
    ensures
        !(route_table()[i].0 == route_table()[j].0 && route_table()[i].1 == route_table()[j].1),
{
    reveal_strlit("/health");
    reveal_strlit("/vm/create");
    reveal_strlit("/vm/:id/boot");
    reveal_strlit("/vm/:id/delete");
    reveal_strlit("/vm/:id/pause");
    reveal_strlit("/vm/:id/stop");
    reveal_strlit("/vm/:id/reboot");
    reveal_strlit("/vm/:id/resume");
    reveal_strlit("/vm/:id/start");
    reveal_strlit("/vm/:id/on");
    reveal_strlit("/vm/:id/power_button");
    reveal_strlit("/vm/:id/commit");
    reveal_strlit("/vm/:id/update");
    reveal_strlit("/vm/:id/snapshot");
    reveal_strlit("/vm/:id/coredump");
    reveal_strlit("/vm/:id/restore");
    reveal_strlit("/vm/:id/resize_vcpu");
    reveal_strlit("/vm/:id/resize_memory");
    reveal_strlit("/vm/:id/add_device");
    reveal_strlit("/vm/:id/add_disk");
    reveal_strlit("/vm/:id/add_fs");
    reveal_strlit("/vm/:id/remove_device");
    reveal_strlit("/vm/:id/migrate_to");
    reveal_strlit("/vm/:id/migrate_from");
    reveal_strlit("/vm/:id/ping");
    reveal_strlit("/vm/:id/info");
    reveal_strlit("/vm/:id");
    reveal_strlit("/vms");
    let t = route_table();
    if t[i].0 == t[j].0 && t[i].1 == t[j].1 {
        assert(t[i].1.len() == t[j].1.len());
        assert(t[i].1[4] == t[j].1[4]);
        assert(t[i].1[8] == t[j].1[8]);
        assert(t[i].1[9] == t[j].1[9]);
        assert(t[i].1[10] == t[j].1[10]);
        assert(t[i].1[11] == t[j].1[11]);
        assert(t[i].1[12] == t[j].1[12]);
        assert(t[i].1[15] == t[j].1[15]);
    }
}


/// Requests with this method and path reach handler `h`: a route for them
/// exists, and every route for them names `h`.
pub open spec fn handled_by(m: Method, path: Seq<char>, h: Handler) -> bool {
    &&& exists|i: int| 0 <= i < route_table().len() && #[trigger] route_table()[i].0 == m && route_table()[i].1 == path
    &&& forall|i: int| 0 <= i < route_table().len() && #[trigger] route_table()[i].0 == m && route_table()[i].1 == path
        ==> route_table()[i].2 == h
}

proof fn lemma_lookup_at(j: int)
    requires
        0 <= j < route_table().len(),
    ensures
        handled_by(route_table()[j].0, route_table()[j].1, route_table()[j].2),
{
    let t = route_table();
    assert forall|i: int| 0 <= i < t.len() && #[trigger] t[i].0 == t[j].0 && t[i].1 == t[j].1 implies t[i].2 == t[j].2 by {
        if i < j {
            law_routes_distinct(i, j);
        } else if j < i {
            law_routes_distinct(j, i);
        }
    }
}

/// Each request reaches the handler the service registers for it: starting,
/// booting, resuming and powering on start a machine; pausing and stopping
/// stop it; and so on for every operation of the API.
pub proof fn law_route_handlers()
    ensures
        handled_by(Method::Get, "/health"@, Handler::HealthCheck),
        handled_by(Method::Post, "/vm/create"@, Handler::Create),
        handled_by(Method::Post, "/vm/:id/boot"@, Handler::Start),
        handled_by(Method::Post, "/vm/:id/delete"@, Handler::Delete),
        handled_by(Method::Post, "/vm/:id/pause"@, Handler::Stop),
        handled_by(Method::Post, "/vm/:id/stop"@, Handler::Stop),
        handled_by(Method::Post, "/vm/:id/reboot"@, Handler::Reboot),
        handled_by(Method::Post, "/vm/:id/resume"@, Handler::Start),
        handled_by(Method::Post, "/vm/:id/start"@, Handler::Start),
        handled_by(Method::Post, "/vm/:id/on"@, Handler::Start),
        handled_by(Method::Post, "/vm/:id/power_button"@, Handler::PowerButton),
        handled_by(Method::Post, "/vm/:id/commit"@, Handler::Commit),
        handled_by(Method::Post, "/vm/:id/update"@, Handler::Commit),
        handled_by(Method::Post, "/vm/:id/snapshot"@, Handler::Snapshot),
        handled_by(Method::Post, "/vm/:id/coredump"@, Handler::Coredump),
        handled_by(Method::Post, "/vm/:id/restore"@, Handler::Restore),
        handled_by(Method::Post, "/vm/:id/resize_vcpu"@, Handler::ResizeVcpu),
        handled_by(Method::Post, "/vm/:id/resize_memory"@, Handler::ResizeMemory),
        handled_by(Method::Post, "/vm/:id/add_device"@, Handler::AddDevice),
        handled_by(Method::Post, "/vm/:id/add_disk"@, Handler::AddDisk),
        handled_by(Method::Post, "/vm/:id/add_fs"@, Handler::AddFs),
        handled_by(Method::Post, "/vm/:id/remove_device"@, Handler::RemoveDevice),
        handled_by(Method::Post, "/vm/:id/migrate_to"@, Handler::MigrateTo),
        handled_by(Method::Post, "/vm/:id/migrate_from"@, Handler::MigrateFrom),
        handled_by(Method::Post, "/vm/:id/ping"@, Handler::Ping),
        handled_by(Method::Get, "/vm/:id/info"@, Handler::GetVm),
        handled_by(Method::Get, "/vm/:id"@, Handler::GetVm),
        handled_by(Method::Get, "/vms"@, Handler::List),
{
    lemma_lookup_at(0);
    lemma_lookup_at(1);
    lemma_lookup_at(2);
    lemma_lookup_at(3);
    lemma_lookup_at(4);
    lemma_lookup_at(5);
    lemma_lookup_at(6);
    lemma_lookup_at(7);
    lemma_lookup_at(8);
    lemma_lookup_at(9);
    lemma_lookup_at(10);
    lemma_lookup_at(11);
    lemma_lookup_at(12);
    lemma_lookup_at(13);
    lemma_lookup_at(14);
    lemma_lookup_at(15);
    lemma_lookup_at(16);
    lemma_lookup_at(17);
    lemma_lookup_at(18);
    lemma_lookup_at(19);
    lemma_lookup_at(20);
    lemma_lookup_at(21);
    lemma_lookup_at(22);
    lemma_lookup_at(23);
    lemma_lookup_at(24);
    lemma_lookup_at(25);
    lemma_lookup_at(26);
    lemma_lookup_at(27);
}

} // verus!
