use formation::instance::Instance;
use formation::pack_status::{print_pack_status, PackBuildStatus, PackResponse, Piece, StatusCommand, StatusFetch, Style};
use formation::text::{decimal_string, string_lt};
use formation::vmm_api::{
    create_event, create_response, health_check, ping_event, request_outcome, routes, start_event, start_response,
    CreateVmRequest, Handler, Method, PingVmmRequest, StartVmRequest, VmmEvent,
};

fn text(pieces: &[Piece]) -> String {
    pieces.iter().map(|p| p.text.as_str()).collect()
}

fn styled(pieces: &[Piece], style: Style) -> Vec<String> {
    pieces.iter().filter(|p| p.style == style).map(|p| p.text.clone()).collect()
}

fn command() -> StatusCommand {
    StatusCommand { build_id: "b-42".to_string() }
}

#[test]
fn banner_names_the_build() {
    let b = command().status_banner();
    assert_eq!(text(&b), "Checking status for build ID: b-42\n");
    assert_eq!(styled(&b, Style::BrightBlue), vec!["b-42"]);
}

#[test]
fn status_url() {
    assert_eq!(command().status_url("host", 3003), "http://host:3003/b-42/get_status");
    assert_eq!(command().status_url("h", 0), "http://h:0/b-42/get_status");
}

#[test]
fn decimal_text() {
    assert_eq!(decimal_string(0), "0");
    assert_eq!(decimal_string(7), "7");
    assert_eq!(decimal_string(65535), "65535");
    assert_eq!(decimal_string(u64::MAX), u64::MAX.to_string());
}

#[test]
fn string_order() {
    assert!(string_lt("a", "b"));
    assert!(string_lt("a", "ab"));
    assert!(!string_lt("ab", "a"));
    assert!(!string_lt("x", "x"));
    assert!(string_lt("Z", "a"));
}

#[test]
fn report_connection_failure() {
    let r = command().status_report("prov", 8080, &StatusFetch::ConnectionFailed("refused".to_string()));
    assert_eq!(
        text(&r),
        "\nError connecting to server: refused\nPlease check that:\n1. The provider prov is running and accessible\n2. The port 8080 is correct and open\n3. Your network connection is stable\n"
    );
    assert_eq!(styled(&r, Style::BrightYellow), vec!["prov", "8080"]);
    assert_eq!(styled(&r, Style::BrightRed), vec!["refused"]);
}

#[test]
fn report_invalid_response() {
    let r = command().status_report("prov", 1, &StatusFetch::InvalidResponse("bad json".to_string()));
    assert_eq!(text(&r), "\nError parsing response from server: bad json\nThis could mean the server is not running or is misconfigured.\n");
}

#[test]
fn report_started() {
    let r = command().status_report("p", 1, &StatusFetch::Received(PackResponse::Status(PackBuildStatus::Started("b-42".to_string()))));
    let t = text(&r);
    assert!(t.starts_with("\nBuild ID: b-42 is currently in progress.\n\nStatus: STARTED\n"));
    assert!(t.ends_with("Check back in a few minutes for an update.\n\n"));
    assert_eq!(styled(&r, Style::Blue), vec!["STARTED"]);
}

#[test]
fn report_failed() {
    let r = command().status_report(
        "p",
        1,
        &StatusFetch::Received(PackResponse::Status(PackBuildStatus::Failed { build_id: "b-1".to_string(), reason: "oom".to_string() })),
    );
    assert_eq!(text(&r), "\nBuild ID: b-1 has failed.\n\nStatus: FAILED\nReason: oom\n\nPlease check your Formfile and build configuration.\n\n");
}

#[test]
fn report_completed() {
    let mut i = Instance::default();
    i.build_id = "b-9".to_string();
    let r = command().status_report("p", 1, &StatusFetch::Received(PackResponse::Status(PackBuildStatus::Completed(i))));
    assert_eq!(
        text(&r),
        "\nBuild ID: b-9 has completed successfully!\n\nStatus: COMPLETED\n\nYou can now deploy this build by running:\nform pack ship\n\n"
    );
    assert_eq!(styled(&r, Style::BrightGreen), vec!["COMPLETED"]);
}

#[test]
fn report_success_and_failure() {
    let r = command().status_report("p", 1, &StatusFetch::Received(PackResponse::Success));
    assert_eq!(
        text(&r),
        "\nBuild status check successful, but no status information is available.\nThis usually means the build ID b-42 doesn't exist.\n"
    );
    let r = command().status_report("p", 1, &StatusFetch::Received(PackResponse::Failure));
    assert_eq!(
        text(&r),
        "\nFailed to get build status for ID: b-42\nThis could mean:\n1. The build ID doesn't exist\n2. The build status has expired from the queue\n3. There was an error processing the status request\n"
    );
}

#[test]
fn pack_status_messages() {
    let started = print_pack_status(&PackResponse::Status(PackBuildStatus::Started("x".to_string())), "x");
    assert!(text(&started).starts_with("\nYour build has Started but has not yet Completed.\n"));
    assert_eq!(styled(&started, Style::BrightPurple), vec!["5 minutes"]);
    let failed = print_pack_status(
        &PackResponse::Status(PackBuildStatus::Failed { build_id: "b-3".to_string(), reason: "disk full".to_string() }),
        "b-3",
    );
    assert!(text(&failed).starts_with("\nWe regret to inform you that your build with build id b-3 has Failed.\n\nThe reason for the falure was: disk full\n"));
    assert_eq!(styled(&failed, Style::ItalicBrightMagenta), vec!["disk full"]);
    let mut i = Instance::default();
    i.build_id = "b-5".to_string();
    let done = print_pack_status(&PackResponse::Status(PackBuildStatus::Completed(i)), "b-5");
    assert!(text(&done).contains("form pack [OPTIONS] ship"));
    assert!(text(&done).starts_with("\nWe are overjoyed to inform you that your build with build id b-5 has Completed.\n"));
    let failure = print_pack_status(&PackResponse::Failure, "b");
    assert!(text(&failure).starts_with("\nSomething went terribly wrong. The response received was Failure which is an invalid response \nto the `form pack [OPTIONS] build` command.\n"));
    let other = print_pack_status(&PackResponse::Success, "b");
    assert!(text(&other).contains("The response received was Success which"));
    assert_eq!(styled(&other, Style::BrightRedOnBlue), vec!["terribly"]);
}

#[test]
fn vmm_events() {
    match ping_event(&PingVmmRequest::new("vm1".to_string())) {
        VmmEvent::Ping { name } => assert_eq!(name, "vm1"),
        _ => panic!("expected a ping"),
    }
    let create = CreateVmRequest {
        distro: "ubuntu".to_string(),
        version: "22.04".to_string(),
        memory_mb: 2048,
        vcpu_count: 2,
        name: "web".to_string(),
        user_data: Some("ud".to_string()),
        meta_data: None,
        signature: None,
        recovery_id: 3,
    };
    match create_event(&create) {
        VmmEvent::Create { owner, recovery_id, requestor, distro, version, user_data, meta_data, memory_mb, vcpu_count, name, custom_cmdline, rng_source, console_type } => {
            assert_eq!(owner, "test");
            assert_eq!(recovery_id, 0);
            assert_eq!(requestor, "test-api");
            assert_eq!(distro, "ubuntu");
            assert_eq!(version, "22.04");
            assert_eq!(user_data, Some("ud".to_string()));
            assert_eq!(meta_data, None);
            assert_eq!(memory_mb, 2048);
            assert_eq!(vcpu_count, 2);
            assert_eq!(name, "web");
            assert!(custom_cmdline.is_none() && rng_source.is_none() && console_type.is_none());
        }
        _ => panic!("expected a create"),
    }
    let r = create_response(&create);
    assert_eq!((r.id.as_str(), r.name.as_str(), r.state.as_str()), ("pending", "web", "pending"));
    let start = StartVmRequest { id: "vm-7".to_string(), name: "web".to_string(), signature: None, recovery_id: 1 };
    match start_event(&start) {
        VmmEvent::Start { id, owner, recovery_id, requestor } => {
            assert_eq!((id.as_str(), owner.as_str(), recovery_id, requestor.as_str()), ("vm-7", "test", 0, "node"));
        }
        _ => panic!("expected a start"),
    }
    let r = start_response(&start);
    assert_eq!((r.id.as_str(), r.name.as_str(), r.state.as_str()), ("vm-7", "web", "pending"));
}

#[test]
fn reply_or_timeout() {
    assert_eq!(request_outcome(Some(5)), Ok(5));
    assert_eq!(request_outcome::<u8>(None), Err("Ping request timed out awaiting response".to_string()));
    assert_eq!(health_check(), "OK");
}

#[test]
fn route_table() {
    let r = routes();
    assert_eq!(r.len(), 28);
    assert_eq!((r[0].method, r[0].path, r[0].handler), (Method::Get, "/health", Handler::HealthCheck));
    assert_eq!((r[4].method, r[4].path, r[4].handler), (Method::Post, "/vm/:id/pause", Handler::Stop));
    assert_eq!((r[27].method, r[27].path, r[27].handler), (Method::Get, "/vms", Handler::List));
    for i in 0..r.len() {
        for j in (i + 1)..r.len() {
            assert!(!(r[i].method == r[j].method && r[i].path == r[j].path));
        }
    }
}
