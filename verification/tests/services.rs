//! Service handler behaviour: disks, locales, system and provisioner.

use lichen::auth::{uds_interceptor, AuthService, PeerCred, Request, Status};
use lichen::disks::{
    is_disk_usable, usable_disks, Disk, DiskKind, ListDisksRequest, Partition,
};
use lichen::locales::{default_locale_code, GetLocaleRequest, Locale};
use lichen::provisioner::{StrategyDefinition, TryStrategyRequest};
use lichen::system::{OsInfo, ServeEvent, ServeLoop};

fn authed<T>(body: T) -> Request<T> {
    let request = Request::from_transport(Some(PeerCred { uid: 0, gid: 0, pid: Some(1) }), body);
    uds_interceptor(request).unwrap_or_else(|_| panic!("credentials were present"))
}

fn disk(name: &str, kind: DiskKind) -> Disk {
    Disk {
        name: name.to_owned(),
        sectors: 1024,
        device: format!("/dev/{name}"),
        model: None,
        vendor: None,
        partitions: Vec::new(),
        kind,
        display_size: "512.00 KiB".to_owned(),
        image_path: None,
    }
}

fn pool() -> Vec<Disk> {
    vec![
        disk("sda", DiskKind::Scsi),
        disk("loop0", DiskKind::Loopback),
        disk("nvme0n1", DiskKind::Nvme),
    ]
}

#[test]
fn loopback_devices_are_not_usable() {
    assert!(is_disk_usable(&disk("sda", DiskKind::Scsi)));
    assert!(!is_disk_usable(&disk("loop0", DiskKind::Loopback)));
}

#[test]
fn usable_disks_drops_loopback_devices() {
    let usable = usable_disks(pool());
    let names: Vec<&str> = usable.iter().map(|d| d.name.as_str()).collect();
    assert_eq!(names, vec!["sda", "nvme0n1"]);
}

#[test]
fn list_disks_excluding_loopback_never_returns_one() {
    let service = lichen::disks::service(AuthService::new(), pool());
    let resp = service
        .list_disks(authed(ListDisksRequest { exclude_loopback: true }))
        .unwrap_or_else(|_| panic!("authenticated request"));
    assert_eq!(resp.disks.len(), 2);
    for d in &resp.disks {
        assert!(!matches!(d.kind, DiskKind::Loopback));
    }
}

#[test]
fn list_disks_including_loopback_returns_the_whole_pool() {
    let service = lichen::disks::service(AuthService::new(), pool());
    let resp = service
        .list_disks(authed(ListDisksRequest { exclude_loopback: false }))
        .unwrap_or_else(|_| panic!("authenticated request"));
    let names: Vec<&str> = resp.disks.iter().map(|d| d.name.as_str()).collect();
    assert_eq!(names, vec!["sda", "loop0", "nvme0n1"]);
}

#[test]
fn list_disks_without_credentials_is_unauthenticated() {
    let service = lichen::disks::service(AuthService::new(), pool());
    let request = Request::from_transport(None, ListDisksRequest { exclude_loopback: true });
    match service.list_disks(request) {
        Err(Status::Unauthenticated(_)) => {}
        _ => panic!("no handler work without credentials"),
    }
}

#[test]
fn disks_keep_their_partitions_through_listing() {
    let mut d = disk("sda", DiskKind::Scsi);
    d.partitions.push(Partition {
        name: "esp".to_owned(),
        number: 1,
        start: 2048,
        end: 4096,
        size: 2048,
        node: "/dev/sda1".to_owned(),
        device: "/dev/sda".to_owned(),
        display_size: "1.00 MiB".to_owned(),
    });
    let service = lichen::disks::service(AuthService::new(), vec![d]);
    let resp = service
        .list_disks(authed(ListDisksRequest { exclude_loopback: true }))
        .unwrap_or_else(|_| panic!("authenticated request"));
    assert_eq!(resp.disks[0].partitions.len(), 1);
    assert_eq!(resp.disks[0].partitions[0].node, "/dev/sda1");
}

fn locale(name: &str, display: &str) -> Locale {
    Locale {
        name: name.to_owned(),
        display_name: display.to_owned(),
        language: None,
        territory: None,
        modifier: None,
        codeset: Some("UTF-8".to_owned()),
    }
}

#[test]
fn list_locales_returns_the_database_in_order() {
    let service = lichen::locales::service(
        AuthService::new(),
        vec![locale("en_US.UTF-8", "English (US)"), locale("de_DE.UTF-8", "German (Germany)")],
        vec!["en_US.UTF-8".to_owned(), "de_DE.UTF-8".to_owned()],
    );
    let resp = service.list_locales(authed(())).unwrap_or_else(|_| panic!("authenticated"));
    let names: Vec<&str> = resp.locales.iter().map(|l| l.name.as_str()).collect();
    assert_eq!(names, vec!["en_US.UTF-8", "de_DE.UTF-8"]);
}

#[test]
fn get_locale_finds_a_known_code() {
    let service = lichen::locales::service(
        AuthService::new(),
        vec![locale("en_US.UTF-8", "English (US)"), locale("de_DE.UTF-8", "German (Germany)")],
        Vec::new(),
    );
    let l = service
        .get_locale(authed(GetLocaleRequest { name: "de_DE.UTF-8".to_owned() }))
        .unwrap_or_else(|_| panic!("the code is known"));
    assert_eq!(l.display_name, "German (Germany)");
}

#[test]
fn get_locale_unknown_code_is_not_found_with_message() {
    let service = lichen::locales::service(AuthService::new(), Vec::new(), Vec::new());
    match service.get_locale(authed(GetLocaleRequest { name: "xx_XX".to_owned() })) {
        Err(Status::NotFound(m)) => assert_eq!(m, "Locale code xx_XX not found"),
        _ => panic!("an unknown code must be a typed not-found failure"),
    }
}

#[test]
fn default_locale_falls_back_without_language_setting() {
    assert_eq!(default_locale_code(Some("de_DE.UTF-8".to_owned())), "de_DE.UTF-8");
    assert_eq!(default_locale_code(None), "en_US.UTF-8");
}

#[test]
fn status_reports_uptime_from_the_start_reading() {
    let service = lichen::system::service(AuthService::new(), 100);
    let resp = service.status(authed(()), 163).unwrap_or_else(|_| panic!("authenticated"));
    assert_eq!(resp.uptime, 63);
}

#[test]
fn status_without_credentials_is_unauthenticated() {
    let service = lichen::system::service(AuthService::new(), 100);
    let request = Request::from_transport(None, ());
    assert!(matches!(service.status(request, 100), Err(Status::Unauthenticated(_))));
}

#[test]
fn shutdown_acknowledges_and_stops_the_serve_loop() {
    let mut service = lichen::system::service(AuthService::new(), 0);
    assert!(!service.shutdown_requested());

    let ack = service.shutdown(authed(())).unwrap_or_else(|_| panic!("authenticated"));
    assert!(ack.shutting_down);
    assert!(service.shutdown_requested());

    // The owner of the serve loop observes the notice and stops accepting.
    let mut serve = ServeLoop::new();
    assert!(serve.should_accept());
    serve.on_event(ServeEvent::ShutdownNotice);
    assert!(!serve.should_accept());
}

#[test]
fn serve_loop_stops_on_os_signals_too() {
    let mut serve = ServeLoop::default();
    serve.on_event(ServeEvent::TermSignal);
    assert!(!serve.should_accept());
    let mut serve2 = ServeLoop::new();
    serve2.on_event(ServeEvent::IntSignal);
    assert!(!serve2.should_accept());
}

#[test]
fn shutdown_without_credentials_changes_nothing() {
    let mut service = lichen::system::service(AuthService::new(), 0);
    let request = Request::from_transport(None, ());
    assert!(matches!(service.shutdown(request), Err(Status::Unauthenticated(_))));
    assert!(!service.shutdown_requested());
}

#[test]
fn get_os_info_passes_a_loaded_document_through() {
    let service = lichen::system::service(AuthService::new(), 0);
    let info = OsInfo {
        version: "1.0".to_owned(),
        name: "aerynos".to_owned(),
        display: "AerynOS".to_owned(),
        ansi_color: Some("1;36".to_owned()),
    };
    let out = service
        .get_os_info(authed(()), Ok(info))
        .unwrap_or_else(|_| panic!("load succeeded"));
    assert_eq!(out.display, "AerynOS");
}

#[test]
fn get_os_info_maps_load_failures_to_internal() {
    let service = lichen::system::service(AuthService::new(), 0);
    match service.get_os_info(authed(()), Err("missing document".to_owned())) {
        Err(Status::Internal(m)) => assert_eq!(m, "Failed to load OS info: missing document"),
        _ => panic!("a failed load must be an internal failure"),
    }
}

fn strategy(name: &str, summary: &str) -> StrategyDefinition {
    StrategyDefinition { name: name.to_owned(), summary: summary.to_owned(), inherits: Vec::new() }
}

#[test]
fn list_strategies_before_any_loaded_is_an_empty_list() {
    let service = lichen::provisioner::service(AuthService::new(), Vec::new());
    let resp = service.list_strategies(authed(())).unwrap_or_else(|_| panic!("authenticated"));
    assert!(resp.strategies.is_empty());
}

#[test]
fn list_strategies_maps_definitions_to_descriptors() {
    let mut inheriting = strategy("whole_disk_encrypted", "Encrypt the whole disk");
    inheriting.inherits.push("use_whole_disk".to_owned());
    let service = lichen::provisioner::service(
        AuthService::new(),
        vec![strategy("use_whole_disk", "Wipe and use the whole disk"), inheriting],
    );
    let resp = service.list_strategies(authed(())).unwrap_or_else(|_| panic!("authenticated"));
    assert_eq!(resp.strategies.len(), 2);
    assert_eq!(resp.strategies[0].id, "use_whole_disk");
    assert_eq!(resp.strategies[0].name, "use_whole_disk");
    assert_eq!(resp.strategies[0].description, "Wipe and use the whole disk");
    assert!(resp.strategies[0].inherits.is_empty());
    assert_eq!(resp.strategies[1].inherits, vec!["use_whole_disk"]);
}

#[test]
fn later_strategy_with_same_name_replaces_the_earlier() {
    let service = lichen::provisioner::service(
        AuthService::new(),
        vec![
            strategy("use_whole_disk", "first wording"),
            strategy("dual_boot", "Install beside an existing OS"),
            strategy("use_whole_disk", "second wording"),
        ],
    );
    let resp = service.list_strategies(authed(())).unwrap_or_else(|_| panic!("authenticated"));
    assert_eq!(resp.strategies.len(), 2);
    assert_eq!(resp.strategies[0].name, "use_whole_disk");
    assert_eq!(resp.strategies[0].description, "second wording");
    assert_eq!(resp.strategies[1].name, "dual_boot");
}

#[test]
fn try_strategy_acknowledges_authorized_requests() {
    let service = lichen::provisioner::service(AuthService::new(), Vec::new());
    let r = service.try_strategy(authed(TryStrategyRequest {
        strategy: "use_whole_disk".to_owned(),
        disks: vec!["/dev/sda".to_owned()],
    }));
    assert!(r.is_ok());
}

#[test]
fn try_strategy_without_credentials_is_unauthenticated() {
    let service = lichen::provisioner::service(AuthService::new(), Vec::new());
    let request = Request::from_transport(
        None,
        TryStrategyRequest { strategy: String::new(), disks: Vec::new() },
    );
    assert!(matches!(service.try_strategy(request), Err(Status::Unauthenticated(_))));
}

#[test]
fn get_locale_without_credentials_is_unauthenticated() {
    let service = lichen::locales::service(AuthService::new(), Vec::new(), Vec::new());
    let request = Request::from_transport(None, GetLocaleRequest { name: "en_US".to_owned() });
    assert!(matches!(service.get_locale(request), Err(Status::Unauthenticated(_))));
}

#[test]
fn list_locales_without_credentials_is_unauthenticated() {
    let service = lichen::locales::service(AuthService::new(), Vec::new(), Vec::new());
    let request = Request::from_transport(None, ());
    assert!(matches!(service.list_locales(request), Err(Status::Unauthenticated(_))));
}
