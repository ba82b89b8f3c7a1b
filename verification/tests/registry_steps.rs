//! Step registry, step metadata, installation tasks and small value types.

use lichen::account::Account;
use lichen::disks::{Disk, DiskKind};
use lichen::icon::{u32_string, Icon};
use lichen::model::{Model, RegionModel};
use lichen::step::{
    builtin_registry, get_step, DiskStep, RegistryError, Step, StepInfo, StepKind, StepRegistry,
    SummaryStep,
};
use lichen::steps::{
    AddRepo, BindMount, Cleanup, CreateAccount, EmitFstab, FormatPartition, FstabEntry,
    InstallPackages, MountPartition, SetLocale, SetPassword, SetTimezone, SyncFS, Unmount,
};

#[test]
fn builtin_registry_resolves_all_four_steps() {
    let registry = builtin_registry();
    for id in ["disks", "storage", "locale", "summary"] {
        assert!(registry.contains(id), "step {id} must be registered");
        assert!(get_step(&registry, id).is_some());
    }
    assert!(!registry.contains("partitioning"));
    assert!(get_step(&registry, "partitioning").is_none());
}

#[test]
fn resolved_steps_carry_their_display_metadata() {
    let registry = builtin_registry();
    match get_step(&registry, "disks") {
        Some(Step::Disk(d)) => {
            assert_eq!(d.info().title, "Disk selection");
            assert_eq!(d.info().description, "Select the disk to install AerynOS on");
            assert!(d.info().icon.is_none());
        }
        _ => panic!("the disks id resolves to the disk selection step"),
    }
    match get_step(&registry, "summary") {
        Some(Step::Summary(s)) => {
            assert_eq!(s.info().title, "Summary");
            assert_eq!(s.info().description, "Review the installation summary");
        }
        _ => panic!("the summary id resolves to the summary step"),
    }
    match get_step(&registry, "storage") {
        Some(Step::Cli(c)) => {
            assert_eq!(c.info.title, "Configure storage");
            assert!(matches!(c.step, lichen::step::FrontendStep::Storage));
            assert!(c.info.icon.is_some());
        }
        _ => panic!("the storage id resolves to a composed CLI step"),
    }
    match get_step(&registry, "locale") {
        Some(Step::Cli(c)) => {
            assert_eq!(c.info.title, "Locale");
            assert!(matches!(c.step, lichen::step::FrontendStep::Locale));
        }
        _ => panic!("the locale id resolves to a composed CLI step"),
    }
}

#[test]
fn duplicate_registration_fails_fast() {
    let mut registry = StepRegistry::new();
    let info = |id: &str| StepInfo {
        id: id.to_owned(),
        author: "AerynOS Developers".to_owned(),
        description: "d".to_owned(),
        kind: StepKind::Summary,
    };
    registry.register(info("summary")).unwrap();
    match registry.register(info("summary")) {
        Err(RegistryError::DuplicateStep(id)) => assert_eq!(id, "summary"),
        _ => panic!("a second registration of the same id must fail fast"),
    }
    // The table is unchanged: the id still resolves, once.
    assert!(registry.contains("summary"));
}

#[test]
fn step_enum_info_dispatches_by_variant() {
    let disk = Step::Disk(DiskStep::new());
    assert_eq!(disk.info().title, "Disk selection");
    let summary = Step::Summary(SummaryStep::new());
    assert_eq!(summary.info().title, "Summary");
}

fn sda() -> Disk {
    Disk {
        name: "sda".to_owned(),
        sectors: 0,
        device: "/dev/sda".to_owned(),
        model: Some("EVO 970".to_owned()),
        vendor: None,
        partitions: Vec::new(),
        kind: DiskKind::Scsi,
        display_size: "500.00 GiB".to_owned(),
        image_path: None,
    }
}

#[test]
fn render_disk_formats_name_model_and_size() {
    let d = sda();
    assert_eq!(DiskStep::render_disk(&d), "sda - EVO 970 - 500.00 GiB");
    assert_eq!(lichen::step::render_disk(&d), "/dev/sda - EVO 970 - 500.00 GiB");
}

#[test]
fn render_disk_falls_back_for_unknown_model() {
    let mut d = sda();
    d.model = None;
    assert_eq!(DiskStep::render_disk(&d), "sda - Unknown - 500.00 GiB");
}

#[test]
fn icon_display_strings() {
    assert_eq!(Icon::Standard("drive-harddisk".to_owned()).display_string(), "drive-harddisk");
    assert_eq!(
        Icon::Symbolic { name: "drive-harddisk".to_owned(), fallback: "drive".to_owned() }
            .display_string(),
        "drive-harddisk (fallback: drive)"
    );
    assert_eq!(Icon::Emoji("disk".to_owned()).display_string(), "disk");
    assert_eq!(
        Icon::Custom("/usr/share/icons/os.png".to_owned(), 64, 48).display_string(),
        "/usr/share/icons/os.png (64x48)"
    );
}

#[test]
fn u32_string_renders_decimals() {
    assert_eq!(u32_string(0), "0");
    assert_eq!(u32_string(7), "7");
    assert_eq!(u32_string(10), "10");
    assert_eq!(u32_string(409), "409");
    assert_eq!(u32_string(u32::MAX), "4294967295");
}

#[test]
fn task_names_are_stable_ids() {
    let tasks = [
        (lichen::steps::Step::add_repo(AddRepo { name: "volatile".into(), uri: "https://example.org".into() }), "add-repo"),
        (lichen::steps::Step::bind_mount(BindMount { source: "/dev".into(), dest: "/mnt/dev".into() }), "bind-mount"),
        (lichen::steps::Step::create_user(CreateAccount { account: Account::default() }), "create-user"),
        (lichen::steps::Step::format(FormatPartition { partition: "/dev/sda1".into(), filesystem: "ext4".into() }), "format-partition"),
        (lichen::steps::Step::install_packages(InstallPackages { names: vec![] }), "install-packages"),
        (lichen::steps::Step::mount(MountPartition { partition: "/dev/sda2".into(), mountpoint: "/mnt".into() }), "mount-partition"),
        (lichen::steps::Step::set_password(SetPassword { account: Account::root(), password: "SECRET-REDACTED".into() }), "set-password"),
        (lichen::steps::Step::set_locale(SetLocale { locale: "en_US.UTF-8".into() }), "set-locale"),
        (lichen::steps::Step::set_timezone(SetTimezone { timezone: "Europe/London".into() }), "set-timezone"),
        (lichen::steps::Step::set_machine_id(), "set-machine-id"),
        (lichen::steps::Step::emit_fstab(EmitFstab { entries: vec![] }), "write-fstab"),
    ];
    for (task, name) in tasks {
        assert_eq!(task.name(), name);
    }
}

#[test]
fn task_titles_and_descriptions() {
    let format = lichen::steps::Step::format(FormatPartition {
        partition: "/dev/sda1".into(),
        filesystem: "xfs".into(),
    });
    assert_eq!(format.title(), "Format partition");
    assert_eq!(format.describe(), "/dev/sda1 as xfs");

    let mount = lichen::steps::Step::mount(MountPartition {
        partition: "/dev/sda2".into(),
        mountpoint: "/mnt".into(),
    });
    assert_eq!(mount.title(), "Mount partition");
    assert_eq!(mount.describe(), "/dev/sda2 on /mnt");

    let install = lichen::steps::Step::install_packages(InstallPackages {
        names: vec!["linux-kernel".into(), "mesa".into(), "bash".into()],
    });
    assert_eq!(install.describe(), "linux-kernel, mesa, bash");

    let one = lichen::steps::Step::install_packages(InstallPackages {
        names: vec!["bash".into()],
    });
    assert_eq!(one.describe(), "bash");

    let none = lichen::steps::Step::install_packages(InstallPackages { names: vec![] });
    assert_eq!(none.describe(), "");

    let fstab = lichen::steps::Step::emit_fstab(EmitFstab {
        entries: vec![FstabEntry {
            device: "/dev/sda2".into(),
            mountpoint: "/".into(),
            filesystem: "ext4".into(),
            options: "defaults".into(),
        }],
    });
    assert_eq!(fstab.describe(), "/etc/fstab");
}

#[test]
fn only_package_installation_reports_determinate_progress() {
    let install = lichen::steps::Step::install_packages(InstallPackages { names: vec![] });
    assert!(!install.is_indeterminate());
    let machine_id = lichen::steps::Step::set_machine_id();
    assert!(machine_id.is_indeterminate());
}

#[test]
fn cleanup_stages_mirror_their_tasks() {
    let unmount = Cleanup::unmount(Unmount { mountpoint: "/mnt".to_owned() });
    assert_eq!(unmount.title(), "Unmount filesystems");
    assert_eq!(unmount.describe(), "/mnt");
    let sync = Cleanup::sync_fs();
    assert_eq!(sync.title(), "Sync filesystems");
    assert_eq!(sync.describe(), "Flushing writes to disk");
    let _parts = (Unmount { mountpoint: "/mnt".to_owned() }.title(), SyncFS {}.describe());
}

#[test]
fn account_defaults_and_builders() {
    let stock = Account::default();
    assert_eq!(stock.uid, 1000);
    assert_eq!(stock.gid, 1000);
    assert_eq!(stock.username, "user");
    assert_eq!(stock.homedir, "/home/user");
    assert_eq!(stock.shell, "/bin/bash");
    assert!(stock.gecos.is_none());
    assert!(stock.password.is_none());
    assert!(!stock.builtin);

    let root = Account::root();
    assert_eq!(root.uid, 0);
    assert_eq!(root.username, "root");
    assert_eq!(root.homedir, "/root");
    assert!(root.builtin);

    let custom = Account::new("alex")
        .with_id(1001, 1001)
        .with_gecos("Alex Example")
        .with_shell("/bin/zsh")
        .with_password("SECRET-REDACTED");
    assert_eq!(custom.username, "alex");
    assert_eq!(custom.uid, 1001);
    assert_eq!(custom.gecos.as_deref(), Some("Alex Example"));
    assert_eq!(custom.shell, "/bin/zsh");
    assert!(custom.password.is_some());
}

#[test]
fn model_defaults_pick_utf8_english_and_utc() {
    let region = RegionModel::default();
    assert_eq!(region.language, "en_US.UTF-8");
    assert_eq!(region.timezone, "UTC");
    let model = Model::default();
    assert_eq!(model.region.language, "en_US.UTF-8");
    assert_eq!(model.region.timezone, "UTC");
}

#[test]
fn storage_step_icon_is_the_disk_emoji() {
    let registry = builtin_registry();
    match get_step(&registry, "storage") {
        Some(Step::Cli(c)) => match c.info.icon {
            Some(Icon::Emoji(e)) => assert_eq!(e, "\u{1f4be}"),
            _ => panic!("the storage step carries an emoji icon"),
        },
        _ => panic!("the storage id resolves to a composed CLI step"),
    }
}
