//! Navigation state machine behaviour: building a run, moving between
//! steps, and the availability rules.

use lichen::installer::{Installer, InstallerBuilder, NavigationError, Error};
use lichen::step::builtin_registry;

fn three_step_installer() -> Installer {
    // "disks", "storage", "locale" play the roles of a three-step run.
    let registry = builtin_registry();
    Installer::builder()
        .backend_path("/usr/libexec/lichen_backend")
        .add_step("disks")
        .add_step("storage")
        .add_step("locale")
        .active_step("disks")
        .build(&registry)
        .unwrap_or_else(|_| panic!("three-step run must build"))
}

#[test]
fn build_makes_first_step_available() {
    let inst = three_step_installer();
    assert!(inst.is_step_available("disks"));
    assert!(!inst.is_step_available("storage"));
    assert!(!inst.is_step_available("locale"));
    assert_eq!(inst.active_step_id(), Some("disks"));
    assert_eq!(inst.step_ids(), vec!["disks", "storage", "locale"]);
}

#[test]
fn build_without_backend_path_fails() {
    let registry = builtin_registry();
    let r = Installer::builder().add_step("disks").build(&registry);
    assert!(matches!(r, Err(Error::MissingBackendPath)));
}

#[test]
fn build_with_unknown_step_fails_naming_it() {
    let registry = builtin_registry();
    let r = Installer::builder()
        .backend_path("/usr/libexec/lichen_backend")
        .add_step("disks")
        .add_step("partitioning")
        .build(&registry);
    match r {
        Err(Error::StepLoadError(id)) => assert_eq!(id, "partitioning"),
        _ => panic!("expected a step load failure"),
    }
}

#[test]
fn build_keeps_first_occurrence_of_duplicate_ids() {
    let registry = builtin_registry();
    let inst = Installer::builder()
        .backend_path("/usr/libexec/lichen_backend")
        .add_step("disks")
        .add_step("storage")
        .add_step("disks")
        .build(&registry)
        .unwrap_or_else(|_| panic!("run must build"));
    assert_eq!(inst.step_ids(), vec!["disks", "storage"]);
}

#[test]
fn goto_unknown_step_fails_and_keeps_active() {
    let mut inst = three_step_installer();
    let r = inst.goto_step("partitioning");
    match r {
        Err(NavigationError::StepNotFound(id)) => assert_eq!(id, "partitioning"),
        _ => panic!("expected StepNotFound"),
    }
    assert_eq!(inst.active_step_id(), Some("disks"));
}

#[test]
fn goto_unavailable_step_fails_and_keeps_active() {
    let mut inst = three_step_installer();
    let r = inst.goto_step("locale");
    match r {
        Err(NavigationError::StepUnavailable(id)) => assert_eq!(id, "locale"),
        _ => panic!("expected StepUnavailable"),
    }
    assert_eq!(inst.active_step_id(), Some("disks"));
}

#[test]
fn goto_available_step_moves() {
    let mut inst = three_step_installer();
    inst.make_step_available("locale").unwrap();
    inst.goto_step("locale").unwrap();
    assert_eq!(inst.active_step_id(), Some("locale"));
}

#[test]
fn next_step_walks_all_available_steps() {
    let mut inst = three_step_installer();
    inst.make_step_available("storage").unwrap();
    inst.make_step_available("locale").unwrap();

    assert!(inst.has_next());
    inst.next_step().unwrap();
    assert_eq!(inst.active_step_id(), Some("storage"));
    inst.next_step().unwrap();
    assert_eq!(inst.active_step_id(), Some("locale"));
    assert!(!inst.has_next());
    assert!(matches!(inst.next_step(), Err(NavigationError::NoNextStep)));
    assert_eq!(inst.active_step_id(), Some("locale"));
}

#[test]
fn next_step_skips_unavailable_steps() {
    let mut inst = three_step_installer();
    inst.make_step_available("locale").unwrap();
    // "storage" stays unavailable: next lands on "locale" directly.
    inst.next_step().unwrap();
    assert_eq!(inst.active_step_id(), Some("locale"));
}

#[test]
fn previous_step_mirrors_next() {
    let mut inst = three_step_installer();
    inst.make_step_available("locale").unwrap();
    inst.goto_step("locale").unwrap();
    assert!(inst.has_previous());
    inst.previous_step().unwrap();
    assert_eq!(inst.active_step_id(), Some("disks"));
    assert!(!inst.has_previous());
    assert!(matches!(inst.previous_step(), Err(NavigationError::NoPreviousStep)));
}

#[test]
fn make_step_available_unknown_fails() {
    let mut inst = three_step_installer();
    match inst.make_step_available("partitioning") {
        Err(NavigationError::StepNotFound(id)) => assert_eq!(id, "partitioning"),
        _ => panic!("expected StepNotFound"),
    }
}

#[test]
fn make_step_unavailable_keeps_active_step() {
    let mut inst = three_step_installer();
    inst.make_step_unavailable("disks");
    assert!(!inst.is_step_available("disks"));
    // The active step is not forcibly deactivated.
    assert_eq!(inst.active_step_id(), Some("disks"));
}

#[test]
fn available_steps_lists_in_configuration_order() {
    let mut inst = three_step_installer();
    inst.make_step_available("locale").unwrap();
    assert_eq!(inst.available_steps(), vec!["disks", "locale"]);
    inst.make_step_available("storage").unwrap();
    assert_eq!(inst.available_steps(), vec!["disks", "storage", "locale"]);
}

#[test]
fn summary_unlocked_and_reached_at_end_of_run() {
    // The run loop pattern: walk the main sequence, then explicitly unlock
    // and go to the summary step.
    let registry = builtin_registry();
    let mut inst = Installer::builder()
        .backend_path("/usr/libexec/lichen_backend")
        .add_step("disks")
        .add_step("summary")
        .active_step("disks")
        .build(&registry)
        .unwrap_or_else(|_| panic!("run must build"));
    assert!(!inst.has_next());
    inst.make_step_available("summary").unwrap();
    inst.goto_step("summary").unwrap();
    assert_eq!(inst.active_step_id(), Some("summary"));
    assert!(inst.active_step().is_some());
}

#[test]
fn active_step_resolves_against_configured_steps() {
    let mut inst = three_step_installer();
    assert!(inst.active_step().is_some());
    inst.set_active_step("not-configured");
    assert!(inst.active_step().is_none());
    assert!(inst.step("storage").is_some());
    assert!(inst.step("partitioning").is_none());
}

/// The state-machine invariant, checked after every operation of a mixed
/// pseudo-random sequence: the active step is unset or available, and every
/// available step is configured.
#[test]
fn invariant_holds_across_random_operation_sequences() {
    let ids = ["disks", "storage", "locale", "summary", "missing"];
    let mut inst = {
        let registry = builtin_registry();
        Installer::builder()
            .backend_path("/usr/libexec/lichen_backend")
            .add_step("disks")
            .add_step("storage")
            .add_step("locale")
            .add_step("summary")
            .active_step("disks")
            .build(&registry)
            .unwrap_or_else(|_| panic!("run must build"))
    };
    let mut seed: u64 = 0x2545F4914F6CDD1D;
    for _ in 0..500 {
        seed = seed.wrapping_mul(6364136223846793005).wrapping_add(1442695040888963407);
        let op = (seed >> 33) % 3;
        let id = ids[((seed >> 16) % ids.len() as u64) as usize];
        match op {
            0 => {
                let _ = inst.make_step_available(id);
            }
            1 => {
                let _ = inst.goto_step(id);
            }
            _ => {
                let _ = inst.next_step();
            }
        }
        // Invariant: active step, when set, is available.
        if let Some(active) = inst.active_step_id() {
            let active = active.to_owned();
            assert!(inst.is_step_available(&active));
        }
        // Invariant: available steps are a subset of the configured order.
        let known = inst.step_ids();
        for avail in inst.available_steps() {
            assert!(known.contains(&avail));
        }
    }
}

#[test]
fn builder_is_reexported_consistently() {
    let b: InstallerBuilder = Installer::builder();
    let registry = builtin_registry();
    let inst = b
        .backend_path("/run/backend")
        .add_step("summary")
        .build(&registry)
        .unwrap_or_else(|_| panic!("run must build"));
    assert_eq!(inst.backend_path(), "/run/backend");
    assert_eq!(inst.active_step_id(), None);
    assert!(inst.active_step().is_none());
}
