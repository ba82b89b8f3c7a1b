//! Installation steps and the step registry.
//!
//! A step is one discrete, user-facing phase of the installation workflow
//! with its own display metadata. The set of step kinds is closed: resolving
//! a registered step produces a tagged variant, dispatched by matching, so
//! the frontend never needs a runtime downcast.
//!
//! The registry is an explicit value built once at process start from a
//! fixed list of step descriptors supplied by the composing application,
//! rather than a hidden process-wide table populated by load-order side
//! effects. Registering the same id twice is a configuration error and is
//! detected immediately.

use vstd::prelude::*;
use crate::disks::Disk;
use crate::icon::Icon;

verus! {

/// Display information for a step that can be shown in the installer UI.
/// The strings may be localized and are therefore unsuitable for comparison.
pub struct DisplayInfo {
    /// The title of the step shown to the user.
    pub title: String,
    /// A longer description explaining the purpose of this step.
    pub description: String,
    /// Optional icon to visually represent this step.
    pub icon: Option<Icon>,
}

/// The frontend behaviours a composed CLI step can select.
pub enum FrontendStep {
    /// Disk and partitioning choice.
    Storage,
    /// Locale selection.
    Locale,
    /// Final review of the installation.
    Summary,
}

/// A step composed from display metadata plus a frontend behaviour tag.
pub struct CliStep {
    /// Display information for this step.
    pub info: DisplayInfo,
    /// Which frontend behaviour runs this step.
    pub step: FrontendStep,
}

/// The disk selection step.
pub struct DiskStep {
    info: DisplayInfo,
}

/// The summary step.
pub struct SummaryStep {
    info: DisplayInfo,
}

/// A single step in the installation process: a closed set of known kinds.
pub enum Step {
    /// Disk selection.
    Disk(DiskStep),
    /// A composed CLI step.
    Cli(CliStep),
    /// Installation summary.
    Summary(SummaryStep),
}

impl DiskStep {
    /// Display information of this step, as a specification value.
    pub closed spec fn spec_info(&self) -> DisplayInfo {
        self.info
    }

    /// Creates the disk selection step with its fixed display metadata.
    pub fn new() -> (r: Self)
        ensures
            r.spec_info().title@ == "Disk selection"@,
            r.spec_info().description@ == "Select the disk to install AerynOS on"@,
            r.spec_info().icon is None,
    {
        Self {
            info: DisplayInfo {
                title: "Disk selection".to_owned(),
                description: "Select the disk to install AerynOS on".to_owned(),
                icon: None,
            },
        }
    }

    /// Returns the display information for this step.
    pub fn info(&self) -> (r: &DisplayInfo)
        ensures
            r == self.spec_info(),
    {
        &self.info
    }

    /// One line describing a disk for the selection prompt: its name, model
    /// (or "Unknown") and human-readable size.
    pub fn render_disk(disk: &Disk) -> (r: String)
        ensures
            r@ == disk.name@ + " - "@ + (match disk.model {
                Some(m) => m@,
                None => "Unknown"@,
            }) + " - "@ + disk.display_size@,
    {
        let mut out = disk.name.clone();
        out.append(" - ");
        match &disk.model {
            Some(m) => out.append(m.as_str()),
            None => out.append("Unknown"),
        }
        out.append(" - ");
        out.append(disk.display_size.as_str());
        out
    }
}

impl SummaryStep {
    /// Display information of this step, as a specification value.
    pub closed spec fn spec_info(&self) -> DisplayInfo {
        self.info
    }

    /// Creates the summary step with its fixed display metadata.
    pub fn new() -> (r: Self)
        ensures
            r.spec_info().title@ == "Summary"@,
            r.spec_info().description@ == "Review the installation summary"@,
            r.spec_info().icon is None,
    {
        Self {
            info: DisplayInfo {
                title: "Summary".to_owned(),
                description: "Review the installation summary".to_owned(),
                icon: None,
            },
        }
    }

    /// Returns the display information for this step.
    pub fn info(&self) -> (r: &DisplayInfo)
        ensures
            r == self.spec_info(),
    {
        &self.info
    }
}

impl Step {
    /// Display information of this step, as a specification value.
    pub open spec fn spec_info(&self) -> DisplayInfo {
        match self {
            Step::Disk(s) => s.spec_info(),
            Step::Cli(s) => s.info,
            Step::Summary(s) => s.spec_info(),
        }
    }

    /// Returns display information for rendering this step in the UI.
    pub fn info(&self) -> (r: &DisplayInfo)
        ensures
            r == self.spec_info(),
    {
        match self {
            Step::Disk(s) => s.info(),
            Step::Cli(s) => &s.info,
            Step::Summary(s) => s.info(),
        }
    }
}

/// One line describing a disk for the storage prompt: its device node,
/// model (or "Unknown") and human-readable size.
pub fn render_disk(disk: &Disk) -> (r: String)
    ensures
        r@ == disk.device@ + " - "@ + (match disk.model {
            Some(m) => m@,
            None => "Unknown"@,
        }) + " - "@ + disk.display_size@,
{
    let mut out = disk.device.clone();
    out.append(" - ");
    match &disk.model {
        Some(m) => out.append(m.as_str()),
        None => out.append("Unknown"),
    }
    out.append(" - ");
    out.append(disk.display_size.as_str());
    out
}

/// Which concrete step a registration resolves to.
#[derive(Clone, Copy, Debug, PartialEq, Eq, Structural)]
pub enum StepKind {
    /// The disk selection step.
    Disks,
    /// The storage configuration step.
    Storage,
    /// The locale selection step.
    Locale,
    /// The summary step.
    Summary,
}

/// Metadata for registering an installation step.
pub struct StepInfo {
    /// Unique identifier for the step.
    pub id: String,
    /// Author/maintainer of this step.
    pub author: String,
    /// Brief description of the step's purpose.
    pub description: String,
    /// Which step a lookup of this registration creates.
    pub kind: StepKind,
}

/// What `create_step` guarantees about the step built for each kind.
pub open spec fn created_step(kind: StepKind, s: Step) -> bool {
    match kind {
        StepKind::Disks => s matches Step::Disk(d) && d.spec_info().title@ == "Disk selection"@
            && d.spec_info().description@ == "Select the disk to install AerynOS on"@
            && d.spec_info().icon is None,
        StepKind::Storage => s matches Step::Cli(c) && c.step is Storage && c.info.title@
            == "Configure storage"@ && c.info.description@ == "Select the disk to install on"@
            && (c.info.icon matches Some(ic) && ic matches Icon::Emoji(e) && e@
            == "\u{1f4be}"@),
        StepKind::Locale => s matches Step::Cli(c) && c.step is Locale && c.info.title@
            == "Locale"@ && c.info.description@ == "Adjust the system locale"@
            && c.info.icon is None,
        StepKind::Summary => s matches Step::Summary(su) && su.spec_info().title@ == "Summary"@
            && su.spec_info().description@ == "Review the installation summary"@
            && su.spec_info().icon is None,
    }
}

/// Creates a fresh instance of the step a registration kind stands for.
pub fn create_step(kind: StepKind) -> (r: Step)
    ensures
        created_step(kind, r),
{
    match kind {
        StepKind::Disks => Step::Disk(DiskStep::new()),
        StepKind::Storage => Step::Cli(
            CliStep {
                info: DisplayInfo {
                    title: "Configure storage".to_owned(),
                    description: "Select the disk to install on".to_owned(),
                    icon: Some(Icon::Emoji("\u{1f4be}".to_owned())),
                },
                step: FrontendStep::Storage,
            },
        ),
        StepKind::Locale => Step::Cli(
            CliStep {
                info: DisplayInfo {
                    title: "Locale".to_owned(),
                    description: "Adjust the system locale".to_owned(),
                    icon: None,
                },
                step: FrontendStep::Locale,
            },
        ),
        StepKind::Summary => Step::Summary(SummaryStep::new()),
    }
}

/// Registering a step id that is already present is a configuration error.
#[derive(Debug)]
pub enum RegistryError {
    /// The id was registered before.
    DuplicateStep(String),
}

/// The step registry: a table of step registrations keyed by id, built once
/// during application startup and passed explicitly to whatever needs it.
pub struct StepRegistry {
    infos: Vec<StepInfo>,
}

impl StepRegistry {
    /// The registered ids, in registration order.
    pub closed spec fn spec_ids(&self) -> Seq<Seq<char>> {
        self.infos@.map_values(|si: StepInfo| si.id@)
    }

    /// The kind registered under `id` (its first registration).
    pub closed spec fn spec_kind_of(&self, id: Seq<char>) -> StepKind {
        self.infos@[self.spec_ids().index_of_first(id)->0].kind
    }

    /// No id is registered twice.
    pub closed spec fn wf(&self) -> bool {
        forall|i: int, j: int|
            0 <= i < j < self.spec_ids().len() ==> self.spec_ids()[i] != self.spec_ids()[j]
    }

    /// An empty registry.
    pub fn new() -> (r: Self)
        ensures
            r.spec_ids() =~= Seq::<Seq<char>>::empty(),
            r.wf(),
    {
        let r = Self { infos: Vec::new() };
        proof {
            assert(r.spec_ids() =~= Seq::<Seq<char>>::empty());
        }
        r
    }

    /// Whether a step is registered under `id`.
    pub fn contains(&self, id: &str) -> (r: bool)
        ensures
            r == self.spec_ids().contains(id@),
    {
        let key: String = id.to_owned();
        let mut i: usize = 0;
        while i < self.infos.len()
            invariant
                i <= self.infos.len(),
                key@ == id@,
                forall|k: int| 0 <= k < i ==> self.spec_ids()[k] != id@,
            decreases self.infos.len() - i,
        {
            if self.infos[i].id == key {
                assert(self.spec_ids()[i as int] == id@);
                return true;
            }
            i = i + 1;
        }
        false
    }

    /// Appends a registration, failing fast when the id is already taken:
    /// a duplicate id never silently overrides an earlier registration.
    pub fn register(&mut self, info: StepInfo) -> (r: Result<(), RegistryError>)
        ensures
            old(self).spec_ids().contains(info.id@) ==> (r matches Err(
                RegistryError::DuplicateStep(d),
            ) && d@ == info.id@ && *final(self) == *old(self)),
            !old(self).spec_ids().contains(info.id@) ==> (r is Ok && final(self).spec_ids()
                =~= old(self).spec_ids().push(info.id@) && final(self).spec_kind_of(info.id@)
                == info.kind && (forall|id: Seq<char>|
                old(self).spec_ids().contains(id) ==> final(self).spec_kind_of(id) == old(
                    self,
                ).spec_kind_of(id))),
            old(self).wf() ==> final(self).wf(),
    {
        if self.contains(info.id.as_str()) {
            return Err(RegistryError::DuplicateStep(info.id));
        }
        let ghost pre = self.infos@;
        let ghost key = info.id@;
        self.infos.push(info);
        proof {
            let pre_ids = pre.map_values(|si: StepInfo| si.id@);
            assert(self.spec_ids() =~= pre_ids.push(key));
            let post = self.spec_ids();
            assert(post[post.len() - 1] == key);
            assert(post.contains(key));
            post.index_of_first_ensures(key);
            let ki = post.index_of_first(key)->0;
            if ki < post.len() - 1 {
                assert(pre_ids[ki] == key);
                assert(pre_ids.contains(key));
            }
            assert(ki == post.len() - 1);
            assert(self.spec_kind_of(key) == self.infos@[post.len() - 1].kind);
            assert forall|id: Seq<char>| pre_ids.contains(id) implies self.spec_kind_of(id)
                == old(self).spec_kind_of(id) by {
                pre_ids.index_of_first_ensures(id);
                let pi = pre_ids.index_of_first(id)->0;
                assert(0 <= pi < pre_ids.len());
                assert(post[pi] == id);
                assert(post.contains(id));
                post.index_of_first_ensures(id);
                let qi = post.index_of_first(id)->0;
                if qi < pi {
                    assert(pre_ids[qi] == id);
                }
                if pi < qi {
                    assert(post[pi] == id);
                }
                assert(qi == pi);
                assert(self.infos@[pi] == pre[pi]);
            }
        }
        Ok(())
    }

    /// Retrieves a fresh instance of the step registered under `id`:
    /// `Some` exactly when such a registration exists, `None` otherwise.
    pub fn get_step(&self, id: &str) -> (r: Option<Step>)
        ensures
            r is Some <==> self.spec_ids().contains(id@),
            r matches Some(s) ==> created_step(self.spec_kind_of(id@), s),
    {
        let key: String = id.to_owned();
        let mut i: usize = 0;
        while i < self.infos.len()
            invariant
                i <= self.infos.len(),
                key@ == id@,
                forall|k: int| 0 <= k < i ==> self.spec_ids()[k] != id@,
            decreases self.infos.len() - i,
        {
            if self.infos[i].id == key {
                proof {
                    assert(self.spec_ids()[i as int] == id@);
                    self.spec_ids().index_of_first_ensures(id@);
                    assert(self.spec_ids().index_of_first(id@)->0 == i as int);
                }
                return Some(create_step(self.infos[i].kind));
            }
            i = i + 1;
        }
        None
    }
}

/// Retrieves a step implementation by its unique identifier: `Some` when a
/// step with the given id is registered, `None` when no registration
/// matches.
pub fn get_step(registry: &StepRegistry, id: &str) -> (r: Option<Step>)
    ensures
        r is Some <==> registry.spec_ids().contains(id@),
        r matches Some(s) ==> created_step(registry.spec_kind_of(id@), s),
{
    registry.get_step(id)
}

/// The registry of the steps this application composes: disks, storage,
/// locale and summary, in that order.
pub fn builtin_registry() -> (r: StepRegistry)
    ensures
        r.spec_ids() =~= seq!["disks"@, "storage"@, "locale"@, "summary"@],
        r.wf(),
        r.spec_kind_of("disks"@) == StepKind::Disks,
        r.spec_kind_of("storage"@) == StepKind::Storage,
        r.spec_kind_of("locale"@) == StepKind::Locale,
        r.spec_kind_of("summary"@) == StepKind::Summary,
{
    proof {
        reveal_strlit("disks");
        reveal_strlit("storage");
        reveal_strlit("locale");
        reveal_strlit("summary");
    }
    let mut r = StepRegistry::new();
    let _r1 = r.register(
        StepInfo {
            id: "disks".to_owned(),
            author: "AerynOS Developers".to_owned(),
            description: "Select the disk to install AerynOS on".to_owned(),
            kind: StepKind::Disks,
        },
    );
    proof {
        assert(r.spec_ids() =~= seq!["disks"@]);
        assert("disks"@ =~= seq!['d', 'i', 's', 'k', 's']);
        assert("storage"@ =~= seq!['s', 't', 'o', 'r', 'a', 'g', 'e']);
        assert("locale"@ =~= seq!['l', 'o', 'c', 'a', 'l', 'e']);
        assert("summary"@ =~= seq!['s', 'u', 'm', 'm', 'a', 'r', 'y']);
        assert(!r.spec_ids().contains("storage"@));
    }
    let _r2 = r.register(
        StepInfo {
            id: "storage".to_owned(),
            author: "AerynOS Developers".to_owned(),
            description: "Select the disk to install on".to_owned(),
            kind: StepKind::Storage,
        },
    );
    proof {
        assert(r.spec_ids() =~= seq!["disks"@, "storage"@]);
        assert(!r.spec_ids().contains("locale"@));
    }
    let _r3 = r.register(
        StepInfo {
            id: "locale".to_owned(),
            author: "AerynOS Developers".to_owned(),
            description: "Review the installation summary".to_owned(),
            kind: StepKind::Locale,
        },
    );
    proof {
        assert(r.spec_ids() =~= seq!["disks"@, "storage"@, "locale"@]);
        assert(!r.spec_ids().contains("summary"@));
    }
    let _r4 = r.register(
        StepInfo {
            id: "summary".to_owned(),
            author: "AerynOS Developers".to_owned(),
            description: "Review the installation summary".to_owned(),
            kind: StepKind::Summary,
        },
    );
    proof {
        assert(r.spec_ids() =~= seq!["disks"@, "storage"@, "locale"@, "summary"@]);
    }
    r
}

} // verus!
