//! Installation tasks: the discrete operations applied to the target
//! system once the workflow has gathered its inputs.
//!
//! Executing a task runs external commands through a caller-supplied
//! context and is the composing application's part; what is verified here
//! is each task's identity and presentation: its stable short name, its
//! display title, and its description.

use vstd::prelude::*;
use crate::account::Account;

verus! {

/// A failure while executing an installation task.
pub enum Error {
    /// An I/O failure, described in words.
    IO(String),
    /// The requested filesystem is not recognised.
    UnknownFilesystem,
    /// A mount was requested without a mountpoint.
    NoMountpoint,
    /// An external command exited unsuccessfully.
    CommandFailed {
        /// The program that ran.
        program: String,
        /// Its exit code.
        status: i32,
    },
}

/// Adds a package repository to the target.
pub struct AddRepo {
    /// Repository name.
    pub name: String,
    /// Repository URI.
    pub uri: String,
}

/// Bind-mounts a path from the host into the target.
pub struct BindMount {
    /// Source path.
    pub source: String,
    /// Destination path.
    pub dest: String,
}

/// Creates a user account on the target.
pub struct CreateAccount {
    /// The account to create.
    pub account: Account,
}

/// Formats a partition with a filesystem.
pub struct FormatPartition {
    /// Device path of the partition.
    pub partition: String,
    /// Filesystem to create.
    pub filesystem: String,
}

/// Installs packages into the target.
pub struct InstallPackages {
    /// Names of the packages to install.
    pub names: Vec<String>,
}

/// Mounts a partition inside the target tree.
pub struct MountPartition {
    /// Device path of the partition.
    pub partition: String,
    /// Where to mount it.
    pub mountpoint: String,
}

/// Sets an account password on the target.
pub struct SetPassword {
    /// The account whose password is set.
    pub account: Account,
    /// The new password.
    pub password: String,
}

/// Sets the system locale on the target.
pub struct SetLocale {
    /// The locale code to set.
    pub locale: String,
}

/// Constructs a dbus/systemd machine id on the target.
pub struct SetMachineID {}

/// Sets the system timezone on the target.
pub struct SetTimezone {
    /// The timezone to set.
    pub timezone: String,
}

/// One line of the target's filesystem table.
pub struct FstabEntry {
    /// Device or source.
    pub device: String,
    /// Mountpoint.
    pub mountpoint: String,
    /// Filesystem kind.
    pub filesystem: String,
    /// Mount options.
    pub options: String,
}

/// Writes the filesystem table of the target.
pub struct EmitFstab {
    /// The entries to write, in order.
    pub entries: Vec<FstabEntry>,
}

/// Unmounts a mountpoint.
pub struct Unmount {
    /// The mountpoint to unmount.
    pub mountpoint: String,
}

/// Flushes filesystem buffers before unmounting.
pub struct SyncFS {}

/// The names of `s`, joined with ", ".
pub open spec fn joined_names(s: Seq<Seq<char>>) -> Seq<char>
    decreases s.len(),
{
    if s.len() == 0 {
        Seq::empty()
    } else if s.len() == 1 {
        s[0]
    } else {
        joined_names(s.drop_last()) + ", "@ + s.last()
    }
}

/// Joins strings with ", " between them.
fn join_comma(items: &Vec<String>) -> (r: String)
    ensures
        r@ == joined_names(crate::installer::string_views(items@)),
{
    let ghost views = crate::installer::string_views(items@);
    let mut out = String::new();
    let mut i: usize = 0;
    while i < items.len()
        invariant
            i <= items.len(),
            views == crate::installer::string_views(items@),
            out@ == joined_names(views.subrange(0, i as int)),
        decreases items.len() - i,
    {
        proof {
            assert(views.subrange(0, i + 1 as int).drop_last() =~= views.subrange(0, i as int));
            assert(views.subrange(0, i + 1 as int).last() == views[i as int]);
        }
        if i > 0 {
            out.append(", ");
        }
        out.append(items[i].as_str());
        proof {
            if i == 0 {
                assert(Seq::<char>::empty() + views[0] =~= views[0]);
                assert(views.subrange(0, 1) =~= seq![views[0]]);
            }
            assert(out@ =~= joined_names(views.subrange(0, i + 1 as int)));
        }
        i = i + 1;
    }
    proof {
        assert(views.subrange(0, views.len() as int) =~= views);
    }
    out
}

/// One installation task, with the inputs it needs.
pub enum Step {
    /// Add a package repository.
    AddRepo(AddRepo),
    /// Bind-mount a path.
    Bind(BindMount),
    /// Create a user account.
    CreateUser(CreateAccount),
    /// Format a partition.
    Format(FormatPartition),
    /// Install packages.
    Install(InstallPackages),
    /// Mount a partition.
    Mount(MountPartition),
    /// Set an account password.
    SetPassword(SetPassword),
    /// Set the system locale.
    SetLocale(SetLocale),
    /// Construct the machine id.
    SetMachineID(SetMachineID),
    /// Set the system timezone.
    SetTimezone(SetTimezone),
    /// Write the filesystem table.
    WriteFstab(EmitFstab),
}

impl Step {
    /// Creates a new repo step.
    pub fn add_repo(r: AddRepo) -> (s: Self)
        ensures
            s == Step::AddRepo(r),
    {
        Self::AddRepo(r)
    }

    /// Creates a new account-creation step.
    pub fn create_user(u: CreateAccount) -> (s: Self)
        ensures
            s == Step::CreateUser(u),
    {
        Self::CreateUser(u)
    }

    /// Creates a new package-installation step.
    pub fn install_packages(p: InstallPackages) -> (s: Self)
        ensures
            s == Step::Install(p),
    {
        Self::Install(p)
    }

    /// Creates a new partition-format step.
    pub fn format(f: FormatPartition) -> (s: Self)
        ensures
            s == Step::Format(f),
    {
        Self::Format(f)
    }

    /// Creates a new partition-mount step.
    pub fn mount(m: MountPartition) -> (s: Self)
        ensures
            s == Step::Mount(m),
    {
        Self::Mount(m)
    }

    /// Creates a new bind-mount step.
    pub fn bind_mount(b: BindMount) -> (s: Self)
        ensures
            s == Step::Bind(b),
    {
        Self::Bind(b)
    }

    /// Creates a new locale step.
    pub fn set_locale(l: SetLocale) -> (s: Self)
        ensures
            s == Step::SetLocale(l),
    {
        Self::SetLocale(l)
    }

    /// Creates a new timezone step.
    pub fn set_timezone(t: SetTimezone) -> (s: Self)
        ensures
            s == Step::SetTimezone(t),
    {
        Self::SetTimezone(t)
    }

    /// Creates a new password step.
    pub fn set_password(a: SetPassword) -> (s: Self)
        ensures
            s == Step::SetPassword(a),
    {
        Self::SetPassword(a)
    }

    /// Creates a new machine-id step.
    pub fn set_machine_id() -> (s: Self)
        ensures
            s == Step::SetMachineID(SetMachineID {  }),
    {
        Self::SetMachineID(SetMachineID {  })
    }

    /// Creates a new filesystem-table step.
    pub fn emit_fstab(f: EmitFstab) -> (s: Self)
        ensures
            s == Step::WriteFstab(f),
    {
        Self::WriteFstab(f)
    }

    /// A unique short ID name for the step.
    pub fn name(&self) -> (r: &'static str)
        ensures
            self is AddRepo ==> r@ == "add-repo"@,
            self is Bind ==> r@ == "bind-mount"@,
            self is CreateUser ==> r@ == "create-user"@,
            self is Format ==> r@ == "format-partition"@,
            self is Install ==> r@ == "install-packages"@,
            self is Mount ==> r@ == "mount-partition"@,
            self is SetPassword ==> r@ == "set-password"@,
            self is SetLocale ==> r@ == "set-locale"@,
            self is SetTimezone ==> r@ == "set-timezone"@,
            self is SetMachineID ==> r@ == "set-machine-id"@,
            self is WriteFstab ==> r@ == "write-fstab"@,
    {
        match self {
            Step::AddRepo(_) => "add-repo",
            Step::Bind(_) => "bind-mount",
            Step::CreateUser(_) => "create-user",
            Step::Format(_) => "format-partition",
            Step::Install(_) => "install-packages",
            Step::Mount(_) => "mount-partition",
            Step::SetPassword(_) => "set-password",
            Step::SetLocale(_) => "set-locale",
            Step::SetTimezone(_) => "set-timezone",
            Step::SetMachineID(_) => "set-machine-id",
            Step::WriteFstab(_) => "write-fstab",
        }
    }

    /// The display title for the step.
    pub fn title(&self) -> (r: String)
        ensures
            self is AddRepo ==> r@ == "Add repository"@,
            self is Bind ==> r@ == "Bind mount"@,
            self is CreateUser ==> r@ == "Create user"@,
            self is Format ==> r@ == "Format partition"@,
            self is Install ==> r@ == "Install packages"@,
            self is Mount ==> r@ == "Mount partition"@,
            self is SetPassword ==> r@ == "Set password"@,
            self is SetLocale ==> r@ == "Set locale"@,
            self is SetTimezone ==> r@ == "Set timezone"@,
            self is SetMachineID ==> r@ == "Create machine id"@,
            self is WriteFstab ==> r@ == "Write filesystem table"@,
    {
        match self {
            Step::AddRepo(_) => "Add repository".to_owned(),
            Step::Bind(_) => "Bind mount".to_owned(),
            Step::CreateUser(_) => "Create user".to_owned(),
            Step::Format(_) => "Format partition".to_owned(),
            Step::Install(_) => "Install packages".to_owned(),
            Step::Mount(_) => "Mount partition".to_owned(),
            Step::SetPassword(_) => "Set password".to_owned(),
            Step::SetLocale(_) => "Set locale".to_owned(),
            Step::SetTimezone(_) => "Set timezone".to_owned(),
            Step::SetMachineID(_) => "Create machine id".to_owned(),
            Step::WriteFstab(_) => "Write filesystem table".to_owned(),
        }
    }

    /// The action/context description for the step, naming its inputs.
    pub fn describe(&self) -> (r: String)
        ensures
            self matches Step::AddRepo(s) ==> r@ == s.name@ + " from "@ + s.uri@,
            self matches Step::Bind(s) ==> r@ == s.source@ + " on "@ + s.dest@,
            self matches Step::CreateUser(s) ==> r@ == s.account.username@,
            self matches Step::Format(s) ==> r@ == s.partition@ + " as "@ + s.filesystem@,
            self matches Step::Install(s) ==> r@ == joined_names(
                crate::installer::string_views(s.names@),
            ),
            self matches Step::Mount(s) ==> r@ == s.partition@ + " on "@ + s.mountpoint@,
            self matches Step::SetPassword(s) ==> r@ == s.account.username@,
            self matches Step::SetLocale(s) ==> r@ == s.locale@,
            self matches Step::SetTimezone(s) ==> r@ == s.timezone@,
            self is SetMachineID ==> r@ == "/etc/machine-id"@,
            self matches Step::WriteFstab(s) ==> r@ == "/etc/fstab"@,
    {
        match self {
            Step::AddRepo(s) => {
                let mut out = s.name.clone();
                out.append(" from ");
                out.append(s.uri.as_str());
                out
            }
            Step::Bind(s) => {
                let mut out = s.source.clone();
                out.append(" on ");
                out.append(s.dest.as_str());
                out
            }
            Step::CreateUser(s) => s.account.username.clone(),
            Step::Format(s) => {
                let mut out = s.partition.clone();
                out.append(" as ");
                out.append(s.filesystem.as_str());
                out
            }
            Step::Install(s) => join_comma(&s.names),
            Step::Mount(s) => {
                let mut out = s.partition.clone();
                out.append(" on ");
                out.append(s.mountpoint.as_str());
                out
            }
            Step::SetPassword(s) => s.account.username.clone(),
            Step::SetLocale(s) => s.locale.clone(),
            Step::SetTimezone(s) => s.timezone.clone(),
            Step::SetMachineID(_) => "/etc/machine-id".to_owned(),
            Step::WriteFstab(_) => "/etc/fstab".to_owned(),
        }
    }

    /// Whether an indeterminate progress spinner is needed: every task but
    /// package installation (whose runner reports its own progress).
    pub fn is_indeterminate(&self) -> (r: bool)
        ensures
            r == !(self is Install),
    {
        match self {
            Step::Install(_) => false,
            _ => true,
        }
    }
}

impl Unmount {
    /// The display title of this cleanup stage.
    pub fn title(&self) -> (r: String)
        ensures
            r@ == "Unmount filesystems"@,
    {
        "Unmount filesystems".to_owned()
    }

    /// Describes the mountpoint being unmounted.
    pub fn describe(&self) -> (r: String)
        ensures
            r@ == self.mountpoint@,
    {
        self.mountpoint.clone()
    }
}

impl SyncFS {
    /// The display title of this cleanup stage.
    pub fn title(&self) -> (r: String)
        ensures
            r@ == "Sync filesystems"@,
    {
        "Sync filesystems".to_owned()
    }

    /// Describes the flush of filesystem buffers.
    pub fn describe(&self) -> (r: String)
        ensures
            r@ == "Flushing writes to disk"@,
    {
        "Flushing writes to disk".to_owned()
    }
}

/// One cleanup stage, run after the installation tasks. A mirror of
/// [`Step`] so that the user still sees active feedback for whatever stage
/// is running, rather than hiding the work in a drop.
pub enum Cleanup {
    /// Unmount a mountpoint.
    Unmount(Unmount),
    /// Sync filesystems pre unmount.
    Sync(SyncFS),
}

impl Cleanup {
    /// Creates a new unmount cleanup stage.
    pub fn unmount(unmount: Unmount) -> (r: Self)
        ensures
            r == Cleanup::Unmount(unmount),
    {
        Self::Unmount(unmount)
    }

    /// Creates a new sync helper.
    pub fn sync_fs() -> (r: Self)
        ensures
            r == Cleanup::Sync(SyncFS {  }),
    {
        Self::Sync(SyncFS {  })
    }

    /// The cleanup step title.
    pub fn title(&self) -> (r: String)
        ensures
            self is Unmount ==> r@ == "Unmount filesystems"@,
            self is Sync ==> r@ == "Sync filesystems"@,
    {
        match self {
            Self::Unmount(s) => s.title(),
            Self::Sync(s) => s.title(),
        }
    }

    /// Fully describes the cleanup step.
    pub fn describe(&self) -> (r: String)
        ensures
            self matches Cleanup::Unmount(s) ==> r@ == s.mountpoint@,
            self is Sync ==> r@ == "Flushing writes to disk"@,
    {
        match self {
            Self::Unmount(s) => s.describe(),
            Self::Sync(s) => s.describe(),
        }
    }
}

} // verus!
