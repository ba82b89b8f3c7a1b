//! User accounts created during installation.

use vstd::prelude::*;

verus! {

/// Identifies an account to create on the installed system.
#[derive(Debug, Clone, PartialEq, Eq)]
pub struct Account {
    /// User ID.
    pub uid: u32,
    /// Group ID.
    pub gid: u32,
    /// Account name.
    pub username: String,
    /// Human username string.
    pub gecos: Option<String>,
    /// Home directory.
    pub homedir: String,
    /// Which shell to use.
    pub shell: String,
    /// New password.
    pub password: Option<String>,
    /// Builtin user? (root)
    pub builtin: bool,
}

impl Default for Account {
    /// The stock unprivileged account: uid and gid 1000, named "user", with
    /// a matching home directory, a bash shell, no gecos and no password.
    fn default() -> (r: Self)
        ensures
            r.uid == 1000,
            r.gid == 1000,
            r.username@ == "user"@,
            r.gecos is None,
            r.homedir@ == "/home/user"@,
            r.shell@ == "/bin/bash"@,
            r.password is None,
            !r.builtin,
    {
        Self {
            uid: 1000,
            gid: 1000,
            username: "user".to_owned(),
            gecos: None,
            homedir: "/home/user".to_owned(),
            shell: "/bin/bash".to_owned(),
            password: None,
            builtin: false,
        }
    }
}

impl Account {
    /// The account definition for the root account.
    pub fn root() -> (r: Self)
        ensures
            r.uid == 0,
            r.gid == 0,
            r.username@ == "root"@,
            r.gecos is None,
            r.homedir@ == "/root"@,
            r.shell@ == "/bin/bash"@,
            r.password is None,
            r.builtin,
    {
        Self {
            uid: 0,
            gid: 0,
            username: "root".to_owned(),
            homedir: "/root".to_owned(),
            builtin: true,
            ..Default::default()
        }
    }

    /// A new account with the given username and stock settings otherwise.
    pub fn new(username: &str) -> (r: Self)
        ensures
            r.username@ == username@,
            r.uid == 1000,
            r.gid == 1000,
            r.gecos is None,
            r.homedir@ == "/home/user"@,
            r.shell@ == "/bin/bash"@,
            r.password is None,
            !r.builtin,
    {
        Self { username: username.to_owned(), ..Default::default() }
    }

    /// The account with its IDs updated.
    pub fn with_id(self, uid: u32, gid: u32) -> (r: Self)
        ensures
            r == (Account { uid, gid, ..self }),
    {
        Self { uid, gid, ..self }
    }

    /// The account with its gecos updated.
    pub fn with_gecos(self, gecos: &str) -> (r: Self)
        ensures
            r.gecos matches Some(g) && g@ == gecos@,
            r == (Account { gecos: r.gecos, ..self }),
    {
        Self { gecos: Some(gecos.to_owned()), ..self }
    }

    /// The account with its shell updated.
    pub fn with_shell(self, shell: &str) -> (r: Self)
        ensures
            r.shell@ == shell@,
            r == (Account { shell: r.shell, ..self }),
    {
        Self { shell: shell.to_owned(), ..self }
    }

    /// The account with its password updated.
    pub fn with_password(self, p: &str) -> (r: Self)
        ensures
            r.password matches Some(w) && w@ == p@,
            r == (Account { password: r.password, ..self }),
    {
        Self { password: Some(p.to_owned()), ..self }
    }
}

} // verus!
