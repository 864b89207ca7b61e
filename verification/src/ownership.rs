//! File ownership to apply to transferred files.
//!
//! The daemon runs as root; backed-up files should usually belong to the user
//! who launched it (or to the owner of the backup root).  Resolving that user
//! reads the environment and the account database, which happens outside this
//! library; the library carries the resolved pair.

use vstd::prelude::*;

verus! {

/// A file owner as a `user:group` pair of account names.
#[derive(Debug, Clone)]
pub struct FileOwner {
    pub user: String,
    pub group: String,
}

impl FileOwner {
    /// The `user:group` form that `chown`-style options take.
    pub fn as_chown_arg(&self) -> (r: String)
        ensures
            r@ == self.user@ + ":"@ + self.group@,
    {
        let mut s = self.user.clone();
        s.append(":");
        s.append(self.group.as_str());
        s
    }
}

/// The first owner that resolved: the invoking user if known, else the owner
/// of the backup root, else none (files stay owned by the process user).
pub fn choose_backup_owner(
    sudo_owner: Option<FileOwner>,
    path_owner: Option<FileOwner>,
) -> (r: Option<FileOwner>)
    ensures
        sudo_owner is Some ==> r == sudo_owner,
        sudo_owner is None ==> r == path_owner,
{
    match sudo_owner {
        Some(o) => Some(o),
        None => path_owner,
    }
}

} // verus!
