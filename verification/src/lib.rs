//! Reports whether a filesystem path is a git repository and, if so, whether
//! its working tree is clean or dirty, together with an abbreviated name of
//! the current branch.

pub mod branch;
pub mod repo;

mod gitcall;

pub use repo::GitRepo;
pub use repo::GitRepoStatus;
