//! The decisions behind preparing a release of the packages of a cargo
//! workspace: which packages can be published, which git tag marks the last
//! release of each, what has to be checked out, packaged and hashed in which
//! order, and how a failure of each step is reported.
//!
//! Nothing here touches a disk, a repository or a process. Work of that kind
//! is described by an action value; the caller performs it and hands the
//! outcome back as an event.

pub mod collection;
pub mod commit;
pub mod config;
pub mod context;
pub mod hash;
pub mod lookup;
pub mod next_ver;
pub mod package;
pub mod paths;
pub mod release_tag;
pub mod request;
pub mod tags;
pub mod text;
pub mod update;
pub mod version;
pub mod visit;
pub mod worktree;
