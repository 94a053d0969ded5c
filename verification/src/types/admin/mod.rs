//! The types of the administrative resources.

pub mod invites;
pub mod users;
pub mod workspace_members;
pub mod workspaces;
