//! Keeps a client's tabs and a directory tree of tab folders in step: the
//! workspace registry, the per-client session that decides what to send, write
//! and watch, and the tab rules shared by both directions.

pub mod diff;
pub mod laws;
pub mod model;
pub mod session;
pub mod store;
pub mod tabs;

pub use model::{ApiWorkspace, FromBrowserMessage, Tab, ToBrowserMessage, Workspace, WorkspaceAction};
pub use session::{Session, SessionEffect};
pub use store::WorkspaceStore;
