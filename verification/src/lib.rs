//! dirtidy - a directory organization and cleanup library.
//!
//! The library decides how files in a directory are grouped into category
//! subdirectories, records every move in an operation log that can be
//! persisted, and decides how a recorded organization is reversed.  All of
//! the decision logic is verified; the surrounding binary performs the
//! filesystem actions the library asks for and reports their outcomes
//! back.

pub mod config;
pub mod engine;
pub mod file_category;
pub mod file_organizer;
pub mod history;
pub mod strpath;
pub mod undo;

pub use config::CompiledFilters;
pub use config::ConfigError;
pub use config::FilterConfig;
pub use engine::FileInfo;
pub use engine::OrganizeCommand;
pub use file_category::Category;
pub use file_category::FileMapper;
pub use file_organizer::FileOrganizer;
pub use file_organizer::Operation;
pub use file_organizer::OperationLog;
pub use file_organizer::OrganizeError;
pub use undo::UndoManager;
pub use undo::UndoReport;
