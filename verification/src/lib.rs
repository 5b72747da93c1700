//! Reconciles a local file tree against a manifest of expected files and
//! plans the downloads that bring the tree up to date.

pub mod digest;
pub mod download;
pub mod format;
pub mod location;
pub mod manifest;
pub mod progress;
pub mod reconcile;
pub mod report;
pub mod size;
pub mod text;
pub mod transaction;

pub use location::Location;
pub use manifest::Manifest;
pub use progress::Progress;
pub use transaction::Transaction;
