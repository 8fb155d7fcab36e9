//! Listing of cluster pods and nodes as aligned text tables.
//!
//! Raw resource objects are turned into flat display records, filtered, and
//! rendered as fixed-width tables whose columns follow the selected options.
pub mod cells;
pub mod cli;
pub mod cluster;
pub mod filter;
pub mod metadata;
pub mod resources;
pub mod sorted_map;
pub mod table;
pub mod text;

pub use cli::{Commands, GetResources, OutputFormat};
pub use cluster::K8sError;
pub use filter::EnvVarsFilter;
pub use resources::{FarosNode, FarosPod};
pub use table::{display_nodes, display_pods, TableDisplayError};
