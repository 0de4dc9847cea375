//! The command-line options.
use std::path::PathBuf;

use vstd::prelude::*;

verus! {

/// A file system path (`std::path::PathBuf`), carried through unread.
#[verifier::external_type_specification]
#[verifier::external_body]
pub struct ExPathBuf(PathBuf);

/// The command-line options of the program.
pub struct Cli {
    /// Directory to scan for markdown files (default: current directory).
    pub dir: Option<PathBuf>,
    /// Path to the configuration file (default: the user's configuration directory).
    pub config: Option<PathBuf>,
    /// Theme preset to use.
    pub theme: Option<String>,
    /// Maximum number of nodes to display.
    pub max_nodes: Option<usize>,
    /// Glob patterns of files to leave out (repeatable).
    pub exclude: Option<Vec<String>>,
    /// Tags to leave out (comma-separated).
    pub exclude_tags: Option<String>,
    /// Node color mode.
    pub node_color_mode: Option<String>,
    /// Edge color mode.
    pub edge_color_mode: Option<String>,
    /// Label display mode.
    pub label_mode: Option<String>,
    /// Show all labels.
    pub labels: bool,
    /// Hide the status bar.
    pub no_status: bool,
    /// Show the grid.
    pub grid: bool,
    /// Hide the minimap.
    pub no_minimap: bool,
    /// Hide the legend.
    pub no_legend: bool,
    /// Background style.
    pub background: Option<String>,
    /// Border style for overlays.
    pub border_style: Option<String>,
    /// Editor command to open files with.
    pub editor: Option<String>,
}

} // verus!
