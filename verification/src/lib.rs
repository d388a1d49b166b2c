//! Finds the functions of a code base that can be fuzzed: those that take
//! a byte slice, a byte vector or a string.

pub mod classify;
pub mod error;
pub mod parse;
pub mod scan;
pub mod search;
pub mod syntax;
pub mod target;

pub use classify::is_fuzzable_type;
pub use error::{ParseError, SearchError};
pub use parse::parse_source;
pub use scan::{collect_targets, is_source_extension, scan_root, ScanRoot};
pub use search::{find_targets, search_file, FunctionFinder};
pub use target::{FoundFunction, Target};
