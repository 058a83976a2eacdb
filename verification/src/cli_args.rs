//! What the command line of the search tool says.

use vstd::prelude::*;

verus! {

/// The columns that a listing of search results can show.
#[derive(Debug, Clone, Copy, PartialEq, Eq, Hash, Structural)]
pub enum Columns {
    Path,
    Name,
}

/// The arguments of the command line.
#[derive(Debug, Clone, PartialEq, Eq, Hash)]
pub struct Cli {
    /// Where to search, such as `C:/` or `C:/Prog*`.
    pub search_path: String,
    /// The columns to show, in their order.
    pub columns: Vec<Columns>,
}

} // verus!
