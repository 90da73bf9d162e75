//! Picking a search query and a file path out of command-line arguments.

use vstd::prelude::*;

verus! {

/// What to search for, and where.
pub struct Config {
    pub query: String,
    pub file_path: String,
}

/// Reads the query from the first argument after the program name and the
/// file path from the second.
pub fn parse_config(args: &Vec<String>) -> (r: Config)
    requires
        args@.len() >= 3,
    ensures
        r.query@ == args@[1]@,
        r.file_path@ == args@[2]@,
{
    let query = &args[1];
    let file_path = &args[2];
    Config { query: query.clone(), file_path: file_path.clone() }
}

} // verus!
