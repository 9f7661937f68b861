use vstd::prelude::*;
use vstd::string::StringExecFns;

use crate::error::PullError;

verus! {

/// Resolves the user's single choice back to a candidate path. An explicit
/// cancel means no selection; an empty candidate list offers nothing to
/// choose, so it reports the same outcome.
pub fn select_schema(paths: &Vec<String>, choice: Option<usize>) -> (r: Result<String, PullError>)
    requires
        choice matches Some(i) ==> i < paths@.len(),
    ensures
        match choice {
            Some(i) => r matches Ok(p) && p@ == paths@[i as int]@,
            None => r matches Err(PullError::NoSelection),
        },
{
    match choice {
        Some(i) => Ok(paths[i].clone()),
        None => Err(PullError::NoSelection),
    }
}

/// The success line printed after a save, naming the destination the
/// schema was written to under the user's home directory.
pub fn saved_message(owner: &str, repo: &str, name: &str) -> (r: String)
    ensures
        r@ == "Schema saved to ~/.schemastore/"@ + owner@ + "/"@ + repo@ + "/"@ + name@,
{
    String::from_str("Schema saved to ~/.schemastore/")
        .concat(owner)
        .concat("/")
        .concat(repo)
        .concat("/")
        .concat(name)
}

} // verus!
