//! The command line's one decision: where the configuration file's path
//! comes from.

use vstd::prelude::*;

verus! {

/// Where the configuration file's path comes from. The command line's first
/// element is the program's own name; exactly one argument after it gives
/// the path, none means the user is prompted for it, and more than one is a
/// usage error.
#[derive(Debug)]
pub enum PathSource {
    Usage,
    Prompt,
    Given(String),
}

/// Decides how the configuration path is obtained from the command line.
pub fn choose_path_source(args: &Vec<String>) -> (r: PathSource)
    requires
        args@.len() >= 1,
    ensures
        r is Usage <==> args@.len() > 2,
        r is Prompt <==> args@.len() == 1,
        r is Given <==> args@.len() == 2,
        r is Given ==> r->Given_0@ == args@[1]@,
{
    if args.len() > 2 {
        PathSource::Usage
    } else if args.len() == 1 {
        PathSource::Prompt
    } else {
        PathSource::Given(args[1].clone())
    }
}

} // verus!
