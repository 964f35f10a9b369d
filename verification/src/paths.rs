//! Which documents a run reads, as the program's arguments choose them.

use vstd::prelude::*;
use vstd::string::StringExecFns;
use crate::text::joined;

verus! {

/// The base name of the documents when the arguments name none.
pub open spec fn default_base() -> Seq<char> {
    "COMMUNICATION_PROTOCOL"@
}

/// The base name that the arguments choose: the one after `--protocol`,
/// where that flag is the first argument after the program's name and a
/// value follows it; else the default.
pub open spec fn chosen_base(arguments: Seq<Seq<char>>) -> Seq<char> {
    if arguments.len() > 2 && arguments[1] == "--protocol"@ {
        arguments[2]
    } else {
        default_base()
    }
}

/// The paths of the policy and the test document for a base name.
pub open spec fn paths_for(base: Seq<char>) -> (Seq<char>, Seq<char>) {
    (base + ".md"@, base + ".json"@)
}

/// The paths of the two documents that the program's arguments choose.
pub fn document_paths(arguments: &[String]) -> (paths: (String, String))
    ensures
        (paths.0@, paths.1@) == paths_for(chosen_base(arguments.deep_view())),
{
    let flag = String::from_str("--protocol");
    if arguments.len() > 2 && arguments[1] == flag {
        let base = arguments[2].as_str();
        (joined(base, ".md"), joined(base, ".json"))
    } else {
        let base = "COMMUNICATION_PROTOCOL";
        (joined(base, ".md"), joined(base, ".json"))
    }
}

} // verus!
