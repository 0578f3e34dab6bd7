//! Version information: the display string that combines a package's name,
//! its version, and the source revision the binary was built from.

use vstd::prelude::*;
use vstd::string::StringExecFns;

verus! {

/// The version display string, as a sequence of characters: the package name,
/// the package version, and the revision in parentheses, separated by spaces.
pub open spec fn version_text(name: Seq<char>, version: Seq<char>, revision: Seq<char>) -> Seq<
    char,
> {
    name + seq![' '] + version + seq![' ', '('] + revision + seq![')']
}

/// Combines build metadata into the version display string, in the shape
/// `name version (revision)`.
pub fn version_info(name: &str, version: &str, revision: &str) -> (r: String)
    ensures
        r@ == version_text(name@, version@, revision@),
{
    proof {
        reveal_strlit(" ");
        reveal_strlit(" (");
        reveal_strlit(")");
    }
    let r = String::from_str(name).concat(" ").concat(version).concat(" (").concat(
        revision,
    ).concat(")");
    proof {
        assert(r@ =~= version_text(name@, version@, revision@));
    }
    r
}

} // verus!
