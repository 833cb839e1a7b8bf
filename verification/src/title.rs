//! The title of the application window.

use vstd::prelude::*;
use vstd::string::*;

verus! {

/// The text of the window title for a package name and version: the name, a
/// space, the letter `v` and the version.
pub open spec fn window_title(package_name: Seq<char>, package_version: Seq<char>) -> Seq<char> {
    package_name + seq![' ', 'v'] + package_version
}

/// Builds the window title from the package's name and version.
pub fn generate_window_title(package_name: &str, package_version: &str) -> (title: String)
    ensures
        title@ == window_title(package_name@, package_version@),
{
    let mut title = String::from_str(package_name);
    title.append(" v");
    title.append(package_version);
    proof {
        reveal_strlit(" v");
        assert(" v"@ =~= seq![' ', 'v']);
    }
    title
}

} // verus!
