//! From the platform identifier to the suffix of release asset names.

use crate::text::same_text;
use vstd::prelude::*;
use vstd::string::*;

verus! {

/// The name that release assets carry for a platform: `mac` for the platform
/// that identifies itself as `macos`, the platform identifier itself for every
/// other platform.
pub open spec fn os_name(os: Seq<char>) -> Seq<char> {
    if os == "macos"@ {
        "mac"@
    } else {
        os
    }
}

/// The suffix that marks an asset as built for a platform: a hyphen followed
/// by the platform's asset name.
pub open spec fn os_suffix_of(os: Seq<char>) -> Seq<char> {
    "-"@ + os_name(os)
}

/// Returns the name used in release asset file names for the platform
/// identifier `os`.
pub fn get_os_name<'a>(os: &'a str) -> (name: &'a str)
    ensures
        name@ == os_name(os@),
        os@ == "macos"@ ==> name@ == "mac"@,
        os@ != "macos"@ ==> name@ == os@,
{
    // Release assets for macOS are published as "-mac", while the platform
    // identifier is "macos".
    if same_text(os, "macos") {
        "mac"
    } else {
        os
    }
}

/// Returns the suffix that asset names carry for the platform identifier `os`.
pub fn os_suffix(os: &str) -> (suffix: String)
    ensures
        suffix@ == os_suffix_of(os@),
        os@ == "macos"@ ==> suffix@ == "-mac"@,
        os@ != "macos"@ ==> suffix@ == "-"@ + os@,
{
    let mut suffix = String::from_str("-");
    suffix.append(get_os_name(os));
    proof {
        reveal_strlit("-");
        reveal_strlit("mac");
        reveal_strlit("-mac");
        assert("-"@ + "mac"@ =~= "-mac"@);
    }
    suffix
}

} // verus!
