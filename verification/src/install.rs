//! Where the binary is installed, and where its predecessor is kept.

use crate::text::ends_with;
use vstd::prelude::*;
use vstd::string::*;

verus! {

/// Path of the installed binary below the home directory.
pub const INSTALL_SUBPATH: &'static str = "bin/rust-analyzer";

/// Permission bits of the installed binary: `rwxr-xr-x`.
pub const EXECUTABLE_MODE: u32 = 0o755;

/// The install path below a home directory: the home directory, a separator
/// unless the home directory is empty or already ends with one, and
/// `bin/rust-analyzer`.
pub open spec fn install_path_of(home: Seq<char>) -> Seq<char> {
    if home.len() == 0 || home.last() == '/' {
        home + INSTALL_SUBPATH@
    } else {
        home + "/"@ + INSTALL_SUBPATH@
    }
}

/// The path under which an installed binary of the given version is kept:
/// the install path, a hyphen and the version.
pub open spec fn archive_path_of(install_path: Seq<char>, version: Seq<char>) -> Seq<char> {
    install_path + "-"@ + version
}

/// The archived binary stays in the directory of the install path, as long
/// as the version holds no separator: its path is the install path followed
/// by characters none of which is a separator.
pub proof fn lemma_archive_stays_in_directory(install_path: Seq<char>, version: Seq<char>)
    requires
        forall|k: int| 0 <= k < version.len() ==> version[k] != '/',
    ensures
        install_path.is_prefix_of(archive_path_of(install_path, version)),
        archive_path_of(install_path, version).len() == install_path.len() + 1 + version.len(),
        forall|k: int|
            install_path.len() <= k < archive_path_of(install_path, version).len()
                ==> archive_path_of(install_path, version)[k] != '/',
{
    reveal_strlit("-");
    let archived = archive_path_of(install_path, version);
    assert(archived.subrange(0, install_path.len() as int) =~= install_path);
    assert forall|k: int| install_path.len() <= k < archived.len() implies archived[k] != '/' by {
        if k > install_path.len() {
            assert(archived[k] == version[k - install_path.len() - 1]);
        }
    }
}

/// Returns the install path below the home directory `home`.
pub fn install_path_in(home: &str) -> (path: String)
    ensures
        path@ == install_path_of(home@),
{
    let mut path = String::from_str(home);
    let separated = ends_with(home, "/");
    proof {
        reveal_strlit("/");
        if home@.len() > 0 {
            let last = home@.subrange(home@.len() - 1, home@.len() as int);
            assert(last[0] == home@.last());
            assert(home@.last() == '/' ==> last =~= "/"@);
        }
    }
    if !home.is_empty() && !separated {
        path.append("/");
    }
    path.append(INSTALL_SUBPATH);
    path
}

/// Returns the path to which the binary at `install_path` is moved before a
/// new one takes its place, given the version that the binary reports.
pub fn archive_path(install_path: &str, version: &str) -> (path: String)
    ensures
        path@ == archive_path_of(install_path@, version@),
{
    let mut path = String::from_str(install_path);
    path.append("-");
    path.append(version);
    path
}

/// Returns the install path for what is known of the home directory: the path
/// below `home` where it is given, `None` where it is not.
pub fn install_path_below(home: Option<String>) -> (path: Option<String>)
    ensures
        match home {
            Some(home) => path matches Some(p) && p@ == install_path_of(home@),
            None => path is None,
        },
{
    match home {
        Some(home) => Some(install_path_in(home.as_str())),
        None => None,
    }
}

/// Trusted: `dirs::home_dir`, with the path it returns turned into a string.
/// The result depends on the environment and the user database, so nothing is
/// claimed of it. `None` stands for a home directory that is unknown or
/// whose path is not valid Unicode.
#[verifier::external_body]
fn home_dir() -> (home: Option<String>) {
    match dirs::home_dir() {
        Some(path) => match path.to_str() {
            Some(text) => Some(text.to_string()),
            None => None,
        },
        None => None,
    }
}

/// Returns the install path below the current user's home directory, or
/// `None` where no home directory is known.
pub fn default_install_path() -> (path: Option<String>)
    ensures
        path matches Some(p) ==> exists|home: Seq<char>| p@ == #[trigger] install_path_of(home),
{
    install_path_below(home_dir())
}

} // verus!
