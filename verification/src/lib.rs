//! Verified core of a player for Macromedia Director movies and projectors.

pub mod bytes;
pub mod cast;
pub mod collections;
pub mod config;
pub mod detection;
pub mod engine;
pub mod event;
pub mod fonts;
pub mod inspect;
pub mod player;
pub mod quickdraw;
pub mod resource_fork;
pub mod string;
pub mod vfs;

use vstd::prelude::*;

verus! {

/// The version of the player, from the values of its build: the semantic
/// version that the build records, unless it is missing or `UNKNOWN`, else
/// the package version; then, where the build records the short hash of its
/// commit, a space and the hash in brackets.
pub open spec fn spec_version(semver: Option<Seq<char>>, git_hash: Option<Seq<char>>, package_version: Seq<char>) -> Seq<char> {
    let base = match semver {
        Some(v) => if v == "UNKNOWN"@ { package_version } else { v },
        None => package_version,
    };
    match git_hash {
        Some(h) => base + " ("@ + h + ")"@,
        None => base,
    }
}

/// The name of the player.
pub open spec fn spec_name() -> Seq<char> {
    "Earthquake"@
}

/// The view of an optional string.
pub open spec fn opt_str_view(s: Option<&str>) -> Option<Seq<char>> {
    match s {
        Some(s) => Some(s@),
        None => None,
    }
}

/// Whether `s` is `UNKNOWN`.
fn is_unknown(s: &str) -> (r: bool)
    ensures
        r == (s@ == "UNKNOWN"@),
{
    let expected = "UNKNOWN";
    proof {
        reveal_strlit("UNKNOWN");
    }
    assert(expected@ == "UNKNOWN"@);
    let n = s.unicode_len();
    if n != expected.unicode_len() {
        return false;
    }
    let mut i: usize = 0;
    while i < n
        invariant
            n == s@.len() == expected@.len(),
            i <= n,
            forall|k: int| 0 <= k < i ==> s@[k] == expected@[k],
            expected@ == "UNKNOWN"@,
        decreases n - i,
    {
        if s.get_char(i) != expected.get_char(i) {
            assert(s@[i as int] != expected@[i as int]);
            return false;
        }
        i = i + 1;
    }
    assert(s@ =~= expected@);
    true
}

/// The version of the player, from the values that its build records: the
/// semantic version, the short hash of the commit, and the package version.
pub fn version(semver: Option<&str>, git_hash: Option<&str>, package_version: &str) -> (r: String)
    ensures
        r@ == spec_version(opt_str_view(semver), opt_str_view(git_hash), package_version@),
{
    let base = match semver {
        Some(v) => if is_unknown(v) { package_version } else { v },
        None => package_version,
    };
    let mut r = String::from_str(base);
    match git_hash {
        Some(h) => {
            r.append(" (");
            r.append(h);
            r.append(")");
            proof {
                reveal_strlit(" (");
                reveal_strlit(")");
            }
        },
        None => {},
    }
    r
}

/// The name of the player, followed by a space and its version if asked.
pub fn name(with_version: bool, version: &str) -> (r: String)
    ensures
        r@ == if with_version { spec_name() + " "@ + version@ } else { spec_name() },
{
    let mut name = String::from_str("Earthquake");
    proof {
        reveal_strlit("Earthquake");
        reveal_strlit(" ");
    }
    if with_version {
        name.append(" ");
        name.append(version);
    }
    name
}

} // verus!
