//! The package cache's naming and decision rules: where a version is
//! installed on disk, where its archive is downloaded from, and when a
//! download is needed at all. The presence of the version-named directory is
//! the sole guard against re-downloading.

use vstd::prelude::*;
use vstd::string::StringExecFns;

verus! {

/// The version-named installation directory of a package version.
pub open spec fn spec_install_dir(version: Seq<char>) -> Seq<char> {
    "fsautocomplete_"@ + version
}

/// Computes the deterministic local path keyed by a version.
pub fn install_dir_name(version: &str) -> (r: String)
    ensures
        r@ == spec_install_dir(version@),
{
    String::from_str("fsautocomplete_").concat(version)
}

/// The subtree of an installation that holds one directory per shipped
/// target-framework variant.
pub open spec fn spec_tools_dir(version: Seq<char>) -> Seq<char> {
    spec_install_dir(version) + "/tools"@
}

/// Computes the tools directory of an installed version.
pub fn tools_dir_name(version: &str) -> (r: String)
    ensures
        r@ == spec_tools_dir(version@),
{
    let r = install_dir_name(version).concat("/tools");
    proof {
        assert(r@ =~= spec_tools_dir(version@));
    }
    r
}

/// The deterministic archive URL of a package version on the index.
pub open spec fn spec_download_url(version: Seq<char>) -> Seq<char> {
    "https://api.nuget.org/v3-flatcontainer/fsautocomplete/"@ + version + "/fsautocomplete."@
        + version + ".nupkg"@
}

/// Computes the archive URL that a missing version is downloaded from.
pub fn download_url(version: &str) -> (r: String)
    ensures
        r@ == spec_download_url(version@),
{
    let mut s = String::from_str("https://api.nuget.org/v3-flatcontainer/fsautocomplete/");
    s.append(version);
    s.append("/fsautocomplete.");
    s.append(version);
    s.append(".nupkg");
    proof {
        assert(s@ =~= spec_download_url(version@));
    }
    s
}

/// The full path of the resolved server binary: the extension home, the
/// version-named installation, the selected variant's own directory name, the
/// fixed "any" subsegment, and the binary filename.
pub open spec fn spec_binary_path(
    home: Seq<char>,
    version: Seq<char>,
    variant_dir: Seq<char>,
) -> Seq<char> {
    home + "/"@ + spec_install_dir(version) + "/tools/"@ + variant_dir
        + "/any/fsautocomplete.dll"@
}

/// Joins the resolved server binary's path.
pub fn binary_path(home: &str, version: &str, variant_dir: &str) -> (r: String)
    ensures
        r@ == spec_binary_path(home@, version@, variant_dir@),
{
    let mut s = String::from_str(home);
    s.append("/");
    let dir = install_dir_name(version);
    s.append(dir.as_str());
    s.append("/tools/");
    s.append(variant_dir);
    s.append("/any/fsautocomplete.dll");
    proof {
        assert(s@ =~= spec_binary_path(home@, version@, variant_dir@));
    }
    s
}

/// The cache's disk model: the set of directory names that exist under the
/// extension home. Establishing a version downloads exactly when its
/// directory is absent — directory existence is the sole source of truth for
/// "already installed".
pub open spec fn spec_ensure_downloads(disk: Set<Seq<char>>, version: Seq<char>) -> bool {
    !disk.contains(spec_install_dir(version))
}

/// The disk after a version was established: its directory exists, whether it
/// was just unpacked or was already there.
pub open spec fn spec_disk_after_ensure(disk: Set<Seq<char>>, version: Seq<char>) -> Set<
    Seq<char>,
> {
    disk.insert(spec_install_dir(version))
}

/// Establishing the same version twice performs exactly one download: the
/// first pass downloads exactly when the directory is absent and leaves the
/// directory in place, so the second pass downloads nothing and leaves the
/// disk as it found it.
pub proof fn lemma_ensure_installed_idempotent(disk: Set<Seq<char>>, version: Seq<char>)
    ensures
        !spec_ensure_downloads(spec_disk_after_ensure(disk, version), version),
        spec_disk_after_ensure(spec_disk_after_ensure(disk, version), version)
            =~= spec_disk_after_ensure(disk, version),
{
}

} // verus!
