//! Key-to-path resolution: a snapshot key maps to a deterministic file
//! inside a fixed snapshot directory under the caller's root.

use vstd::prelude::*;
use vstd::string::StringExecFns;

verus! {

/// The directory that holds all snapshot files for a given root.
pub fn snapshot_dir(root: &str) -> (dir: String)
    ensures
        dir@ == root@ + "/snapshots"@,
{
    let mut dir = root.to_owned();
    dir.append("/snapshots");
    dir
}

/// The file name under which a key's snapshot is stored.
pub fn snapshot_file_name(key: &str) -> (name: String)
    ensures
        name@ == key@ + ".snap"@,
{
    let mut name = key.to_owned();
    name.append(".snap");
    name
}

/// The full path of the reference file for a key: the snapshot
/// directory under the root, then the key with the fixed extension.
pub fn snapshot_path(root: &str, key: &str) -> (path: String)
    ensures
        path@ == root@ + "/snapshots/"@ + key@ + ".snap"@,
{
    let mut path = root.to_owned();
    path.append("/snapshots/");
    path.append(key);
    path.append(".snap");
    path
}

} // verus!
