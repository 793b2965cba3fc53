//! Artifact discovery: selecting bundle and source-map files from a
//! directory listing and assigning each its logical upload URL.
use vstd::prelude::*;
use vstd::string::*;
use crate::text::copy_str;
use crate::text::str_eq;

verus! {

/// One immediate entry of a listed directory, as the caller read it:
/// its bare file name and its local path.
pub struct FileEntry {
    pub file_name: String,
    pub path: String,
}

/// A file paired with the logical URL the remote service will
/// associate it with.
pub struct Artifact {
    pub url: String,
    pub path: String,
}

/// The file extension: the characters after the last dot, where that
/// dot is not the leading character (a name that starts with its only
/// dot is a hidden file, not an extension).
pub open spec fn spec_extension(name: Seq<char>) -> Option<Seq<char>>
    decreases name.len(),
{
    if name.len() < 2 {
        None
    } else if name.last() == '.' {
        Some(Seq::empty())
    } else {
        match spec_extension(name.drop_last()) {
            Some(e) => Some(e.push(name.last())),
            None => None,
        }
    }
}

/// The fixed allow-list of artifact extensions: bundles and maps.
pub open spec fn is_artifact_extension(e: Seq<char>) -> bool {
    e == "jsbundle"@ || e == "map"@ || e == "bundle"@
}

/// Whether a file of this name is collected.
pub open spec fn spec_selected(name: Seq<char>) -> bool {
    match spec_extension(name) {
        Some(e) => is_artifact_extension(e),
        None => false,
    }
}

/// The logical upload URL of a collected file: `~/` before its name,
/// a root-relative reference independent of local paths.
pub open spec fn spec_artifact_url(name: Seq<char>) -> Seq<char> {
    "~/"@ + name
}

/// A dot at position `k` with no dot after it starts the extension.
proof fn lemma_extension_at(name: Seq<char>, k: int)
    requires
        1 <= k < name.len(),
        name[k] == '.',
        forall|j: int| k < j < name.len() ==> name[j] != '.',
    ensures
        spec_extension(name) == Some(name.skip(k + 1)),
    decreases name.len(),
{
    if k == name.len() - 1 {
        assert(name.skip(k + 1) =~= Seq::<char>::empty());
    } else {
        lemma_extension_at(name.drop_last(), k);
        assert(name.drop_last().skip(k + 1).push(name.last()) =~= name.skip(k + 1));
    }
}

/// Without a dot beyond the leading character there is no extension.
proof fn lemma_extension_none(name: Seq<char>)
    requires
        forall|j: int| 1 <= j < name.len() ==> name[j] != '.',
    ensures
        spec_extension(name) is None,
    decreases name.len(),
{
    if name.len() >= 2 {
        lemma_extension_none(name.drop_last());
    }
}

/// The extension of a file name, if it has one.
pub fn extension_of(name: &str) -> (r: Option<String>)
    ensures
        match r {
            Some(e) => spec_extension(name@) == Some(e@),
            None => spec_extension(name@) is None,
        },
{
    let len = name.unicode_len();
    let mut j: usize = len;
    while j > 1
        invariant
            len == name@.len(),
            j <= len,
            forall|i: int| j <= i < len ==> name@[i] != '.',
        decreases j,
    {
        if name.get_char(j - 1) == '.' {
            let ext = copy_str(name.substring_char(j, len));
            proof {
                lemma_extension_at(name@, j - 1);
            }
            return Some(ext);
        }
        j = j - 1;
    }
    proof {
        lemma_extension_none(name@);
    }
    None
}

/// Whether this file name is collected: its extension is on the
/// allow-list.
pub fn is_selected(name: &str) -> (r: bool)
    ensures
        r == spec_selected(name@),
{
    match extension_of(name) {
        Some(e) => {
            let ext = e.as_str();
            str_eq(ext, "jsbundle") || str_eq(ext, "map") || str_eq(ext, "bundle")
        },
        None => false,
    }
}

/// The entries of a listing that are collected, in order.
pub open spec fn spec_kept(entries: Seq<FileEntry>) -> Seq<FileEntry> {
    entries.filter(|e: FileEntry| spec_selected(e.file_name@))
}

/// Collect artifacts from a directory listing: keep exactly the
/// entries whose extension is on the allow-list, in order, and give
/// each the logical URL `~/` followed by its file name.
pub fn collect_artifacts(entries: &Vec<FileEntry>) -> (r: Vec<Artifact>)
    ensures
        r@.len() == spec_kept(entries@).len(),
        forall|i: int|
            0 <= i < r@.len() ==> (#[trigger] r@[i]).url@ == spec_artifact_url(
                spec_kept(entries@)[i].file_name@,
            ) && r@[i].path@ == spec_kept(entries@)[i].path@,
{
    let mut r: Vec<Artifact> = Vec::new();
    proof {
        reveal(Seq::filter);
        assert(entries@.take(0) =~= Seq::<FileEntry>::empty());
    }
    let n = entries.len();
    for idx in 0..n
        invariant
            n == entries@.len(),
            r@.len() == spec_kept(entries@.take(idx as int)).len(),
            forall|i: int|
                0 <= i < r@.len() ==> (#[trigger] r@[i]).url@ == spec_artifact_url(
                    spec_kept(entries@.take(idx as int))[i].file_name@,
                ) && r@[i].path@ == spec_kept(entries@.take(idx as int))[i].path@,
    {
        let entry = &entries[idx];
        if is_selected(entry.file_name.as_str()) {
            let mut url = String::from_str("~/");
            url.append(entry.file_name.as_str());
            let path = copy_str(entry.path.as_str());
            r.push(Artifact { url, path });
        }
        proof {
            reveal(Seq::filter);
            assert(entries@.take(idx + 1).drop_last() =~= entries@.take(idx as int));
            assert(entries@.take(idx + 1).last() == entries@[idx as int]);
        }
    }
    proof {
        assert(entries@.take(n as int) =~= entries@);
    }
    r
}

} // verus!
