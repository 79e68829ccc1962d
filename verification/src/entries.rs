//! The model of one directory scan: its immediate entries, and the image
//! names kept from them.

use vstd::prelude::*;
use crate::errors::RunError;
use crate::extension::has_relevant_extension;
use crate::extension::is_extension_relevant;

verus! {

/// What kind of thing a directory entry is. Symlinks to directories,
/// subdirectories and special files are never `File`.
#[derive(Clone, Copy, Debug, PartialEq, Eq, Structural)]
pub enum EntryKind {
    File,
    Directory,
    Other,
}

/// One immediate entry of the scanned directory: its filename (the last
/// path component, extension included) and its kind.
pub struct DirEntry {
    pub name: String,
    pub kind: EntryKind,
}

/// An entry is kept when it is a regular file whose name has a relevant
/// extension.
pub open spec fn is_image_entry(e: DirEntry) -> bool {
    e.kind is File && has_relevant_extension(e.name@)
}

/// The names of the image entries, in scan order.
pub open spec fn image_names(entries: Seq<DirEntry>) -> Seq<Seq<char>>
    decreases entries.len(),
{
    if entries.len() == 0 {
        Seq::empty()
    } else {
        let rest = image_names(entries.drop_last());
        if is_image_entry(entries.last()) {
            rest.push(entries.last().name@)
        } else {
            rest
        }
    }
}

/// A name is kept from a scan exactly when some entry of the scan is a
/// regular file with a recognized extension and carries that name.
pub proof fn lemma_image_names_membership(entries: Seq<DirEntry>, n: Seq<char>)
    ensures
        image_names(entries).contains(n) <==> (exists|i: int|
            0 <= i < entries.len() && is_image_entry(entries[i]) && entries[i].name@ == n),
    decreases entries.len(),
{
    if entries.len() == 0 {
    } else {
        let prefix = entries.drop_last();
        lemma_image_names_membership(prefix, n);
        let rest = image_names(prefix);
        let last = entries.last();
        if image_names(entries).contains(n) {
            if is_image_entry(last) && n == last.name@ {
                assert(is_image_entry(entries[entries.len() - 1]));
            } else {
                assert(rest.contains(n)) by {
                    let j = choose|j: int|
                        0 <= j < image_names(entries).len() && image_names(entries)[j] == n;
                    assert(rest[j] == n);
                }
                let i = choose|i: int|
                    0 <= i < prefix.len() && is_image_entry(prefix[i]) && prefix[i].name@ == n;
                assert(entries[i] == prefix[i]);
            }
        }
        if exists|i: int| 0 <= i < entries.len() && is_image_entry(entries[i])
            && entries[i].name@ == n {
            let i = choose|i: int|
                0 <= i < entries.len() && is_image_entry(entries[i]) && entries[i].name@ == n;
            if i == entries.len() - 1 {
                assert(image_names(entries)[image_names(entries).len() - 1] == n);
            } else {
                assert(prefix[i] == entries[i]);
                assert(rest.contains(n));
                let j = choose|j: int| 0 <= j < rest.len() && rest[j] == n;
                assert(image_names(entries)[j] == n);
            }
        }
    }
}

/// Keeps, in scan order, the names of the entries that are regular files
/// with a recognized extension.
pub fn filter_images(entries: &Vec<DirEntry>) -> (images: Vec<String>)
    ensures
        images@.map_values(|s: String| s@) == image_names(entries@),
{
    let mut images: Vec<String> = Vec::new();
    let mut i: usize = 0;
    while i < entries.len()
        invariant
            i <= entries@.len(),
            images@.map_values(|s: String| s@) == image_names(entries@.subrange(0, i as int)),
        decreases entries@.len() - i,
    {
        let ghost prev = images@;
        let e = &entries[i];
        if e.kind == EntryKind::File && is_extension_relevant(e.name.as_str()) {
            images.push(e.name.clone());
        }
        proof {
            let next = entries@.subrange(0, i + 1);
            assert(next.drop_last() =~= entries@.subrange(0, i as int));
            assert(next.last() == entries@[i as int]);
            if is_image_entry(entries@[i as int]) {
                assert(images@.map_values(|s: String| s@) =~= prev.map_values(|s: String| s@)
                    .push(entries@[i as int].name@));
            }
        }
        i += 1;
    }
    proof {
        assert(entries@.subrange(0, entries@.len() as int) =~= entries@);
    }
    images
}

/// Scans the entries of `path`'s directory down to the image names; an
/// empty result is the terminal "no supported images" condition, an input
/// error that names the directory.
pub fn collect_images(path: &String, entries: &Vec<DirEntry>) -> (r: Result<Vec<String>, RunError>)
    ensures
        r is Ok <==> image_names(entries@).len() > 0,
        r matches Ok(images) ==> images@.len() > 0 && images@.map_values(|s: String| s@)
            == image_names(entries@),
        r matches Err(e) ==> e matches RunError::NoImages(p) && p@ == path@,
{
    let images = filter_images(entries);
    if images.len() == 0 {
        Err(RunError::NoImages(path.clone()))
    } else {
        Ok(images)
    }
}

} // verus!
