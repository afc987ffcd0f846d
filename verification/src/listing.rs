//! Directory listings, and the test for partial downloads in them.

use crate::paths::{extension_of, has_partial_extension, partial_marker};
use vstd::prelude::*;

verus! {

/// One entry of a directory listing.
#[derive(Debug, Clone, PartialEq, Eq)]
pub struct DirectoryEntry {
    /// The entry's file name, without the directory it lies in.
    pub name: String,
    /// Whether the entry is a regular file.
    pub is_file: bool,
}

/// What the contracts see of a `DirectoryEntry`.
pub struct EntryView {
    pub name: Seq<char>,
    pub is_file: bool,
}

impl View for DirectoryEntry {
    type V = EntryView;

    open spec fn view(&self) -> EntryView {
        EntryView { name: self.name@, is_file: self.is_file }
    }
}

/// The views of the entries of a listing, in the listing's order.
pub open spec fn listing_view(entries: Seq<DirectoryEntry>) -> Seq<EntryView> {
    entries.map_values(|entry: DirectoryEntry| entry@)
}

/// An entry is a partial download if it is a regular file whose extension is
/// the partial marker.
pub open spec fn is_partial(entry: EntryView) -> bool {
    entry.is_file && extension_of(entry.name) == Some(partial_marker())
}

/// A listing is settled if none of its entries is a partial download.
pub open spec fn is_settled(listing: Seq<EntryView>) -> bool {
    forall|i: int| 0 <= i < listing.len() ==> !is_partial(#[trigger] listing[i])
}

impl DirectoryEntry {
    /// Whether this entry is a partial download.
    pub fn is_partial(&self) -> (partial: bool)
        ensures
            partial == is_partial(self@),
    {
        self.is_file && has_partial_extension(self.name.as_str())
    }
}

/// Whether a partial download is among `entries`.
pub fn has_partial_files(entries: &Vec<DirectoryEntry>) -> (found: bool)
    ensures
        found == !is_settled(listing_view(entries@)),
{
    let mut i: usize = 0;
    while i < entries.len()
        invariant
            i <= entries.len(),
            forall|j: int| 0 <= j < i ==> !is_partial(#[trigger] listing_view(entries@)[j]),
        decreases entries.len() - i,
    {
        if entries[i].is_partial() {
            assert(is_partial(listing_view(entries@)[i as int]));
            return true;
        }
        i += 1;
    }
    false
}

} // verus!
