//! Registry of selectable videos and discovery of how many sheets a video
//! has on storage.

use vstd::prelude::*;

use crate::FRAMES_PER_SHEET;
use crate::MAX_SHEETS;

verus! {

/// Static registry of selectable video identifiers. A video id is an index
/// into `names`; the host derives each video's storage base path from its
/// name.
pub struct VideoCatalog {
    pub names: Vec<String>,
}

impl VideoCatalog {
    pub fn new(names: Vec<String>) -> (c: Self)
        ensures
            c.names == names,
    {
        VideoCatalog { names }
    }

    pub fn len(&self) -> (n: usize)
        ensures
            n == self.names@.len(),
    {
        self.names.len()
    }

    pub fn name(&self, id: usize) -> (s: &String)
        requires
            id < self.names@.len(),
        ensures
            s == self.names@[id as int],
    {
        &self.names[id]
    }
}

/// Sheet count discovered from storage: `flags[i]` says whether the sheet
/// file with index `i` exists. The count is the index of the first missing
/// sheet — the scan halts there, so a sheet behind a gap is never counted.
pub fn probe_count(flags: &Vec<bool>) -> (n: usize)
    ensures
        n <= flags@.len(),
        forall|i: int| 0 <= i < n ==> flags@[i],
        n < flags@.len() ==> !flags@[n as int],
{
    let mut n: usize = 0;
    while n < flags.len()
        invariant
            n <= flags@.len(),
            forall|i: int| 0 <= i < n ==> flags@[i],
        decreases flags@.len() - n,
    {
        if !flags[n] {
            return n;
        }
        n = n + 1;
    }
    n
}

/// Total frame count of a video with `sheet_count` sheets: exactly
/// `sheet_count * FRAMES_PER_SHEET`.
pub fn total_frames(sheet_count: usize) -> (n: u64)
    requires
        sheet_count <= MAX_SHEETS,
    ensures
        n == sheet_count * FRAMES_PER_SHEET,
{
    (sheet_count as u64) * FRAMES_PER_SHEET
}

} // verus!
