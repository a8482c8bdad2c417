//! The files of a Java project that a scan has collected.
use vstd::prelude::*;

use crate::common::text::views;

verus! {

/// The paths of the files collected so far, in the order they were added.
pub struct JavaProjectFilesCache {
    files: Vec<String>,
}

impl View for JavaProjectFilesCache {
    type V = Seq<Seq<char>>;

    closed spec fn view(&self) -> Seq<Seq<char>> {
        views(self.files@)
    }
}

impl JavaProjectFilesCache {
    /// A cache with no files.
    pub fn new() -> (r: Self)
        ensures
            r@ == Seq::<Seq<char>>::empty(),
    {
        let r = JavaProjectFilesCache { files: Vec::new() };
        assert(r@ =~= Seq::<Seq<char>>::empty());
        r
    }

    /// Adds the path of a file, which the caller has found to be an existing regular file.
    pub fn add_file(&mut self, file: &str)
        ensures
            final(self)@ == old(self)@.push(file@),
    {
        let ghost before = self.files@;
        self.files.push(file.to_owned());
        assert(views(self.files@) =~= views(before).push(file@));
    }

    /// How many files were added.
    pub fn count_files_added(&self) -> (r: usize)
        ensures
            r == self@.len(),
    {
        self.files.len()
    }
}

} // verus!
