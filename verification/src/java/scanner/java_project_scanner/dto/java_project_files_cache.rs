//! The Java files of a project that a project scan has read.
use vstd::prelude::*;

use crate::java::scanner::file::dto::java_file::JavaFile;
use crate::java::parser::java_node::JavaNode;
use crate::java::parser::java_parser::java_parser::{spec_java_node_of, spec_java_tree};
use crate::java::scanner::file::java_file_scanner::{scan, spec_scan_outcome};

verus! {

/// The files read so far, in the order they were added.
pub struct JavaProjectFilesCache {
    files: Vec<JavaFile>,
}

impl JavaProjectFilesCache {
    /// The files read so far, in order.
    pub closed spec fn spec_files(&self) -> Seq<JavaFile> {
        self.files@
    }

    /// A cache with no files.
    pub fn new() -> (r: Self)
        ensures
            r.spec_files() == Seq::<JavaFile>::empty(),
    {
        JavaProjectFilesCache { files: Vec::new() }
    }

    /// Adds the file that the file scan reads from the source text `source` of the file at
    /// `file` (see `scan`), which the caller has found to be an existing regular file; a file
    /// that the scan cannot read is left out.
    pub fn try_to_add_file(&mut self, source: &str, file: &str)
        ensures
            exists|n: JavaNode, s: Result<JavaFile, String>|
                spec_java_node_of(n, spec_java_tree(source@), file@, source@) && #[trigger] spec_scan_outcome(n, s)
                    && match s {
                    Ok(f) => final(self).spec_files() == old(self).spec_files().push(f),
                    Err(_) => final(self).spec_files() == old(self).spec_files(),
                },
    {
        let scanned = scan(source, file);
        let ghost s = scanned;
        self.add_scanned(scanned);
        proof {
            let n = choose|n: JavaNode|
                spec_java_node_of(n, spec_java_tree(source@), file@, source@) && #[trigger] spec_scan_outcome(n, s);
            assert(spec_java_node_of(n, spec_java_tree(source@), file@, source@) && spec_scan_outcome(n, s));
        }
    }

    /// Adds the file of a file scan that read one; nothing for a scan that failed.
    pub fn add_scanned(&mut self, scanned: Result<JavaFile, String>)
        ensures
            match scanned {
                Ok(f) => final(self).spec_files() == old(self).spec_files().push(f),
                Err(_) => final(self).spec_files() == old(self).spec_files(),
            },
    {
        if let Ok(f) = scanned {
            self.files.push(f);
        }
    }

    /// How many files were added.
    pub fn count_files_added(&self) -> (r: usize)
        ensures
            r == self.spec_files().len(),
    {
        self.files.len()
    }
}

} // verus!
