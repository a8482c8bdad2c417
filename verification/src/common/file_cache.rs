//! The text of a source file, kept together with its path and the Java files of its project.
use vstd::prelude::*;

use crate::common::text::{clone_strings, views};

verus! {

/// The path and the text of a source file, and the paths of the Java files of its project.
pub struct FileCache {
    path: String,
    content: String,
    project_files: Vec<String>,
}

impl FileCache {
    pub closed spec fn spec_path(&self) -> Seq<char> {
        self.path@
    }

    pub closed spec fn spec_content(&self) -> Seq<char> {
        self.content@
    }

    pub closed spec fn spec_project_files(&self) -> Seq<Seq<char>> {
        views(self.project_files@)
    }

    /// The file at `path`, whose text is `content`, in a project whose Java files are
    /// `project_files`.
    pub fn new(path: &str, content: &str, project_files: &Vec<String>) -> (r: FileCache)
        ensures
            r.spec_path() == path@,
            r.spec_content() == content@,
            r.spec_project_files() == views(project_files@),
    {
        FileCache {
            path: path.to_owned(),
            content: content.to_owned(),
            project_files: clone_strings(project_files),
        }
    }

    /// The paths of the Java files of the project of the file.
    pub fn get_project_files(&self) -> (r: &Vec<String>)
        ensures
            views(r@) == self.spec_project_files(),
    {
        &self.project_files
    }

    /// The path of the file.
    pub fn get_path(&self) -> (r: &str)
        ensures
            r@ == self.spec_path(),
    {
        self.path.as_str()
    }

    /// The text of the file.
    pub fn get_content(&self) -> (r: &str)
        ensures
            r@ == self.spec_content(),
    {
        self.content.as_str()
    }
}

} // verus!
