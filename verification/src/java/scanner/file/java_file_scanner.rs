//! The file scan: a Java file's package and structure, read from its source text.
use vstd::prelude::*;

use crate::java::parser::java_node::JavaNode;
use crate::java::parser::java_node_type::JavaNodeType;
use crate::java::parser::java_parser::java_parser::{parse, spec_java_node_of, spec_java_tree};
use crate::java::scanner::file::dto::java_file::{spec_has_import, spec_last_declaration, spec_last_of_kind, JavaFile};
use crate::java::scanner::file::dto::java_package::spec_package_nodes;

verus! {

/// What the file scan gives for the syntax tree rooted at `root`: an error for a tree with an
/// import declaration; otherwise what `JavaFile::new` gives.
pub open spec fn spec_scan_outcome(root: JavaNode, r: Result<JavaFile, String>) -> bool {
    &&& spec_has_import(root.spec_children()) ==> (r matches Err(e) && e@ == "Java imports are not read by the file scan."@)
    &&& !spec_has_import(root.spec_children()) ==> match (
        spec_last_of_kind(root.spec_children(), JavaNodeType::PackageDecl),
        spec_last_declaration(root.spec_children()),
    ) {
        (None, _) => r matches Err(e) && e@ == "Java package not found."@,
        (Some(_), None) => r matches Err(e) && e@ == "Java structure not found."@,
        (Some(p), Some(s)) => r matches Ok(f) && f.spec_package() == spec_package_nodes(p)
            && f.spec_structure().spec_scans(s),
    }
}

/// The file whose syntax tree is rooted at `root_node`, as `JavaFile::new` reads it; an error
/// for a tree with an import declaration, which the file scan does not read.
pub fn scan_tree(root_node: &JavaNode) -> (r: Result<JavaFile, String>)
    ensures
        spec_scan_outcome(*root_node, r),
{
    let children = root_node.get_children();
    let mut i: usize = 0;
    while i < children.len()
        invariant
            i <= children.len(),
            children@ == root_node.spec_children(),
            forall|k: int| 0 <= k < i ==> (#[trigger] children@[k]).spec_node_type() != Some(JavaNodeType::ImportDecl),
        decreases children.len() - i,
    {
        if children[i].get_node_type() == Some(JavaNodeType::ImportDecl) {
            return Err("Java imports are not read by the file scan.".to_owned());
        }
        i = i + 1;
    }
    JavaFile::new(root_node)
}

/// The file scan of the Java source text `source` of the file at `java_file_path`: what
/// `scan_tree` gives for its syntax tree (see `parse`).
pub fn scan(source: &str, java_file_path: &str) -> (r: Result<JavaFile, String>)
    ensures
        exists|n: JavaNode|
            spec_java_node_of(n, spec_java_tree(source@), java_file_path@, source@) && #[trigger] spec_scan_outcome(n, r),
{
    let root = match parse(source, java_file_path) {
        Ok(n) => n,
        Err(e) => {
            return Err(e);
        },
    };
    let r = scan_tree(&root);
    assert(spec_java_node_of(root, spec_java_tree(source@), java_file_path@, source@) && spec_scan_outcome(root, r));
    r
}

} // verus!
