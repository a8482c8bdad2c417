//! A Java file as the file scan reads it: its package and its structure.
use vstd::prelude::*;

use crate::java::parser::java_node::JavaNode;
use crate::java::parser::java_node_type::JavaNodeType;
use crate::java::scanner::file::dto::java_package::{spec_package_nodes, JavaPackage};
use crate::java::scanner::file::dto::java_structure::{spec_scanned_type_of, JavaStructure};

verus! {

/// The last of `children` of the kind `t`, if any.
pub open spec fn spec_last_of_kind(children: Seq<JavaNode>, t: JavaNodeType) -> Option<JavaNode>
    decreases children.len(),
{
    if children.len() == 0 {
        None
    } else if children.last().spec_node_type() == Some(t) {
        Some(children.last())
    } else {
        spec_last_of_kind(children.drop_last(), t)
    }
}

/// The last class, interface or enum declaration among `children`, if any.
pub open spec fn spec_last_declaration(children: Seq<JavaNode>) -> Option<JavaNode>
    decreases children.len(),
{
    if children.len() == 0 {
        None
    } else if spec_scanned_type_of(children.last().spec_node_type()) is Some {
        Some(children.last())
    } else {
        spec_last_declaration(children.drop_last())
    }
}

/// Whether one of `children` is an import declaration.
pub open spec fn spec_has_import(children: Seq<JavaNode>) -> bool {
    exists|i: int| 0 <= i < children.len() && (#[trigger] children[i]).spec_node_type() == Some(JavaNodeType::ImportDecl)
}

/// A Java file as the file scan reads it.
pub struct JavaFile {
    package: JavaPackage,
    structure: JavaStructure,
}

impl JavaFile {
    /// The package of the file, as the pieces of its name.
    pub closed spec fn spec_package(&self) -> Seq<Seq<char>> {
        self.package@
    }

    /// The structure of the file.
    pub closed spec fn spec_structure(&self) -> JavaStructure {
        self.structure
    }

    /// The file whose syntax tree is rooted at `root_node`: the package of its last package
    /// declaration and the structure of its last class, interface or enum declaration. An
    /// error when there is no package declaration, and else when there is no such structure.
    /// (Import declarations are not read.)
    pub fn new(root_node: &JavaNode) -> (r: Result<JavaFile, String>)
        requires
            !spec_has_import(root_node.spec_children()),
        ensures
            match (
                spec_last_of_kind(root_node.spec_children(), JavaNodeType::PackageDecl),
                spec_last_declaration(root_node.spec_children()),
            ) {
                (None, _) => r matches Err(e) && e@ == "Java package not found."@,
                (Some(_), None) => r matches Err(e) && e@ == "Java structure not found."@,
                (Some(p), Some(s)) => r matches Ok(f) && f.spec_package() == spec_package_nodes(p)
                    && f.spec_structure().spec_scans(s),
            },
    {
        let children = root_node.get_children();
        let mut package: Option<JavaPackage> = None;
        let mut structure: Option<JavaStructure> = None;
        let mut i: usize = 0;
        while i < children.len()
            invariant
                i <= children.len(),
                children@ == root_node.spec_children(),
                match spec_last_of_kind(children@.take(i as int), JavaNodeType::PackageDecl) {
                    None => package is None,
                    Some(p) => package matches Some(q) && q@ == spec_package_nodes(p),
                },
                match spec_last_declaration(children@.take(i as int)) {
                    None => structure is None,
                    Some(s) => structure matches Some(t) && t.spec_scans(s),
                },
            decreases children.len() - i,
        {
            proof {
                assert(children@.take(i + 1).drop_last() =~= children@.take(i as int));
                assert(children@.take(i + 1).last() == children@[i as int]);
            }
            let child = &children[i];
            let node_type = child.get_node_type();
            if node_type == Some(JavaNodeType::PackageDecl) {
                package = Some(JavaPackage::new(child));
            } else if node_type == Some(JavaNodeType::ClassDecl) || node_type == Some(
                JavaNodeType::InterfaceDeclaration,
            ) || node_type == Some(JavaNodeType::EnumDeclaration) {
                structure = Some(JavaStructure::new(child));
            }
            i = i + 1;
        }
        proof {
            assert(children@.take(children@.len() as int) =~= children@);
        }
        match package {
            None => Err("Java package not found.".to_owned()),
            Some(package) => match structure {
                None => Err("Java structure not found.".to_owned()),
                Some(structure) => Ok(JavaFile { package, structure }),
            },
        }
    }

    /// The package of the file.
    pub fn get_package(&self) -> (r: &JavaPackage)
        ensures
            r@ == self.spec_package(),
    {
        &self.package
    }
}

} // verus!
