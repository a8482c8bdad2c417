//! The use of an annotation (such as `@Service`) on a Java declaration.
use vstd::prelude::*;

use crate::common::file_cache::FileCache;
use crate::java::dto::java_import::{spec_route_import, JavaImport, JavaImportView};
use crate::java::indentation_config::JavaIndentation;
use crate::java::parser::java_node::JavaNode;
use crate::java::parser::java_node_type::JavaNodeType;
use crate::java::scanner::file::java_file_imports::{spec_identifier_error, JavaFileImports};

verus! {

/// The use of an annotation, known by the explicit import of the annotation type.
pub struct JavaAnnotationUsage {
    explicit_import: JavaImport,
}

impl Clone for JavaAnnotationUsage {
    fn clone(&self) -> (r: Self)
        ensures
            r.spec_import() == self.spec_import(),
    {
        JavaAnnotationUsage { explicit_import: self.explicit_import.clone() }
    }
}

impl JavaAnnotationUsage {
    /// The import of the annotation type.
    pub closed spec fn spec_import(&self) -> JavaImportView {
        self.explicit_import@
    }

    /// The name of the annotation type.
    pub open spec fn spec_name(&self) -> Seq<char> {
        self.spec_import().spec_last_node()
    }

    /// A builder with no import set.
    pub fn builder() -> (r: JavaAnnotationUsageBuilder)
        ensures
            r.spec_import_raw() is None,
    {
        JavaAnnotationUsageBuilder::new_builder()
    }

    /// The name of the annotation type (such as `Service`).
    pub fn get_name(&self) -> (r: String)
        ensures
            r@ == self.spec_name(),
    {
        self.get_self_import().get_last_node()
    }

    /// The annotation as written on its own line in a Java file.
    pub fn to_file_string(&self, indentation: &JavaIndentation) -> (r: String)
        ensures
            r@ == indentation.spec_current() + "@"@ + self.spec_name() + "\n"@,
    {
        let mut r = indentation.get_current_indentation();
        r.append("@");
        let name = self.get_name();
        r.append(name.as_str());
        r.append("\n");
        r
    }

    /// The annotation as written in Java (such as `@Service`).
    pub fn to_string(&self) -> (r: String)
        ensures
            r@ == "@"@ + self.spec_name(),
    {
        let mut r = "@".to_owned();
        let name = self.get_name();
        r.append(name.as_str());
        r
    }

    /// The imports that a file needs for the annotation: the annotation type's.
    pub fn get_imports(&self) -> (r: Vec<&JavaImport>)
        ensures
            r@.len() == 1,
            r@[0]@ == self.spec_import(),
    {
        let mut r = Vec::new();
        r.push(self.get_self_import());
        r
    }

    /// The import of the annotation type.
    pub fn get_self_import(&self) -> (r: &JavaImport)
        ensures
            r@ == self.spec_import(),
    {
        &self.explicit_import
    }

    /// The annotation used at `root_java_node`, whose second child names its type, with the
    /// import that the file declares for it; an error when the type is not imported.
    pub fn new_from_java_node_unchecked(
        root_java_node: &JavaNode,
        file_imports: &JavaFileImports,
        java_file_cache: &FileCache,
    ) -> (r: Result<JavaAnnotationUsage, String>)
        requires
            root_java_node.spec_children().len() > 1,
        ensures
            r is Ok <==> file_imports.spec_identifier_import(
                root_java_node.spec_children()[1],
                *java_file_cache,
            ) is Some,
            r matches Ok(a) ==> file_imports.spec_identifier_import(
                root_java_node.spec_children()[1],
                *java_file_cache,
            ) == Some(a.spec_import()),
            r matches Err(e) ==> e@ == spec_identifier_error(root_java_node.spec_children()[1]),
    {
        let id_node = Self::get_annotation_id_node(root_java_node);
        let id_node = match id_node {
            Some(n) => n,
            None => {
                return Err("Expected id".to_owned());
            },
        };
        let explicit_import = file_imports.get_explicit_import_from_identifier(
            id_node,
            java_file_cache,
        );
        match explicit_import {
            Ok(explicit_import) => Ok(JavaAnnotationUsage { explicit_import }),
            Err(e) => Err(e),
        }
    }

    fn get_annotation_id_node(node: &JavaNode) -> (r: Option<&JavaNode>)
        ensures
            node.spec_children().len() > 1 ==> r == Some(&node.spec_children()[1]),
            node.spec_children().len() <= 1 ==> r is None,
    {
        let children = node.get_children();
        if children.len() > 1 {
            Some(&children[1])
        } else {
            None
        }
    }

    pub(crate) fn new(explicit_import: JavaImport) -> (r: JavaAnnotationUsage)
        ensures
            r.spec_import() == explicit_import@,
    {
        JavaAnnotationUsage { explicit_import }
    }
}

/// The imports of the annotation types of a sequence of annotation uses.
pub open spec fn annotation_views(v: Seq<JavaAnnotationUsage>) -> Seq<JavaImportView> {
    v.map_values(|a: JavaAnnotationUsage| a.spec_import())
}

/// A copy of each annotation use, in order.
pub fn clone_annotations(v: &Vec<JavaAnnotationUsage>) -> (r: Vec<JavaAnnotationUsage>)
    ensures
        annotation_views(r@) == annotation_views(v@),
{
    let mut r: Vec<JavaAnnotationUsage> = Vec::new();
    let mut i: usize = 0;
    while i < v.len()
        invariant
            i <= v.len(),
            annotation_views(r@) == annotation_views(v@.take(i as int)),
        decreases v.len() - i,
    {
        let ghost old_r = r@;
        let c = v[i].clone();
        r.push(c);
        proof {
            assert(annotation_views(r@) =~= annotation_views(old_r).push(c.spec_import()));
            assert(annotation_views(v@.take(i + 1)) =~= annotation_views(v@.take(i as int)).push(
                v@[i as int].spec_import(),
            ));
        }
        i = i + 1;
    }
    proof {
        assert(v@.take(v@.len() as int) == v@);
    }
    r
}

/// The imports that a file needs for a sequence of annotation uses, in order.
pub fn annotation_imports(v: &Vec<JavaAnnotationUsage>) -> (r: Vec<JavaImport>)
    ensures
        crate::java::dto::java_import::import_views(r@) == annotation_views(v@),
{
    let mut r: Vec<JavaImport> = Vec::new();
    let mut i: usize = 0;
    while i < v.len()
        invariant
            i <= v.len(),
            crate::java::dto::java_import::import_views(r@) == annotation_views(v@.take(i as int)),
        decreases v.len() - i,
    {
        let ghost old_r = r@;
        let c = v[i].get_self_import().clone();
        r.push(c);
        proof {
            assert(crate::java::dto::java_import::import_views(r@)
                =~= crate::java::dto::java_import::import_views(old_r).push(c@));
            assert(annotation_views(v@.take(i + 1)) =~= annotation_views(v@.take(i as int)).push(
                v@[i as int].spec_import(),
            ));
        }
        i = i + 1;
    }
    proof {
        assert(v@.take(v@.len() as int) == v@);
    }
    r
}

/// Whether the optional kind is an annotation.
pub fn is_java_node_annotation_opt(node_type_opt: &Option<JavaNodeType>) -> (r: bool)
    ensures
        r == (*node_type_opt matches Some(t) && spec_is_annotation(t)),
{
    if let Some(node_type) = node_type_opt {
        return is_java_node_annotation(node_type);
    }
    false
}

/// Whether the kind is an annotation, with or without arguments.
pub open spec fn spec_is_annotation(t: JavaNodeType) -> bool {
    t == JavaNodeType::Annotation || t == JavaNodeType::MarkerAnnotation
}

/// Whether the kind is an annotation, with or without arguments.
pub fn is_java_node_annotation(node_type: &JavaNodeType) -> (r: bool)
    ensures
        r == spec_is_annotation(*node_type),
{
    &JavaNodeType::Annotation == node_type || &JavaNodeType::MarkerAnnotation == node_type
}

/// A builder of an annotation use.
pub struct JavaAnnotationUsageBuilder {
    import_raw: Option<String>,
}

impl JavaAnnotationUsageBuilder {
    pub closed spec fn spec_import_raw(&self) -> Option<Seq<char>> {
        match self.import_raw {
            Some(s) => Some(s@),
            None => None,
        }
    }

    fn new_builder() -> (r: Self)
        ensures
            r.spec_import_raw() is None,
    {
        Self { import_raw: None }
    }

    /// Sets the route of the annotation type (such as `org.springframework.stereotype.Service`).
    pub fn import(&mut self, input: &str) -> (ret: &mut Self)
        ensures
            ret.spec_import_raw() == Some(input@),
            *final(self) == *final(ret),
    {
        self.import_raw = Some(input.to_owned());
        self
    }

    /// The annotation use; an error when no import is set or the import ends with `*`.
    pub fn build(&mut self) -> (r: Result<JavaAnnotationUsage, String>)
        ensures
            *final(self) == *old(self),
            r is Ok <==> (old(self).spec_import_raw() matches Some(route)
                && crate::common::text::spec_split(route, '.').last() != "*"@),
            r matches Ok(a) ==> a.spec_import() == spec_route_import(
                old(self).spec_import_raw()->0,
            ),
            old(self).spec_import_raw() is None ==> (r matches Err(e) && e@
                == "Missing java annotation explicit import"@),
    {
        let import_str = match &self.import_raw {
            Some(s) => s,
            None => {
                return Err("Missing java annotation explicit import".to_owned());
            },
        };
        match JavaImport::new_explicit_import_without_m2_repo_scan(import_str.as_str()) {
            Ok(import) => Ok(JavaAnnotationUsage::new(import)),
            Err(e) => Err(e),
        }
    }
}

} // verus!
