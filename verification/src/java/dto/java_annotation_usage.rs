//! The use of an annotation on a Java declaration, known by the import of its type.
use vstd::prelude::*;

use crate::java::dto::java_import::{JavaImport, JavaImportView};
use crate::java::indentation_config::JavaIndentation;
use crate::java::parser::java_node::JavaNode;
use crate::java::scanner::file::java_file_imports::JavaFileImports;

pub use crate::java::annotation_usage::{is_java_node_annotation, is_java_node_annotation_opt};

verus! {

/// The use of an annotation, known by the explicit import of its type.
pub struct JavaAnnotationUsage {
    explicit_import: JavaImport,
}

impl Clone for JavaAnnotationUsage {
    fn clone(&self) -> (r: Self)
        ensures
            r.spec_import() == self.spec_import(),
    {
        JavaAnnotationUsage { explicit_import: self.explicit_import.clone() }
    }
}

impl JavaAnnotationUsage {
    /// The import of the annotation type.
    pub closed spec fn spec_import(&self) -> JavaImportView {
        self.explicit_import@
    }

    /// The name of the annotation type.
    pub open spec fn spec_name(&self) -> Seq<char> {
        self.spec_import().spec_last_node()
    }

    /// A builder with no import set.
    pub fn builder() -> (r: JavaAnnotationUsageBuilder)
        ensures
            r.spec_import() is None,
    {
        JavaAnnotationUsageBuilder::new_builder()
    }

    /// The name of the annotation type.
    pub fn get_name(&self) -> (r: String)
        ensures
            r@ == self.spec_name(),
    {
        self.get_import().get_last_node()
    }

    /// The annotation as written on its own line in a Java file.
    pub fn to_file_string(&self, indentation: &JavaIndentation) -> (r: String)
        ensures
            r@ == indentation.spec_current() + "@"@ + self.spec_name() + "\n"@,
    {
        let mut r = indentation.get_current_indentation();
        r.append("@");
        let name = self.get_name();
        r.append(name.as_str());
        r.append("\n");
        r
    }

    /// The annotation as written in Java (such as `@Service`).
    pub fn to_string(&self) -> (r: String)
        ensures
            r@ == "@"@ + self.spec_name(),
    {
        let mut r = "@".to_owned();
        let name = self.get_name();
        r.append(name.as_str());
        r
    }

    /// The imports that a file needs for the annotation: the annotation type's.
    pub fn get_imports(&self) -> (r: Vec<JavaImport>)
        ensures
            r@.len() == 1,
            r@[0]@ == self.spec_import(),
    {
        let mut r = Vec::new();
        r.push(self.get_import().clone());
        r
    }

    fn get_import(&self) -> (r: &JavaImport)
        ensures
            r@ == self.spec_import(),
    {
        &self.explicit_import
    }

    /// The use of the annotation type imported by `explicit_import`.
    pub fn new(explicit_import: JavaImport) -> (r: JavaAnnotationUsage)
        ensures
            r.spec_import() == explicit_import@,
    {
        JavaAnnotationUsage { explicit_import }
    }

    /// The annotation used at `root_java_node`, with the import that the file declares for the
    /// name in its second child; an error when the node is no annotation, has no name, or the
    /// name is not imported.
    pub fn new_from_java_node(
        root_java_node: &JavaNode,
        file_imports: &JavaFileImports,
        input_java_file: &str,
    ) -> (r: Result<JavaAnnotationUsage, String>)
        ensures
            r is Ok <==> (root_java_node.spec_node_type() matches Some(t)
                && crate::java::annotation_usage::spec_is_annotation(t))
                && root_java_node.spec_children().len() > 1
                && root_java_node.spec_children()[1].spec_content().len() > 0
                && file_imports.spec_get(root_java_node.spec_children()[1].spec_content()) is Some,
            r matches Ok(a) ==> Some(a.spec_import()) == file_imports.spec_get(
                root_java_node.spec_children()[1].spec_content(),
            ),
            r matches Err(e) ==> e@ == if !(root_java_node.spec_node_type() matches Some(t)
                && crate::java::annotation_usage::spec_is_annotation(t)) {
                "Unexpected java annotation \""@ + root_java_node.spec_content() + "\" in file:\n\""@
                    + input_java_file@ + "\"\n"@
            } else if !(root_java_node.spec_children().len() > 1
                && root_java_node.spec_children()[1].spec_content().len() > 0) {
                "Unexpected java annotation name parsing:\n\""@ + root_java_node.spec_content()
                    + "\"in file:\n\""@ + input_java_file@ + "\"\n"@
            } else {
                "Unexpected java annotation \""@ + root_java_node.spec_content()
                    + "\" without import in file:\n\""@ + input_java_file@ + "\"\n"@
            },
    {
        let name_opt = if is_java_node_annotation_opt(&root_java_node.get_node_type_opt()) {
            Self::get_annotation_id(root_java_node)
        } else {
            let mut e = "Unexpected java annotation \"".to_owned();
            let content = root_java_node.get_content();
            e.append(content.as_str());
            e.append("\" in file:\n\"");
            e.append(input_java_file);
            e.append("\"\n");
            return Err(e);
        };
        let result_name = match name_opt {
            Some(n) => n,
            None => {
                let mut e = "Unexpected java annotation name parsing:\n\"".to_owned();
                let content = root_java_node.get_content();
                e.append(content.as_str());
                e.append("\"in file:\n\"");
                e.append(input_java_file);
                e.append("\"\n");
                return Err(e);
            },
        };
        let explicit_import = Self::get_explicit_import(
            root_java_node,
            file_imports,
            input_java_file,
            result_name.as_str(),
        );
        match explicit_import {
            Ok(explicit_import) => Ok(JavaAnnotationUsage { explicit_import }),
            Err(e) => Err(e),
        }
    }

    fn get_explicit_import(
        root_java_node: &JavaNode,
        file_imports: &JavaFileImports,
        input_java_file: &str,
        result_name: &str,
    ) -> (r: Result<JavaImport, String>)
        ensures
            r is Ok <==> file_imports.spec_get(result_name@) is Some,
            r matches Ok(i) ==> file_imports.spec_get(result_name@) == Some(i@),
            r matches Err(e) ==> e@ == "Unexpected java annotation \""@ + root_java_node.spec_content()
                + "\" without import in file:\n\""@ + input_java_file@ + "\"\n"@,
    {
        match file_imports.get_explicit_import(result_name) {
            Ok(explicit_import) => Ok(explicit_import.clone()),
            Err(_) => {
                let mut e = "Unexpected java annotation \"".to_owned();
                let content = root_java_node.get_content();
                e.append(content.as_str());
                e.append("\" without import in file:\n\"");
                e.append(input_java_file);
                e.append("\"\n");
                Err(e)
            },
        }
    }

    fn get_annotation_id(node: &JavaNode) -> (r: Option<String>)
        ensures
            r is Some <==> node.spec_children().len() > 1 && node.spec_children()[1].spec_content().len() > 0,
            r matches Some(s) ==> s@ == node.spec_children()[1].spec_content(),
    {
        let children = node.get_children();
        if children.len() > 1 {
            let content = children[1].get_content();
            if content.as_str().unicode_len() > 0 {
                return Some(content);
            }
        }
        None
    }
}

/// The imports of the annotation types of a sequence of annotation uses.
pub open spec fn annotation_views(v: Seq<JavaAnnotationUsage>) -> Seq<JavaImportView> {
    v.map_values(|a: JavaAnnotationUsage| a.spec_import())
}

/// A copy of each annotation use, in order.
pub fn clone_annotations(v: &Vec<JavaAnnotationUsage>) -> (r: Vec<JavaAnnotationUsage>)
    ensures
        annotation_views(r@) == annotation_views(v@),
{
    let mut r: Vec<JavaAnnotationUsage> = Vec::new();
    let mut i: usize = 0;
    while i < v.len()
        invariant
            i <= v.len(),
            annotation_views(r@) == annotation_views(v@.take(i as int)),
        decreases v.len() - i,
    {
        let ghost old_r = r@;
        let c = v[i].clone();
        r.push(c);
        proof {
            assert(annotation_views(r@) =~= annotation_views(old_r).push(c.spec_import()));
            assert(annotation_views(v@.take(i + 1)) =~= annotation_views(v@.take(i as int)).push(
                v@[i as int].spec_import(),
            ));
        }
        i = i + 1;
    }
    proof {
        assert(v@.take(v@.len() as int) == v@);
    }
    r
}

/// A builder of an annotation use.
pub struct JavaAnnotationUsageBuilder {
    import: Option<JavaImport>,
}

impl JavaAnnotationUsageBuilder {
    pub closed spec fn spec_import(&self) -> Option<JavaImportView> {
        match self.import {
            Some(i) => Some(i@),
            None => None,
        }
    }

    fn new_builder() -> (r: Self)
        ensures
            r.spec_import() is None,
    {
        Self { import: None }
    }

    /// Sets the import of the annotation type, which must be explicit.
    pub fn import(&mut self, input: JavaImport) -> (ret: &mut Self)
        requires
            input@.spec_is_explicit(),
        ensures
            ret.spec_import() == Some(input@),
            *final(self) == *final(ret),
    {
        self.import = Some(input);
        self
    }

    /// The annotation use with the import set.
    pub fn build(&mut self) -> (r: JavaAnnotationUsage)
        requires
            old(self).spec_import() is Some,
        ensures
            Some(r.spec_import()) == old(self).spec_import(),
            final(self).spec_import() == old(self).spec_import(),
    {
        match &self.import {
            Some(i) => JavaAnnotationUsage::new(i.clone()),
            None => {
                proof {
                    assert(false);
                }
                JavaAnnotationUsage::new(JavaImport::new_from_route(""))
            },
        }
    }
}

} // verus!
