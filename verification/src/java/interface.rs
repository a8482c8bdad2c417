//! A Java interface, known by its scanned file.
use vstd::prelude::*;

use crate::java::annotation_usage::{annotation_views, JavaAnnotationUsage};
use crate::java::dto::java_field::{field_views, JavaField};
use crate::java::dto::java_import::{spec_import_of_file, JavaImport};
use crate::java::dto::java_visibility::JavaVisibility;
use crate::java::method::{method_views, JavaMethod};
use crate::java::scanner::file::java_file::{JavaFile, JavaFileView};
use crate::java::scanner::file::java_structure::JavaStructure;
use crate::java::scanner::file::java_structure_type::JavaStructureType;
use crate::common::path::{spec_parent, spec_path_join, path_join};
use crate::common::file_overwriting::FileOverwriting;
use crate::common::path::spec_last_component;
use crate::java::parser::java_node::JavaNode;
use crate::java::scanner::file::java_file::{spec_first_import_position, spec_method_insertion};
use crate::java::scanner::file::java_structure::{spec_extended_class, spec_resolved_interfaces, spec_structure_imports};
use crate::java::scanner::package::java_package_scanner::spec_package_route_of_dir;
use crate::java::annotation_usage::clone_annotations;
use crate::java::dto::java_field::{clone_fields, JavaFieldView};
use crate::java::dto::java_import::{import_views, JavaImportView};
use crate::java::method::{clone_methods, JavaMethodView};
use crate::java::scanner::file::java_file::{file_views, spec_file_content};
use crate::java::scanner::file::java_structure::JavaStructureView;
use crate::java::scanner::package::java_package_scanner::spec_is_java_root_dir;

verus! {

/// A Java interface.
pub struct JavaInterface {
    scanned_file: JavaFile,
}

impl View for JavaInterface {
    type V = JavaFileView;

    closed spec fn view(&self) -> JavaFileView {
        self.scanned_file@
    }
}

impl Clone for JavaInterface {
    fn clone(&self) -> (r: Self)
        ensures
            r@ == self@,
    {
        proof {
            use_type_invariant(self);
        }
        JavaInterface { scanned_file: self.scanned_file.clone() }
    }
}

impl JavaInterface {
    #[verifier::type_invariant]
    closed spec fn inv(self) -> bool {
        self.scanned_file@.structure.structure_type == JavaStructureType::Interface
    }

    /// A builder with nothing set and package visibility.
    pub fn builder() -> (r: JavaInterfaceBuilder)
        ensures
            r@ == JavaInterfaceBuilder::spec_new(),
    {
        JavaInterfaceBuilder::new_builder()
    }

    /// The interface that a scanned file declares; an error when its main structure is no
    /// interface.
    pub fn from(java_file: JavaFile) -> (r: Result<Self, String>)
        ensures
            r is Ok <==> java_file@.structure.structure_type == JavaStructureType::Interface,
            r matches Ok(x) ==> x@ == java_file@,
            r matches Err(e) ==> e@ == "Expected java interface, found java "@
                + java_file@.structure.structure_type.spec_name(),
    {
        Self::from_java_file(java_file)
    }

    fn from_java_file(java_file: JavaFile) -> (r: Result<Self, String>)
        ensures
            r is Ok <==> java_file@.structure.structure_type == JavaStructureType::Interface,
            r matches Ok(x) ==> x@ == java_file@,
            r matches Err(e) ==> e@ == "Expected java interface, found java "@
                + java_file@.structure.structure_type.spec_name(),
    {
        let structure_type = java_file.get_main_structure_type();
        if structure_type != JavaStructureType::Interface {
            let mut e = "Expected java interface, found java ".to_owned();
            let t = structure_type.to_string();
            e.append(t.as_str());
            return Err(e);
        }
        Ok(JavaInterface { scanned_file: java_file })
    }

    /// The scanned file of the interface.
    pub fn get_scanned_file(&self) -> (r: &JavaFile)
        ensures
            r@ == self@,
    {
        &self.scanned_file
    }

    /// The main structure of the file of the interface.
    pub fn get_structure(&self) -> (r: &JavaStructure)
        ensures
            r@ == self@.structure,
    {
        self.scanned_file.get_structure()
    }

    /// The path of the file of the interface.
    pub fn get_file(&self) -> (r: &str)
        ensures
            r@ == self@.path,
    {
        self.scanned_file.get_file_path()
    }

    /// The import by which other files import the interface.
    pub fn get_self_import(&self) -> (r: JavaImport)
        ensures
            r@ == spec_import_of_file(self@.path),
    {
        self.scanned_file.get_self_import()
    }

    /// The annotations of the interface.
    pub fn get_annotations(&self) -> (r: &Vec<JavaAnnotationUsage>)
        ensures
            annotation_views(r@) == self@.structure.annotations,
    {
        self.get_structure().get_annotations()
    }

    /// The visibility of the interface.
    pub fn get_visibility(&self) -> (r: JavaVisibility)
        ensures
            r == self@.structure.visibility,
    {
        self.get_structure().get_visibility()
    }

    /// The name of the interface.
    pub fn get_name(&self) -> (r: &str)
        ensures
            r@ == self@.structure.name,
    {
        self.get_structure().get_name()
    }

    /// The methods of the interface.
    pub fn get_methods(&self) -> (r: &Vec<JavaMethod>)
        ensures
            method_views(r@) == self@.structure.methods,
    {
        self.get_structure().get_methods()
    }

    /// The fields of the interface.
    pub fn get_fields(&self) -> (r: &Vec<JavaField>)
        ensures
            field_views(r@) == self@.structure.fields,
    {
        self.get_structure().get_fields()
    }

    /// The imports that a file needs for the interface (see `JavaStructure::get_imports`).
    pub fn get_imports(&self, scanned_files: &Vec<JavaFile>) -> (r: Vec<JavaImport>)
        ensures
            import_views(r@) == spec_structure_imports(self@.structure, file_views(scanned_files@)),
    {
        self.get_structure().get_imports(scanned_files)
    }
}

/// What a interface builder holds.
pub struct JavaInterfaceBuilderView {
    pub folder: Option<Seq<char>>,
    pub annotations: Seq<JavaImportView>,
    pub visibility: JavaVisibility,
    pub name: Option<Seq<char>>,
    pub fields: Seq<JavaFieldView>,
    pub methods: Seq<JavaMethodView>,
}

/// A builder of a interface, to be written in a file.
pub struct JavaInterfaceBuilder {
    folder: Option<String>,
    annotations: Vec<JavaAnnotationUsage>,
    visibility: JavaVisibility,
    name: Option<String>,
    fields: Vec<JavaField>,
    methods: Vec<JavaMethod>,
}

impl View for JavaInterfaceBuilder {
    type V = JavaInterfaceBuilderView;

    closed spec fn view(&self) -> JavaInterfaceBuilderView {
        JavaInterfaceBuilderView {
            folder: match self.folder {
                Some(f) => Some(f@),
                None => None,
            },
            annotations: annotation_views(self.annotations@),
            visibility: self.visibility,
            name: match self.name {
                Some(n) => Some(n@),
                None => None,
            },
            fields: field_views(self.fields@),
            methods: method_views(self.methods@),
        }
    }
}

/// The path of the file that a interface named `name` gets in the directory `folder`.
pub open spec fn spec_interface_file(folder: Seq<char>, name: Seq<char>) -> Seq<char> {
    spec_path_join(folder, name + ".java"@)
}

impl JavaInterfaceBuilder {
    /// Nothing set, package visibility.
    pub open spec fn spec_new() -> JavaInterfaceBuilderView {
        JavaInterfaceBuilderView {
            folder: None,
            annotations: Seq::empty(),
            visibility: JavaVisibility::Package,
            name: None,
            fields: Seq::empty(),
            methods: Seq::empty(),
        }
    }

    /// The structure that the builder describes.
    pub open spec fn spec_structure(self) -> JavaStructureView {
        JavaStructureView {
            structure_type: JavaStructureType::Interface,
            body_start_byte: 0,
            body_end_byte: 0,
            annotations: self@.annotations,
            visibility: self@.visibility,
            is_static: false,
                    is_final: false,
                    is_abstract: false,
                    extended_class: Seq::empty(),
                    implemented_interfaces: Seq::empty(),
            name: self@.name->0,
            fields: self@.fields,
            methods: self@.methods,
            substructures: Seq::empty(),
        }
    }

    fn new_builder() -> (r: Self)
        ensures
            r@ == Self::spec_new(),
    {
        let r = JavaInterfaceBuilder {
            folder: None,
            annotations: Vec::new(),
            visibility: JavaVisibility::Package,
            name: None,
            fields: Vec::new(),
            methods: Vec::new(),
        };
        proof {
            assert(annotation_views(r.annotations@) =~= Seq::<JavaImportView>::empty());
            assert(field_views(r.fields@) =~= Seq::<JavaFieldView>::empty());
            assert(method_views(r.methods@) =~= Seq::<JavaMethodView>::empty());


        }
        r
    }

    /// Sets the directory where the interface is written.
    pub fn folder(&mut self, input: &str) -> (ret: &mut Self)
        ensures
            ret@ == (JavaInterfaceBuilderView { folder: Some(input@), ..old(self)@ }),
            *final(self) == *final(ret),
    {
        self.folder = Some(input.to_owned());
        self
    }

    /// Sets the annotations.
    pub fn annotations(&mut self, input: Vec<JavaAnnotationUsage>) -> (ret: &mut Self)
        ensures
            ret@ == (JavaInterfaceBuilderView { annotations: annotation_views(input@), ..old(self)@ }),
            *final(self) == *final(ret),
    {
        self.annotations = input;
        self
    }

    /// Sets the visibility.
    pub fn visibility(&mut self, input: JavaVisibility) -> (ret: &mut Self)
        ensures
            ret@ == (JavaInterfaceBuilderView { visibility: input, ..old(self)@ }),
            *final(self) == *final(ret),
    {
        self.visibility = input;
        self
    }

    /// Sets the name.
    pub fn name(&mut self, input: &str) -> (ret: &mut Self)
        ensures
            ret@ == (JavaInterfaceBuilderView { name: Some(input@), ..old(self)@ }),
            *final(self) == *final(ret),
    {
        self.name = Some(input.to_owned());
        self
    }

    /// Sets the fields.
    pub fn fields(&mut self, input: Vec<JavaField>) -> (ret: &mut Self)
        ensures
            ret@ == (JavaInterfaceBuilderView { fields: field_views(input@), ..old(self)@ }),
            *final(self) == *final(ret),
    {
        self.fields = input;
        self
    }

    /// Sets the methods.
    pub fn methods(&mut self, input: Vec<JavaMethod>) -> (ret: &mut Self)
        ensures
            ret@ == (JavaInterfaceBuilderView { methods: method_views(input@), ..old(self)@ }),
            *final(self) == *final(ret),
    {
        self.methods = input;
        self
    }

    /// The file of the interface: its path in the folder, named after the interface, and its
    /// text; an error when the name or the folder is missing. Whether the folder is a directory
    /// is for the caller to check, before writing. The folder is not the `src/main/java` folder
    /// itself.
    pub fn build(&mut self) -> (r: Result<(String, String), String>)
        requires
            old(self)@.name matches Some(name) && old(self)@.folder matches Some(folder)
                ==> !spec_is_java_root_dir(spec_parent(spec_interface_file(folder, name))),
        ensures
            *final(self) == *old(self),
            r is Ok <==> old(self)@.name is Some && old(self)@.folder is Some,
            old(self)@.name is None ==> (r matches Err(e) && e@ == "Invalid java interface build, name is mandatory. Example:\n"@
                + "JavaInterface::builder()\n\t.folder(/* Mandatory folder */)\n\t.name(/* Interface name */)\n\t.build()"@ + "\n"@),
            old(self)@.name is Some && old(self)@.folder is None ==> (r matches Err(e) && e@
                == "Invalid java interface build, folder is mandatory. Example:\n"@ + "JavaInterface::builder()\n\t.folder(/* Mandatory folder */)\n\t.name(/* Interface name */)\n\t.build()"@ + "\n"@),
            r matches Ok((path, content)) ==> path@ == spec_interface_file(old(self)@.folder->0, old(self)@.name->0)
                && content@ == spec_file_content(path@, old(self).spec_structure(), Seq::<JavaFileView>::empty()),
    {
        let minimal_build_usage = "JavaInterface::builder()\n\t.folder(/* Mandatory folder */)\n\t.name(/* Interface name */)\n\t.build()";
        let name = match &self.name {
            Some(n) => n.clone(),
            None => {
                let mut e = "Invalid java interface build, name is mandatory. Example:\n".to_owned();
                e.append(minimal_build_usage);
                e.append("\n");
                proof {
                    reveal_strlit("JavaInterface::builder()\n\t.folder(/* Mandatory folder */)\n\t.name(/* Interface name */)\n\t.build()");
                }
                return Err(e);
            },
        };
        let folder = match &self.folder {
            Some(f) => f.clone(),
            None => {
                let mut e = "Invalid java interface build, folder is mandatory. Example:\n".to_owned();
                e.append(minimal_build_usage);
                e.append("\n");
                return Err(e);
            },
        };
        let mut file_name = name.clone();
        file_name.append(".java");
        let file = path_join(folder.as_str(), file_name.as_str());
        let mut sb = JavaStructure::builder();
        sb.structure_type(JavaStructureType::Interface);
        sb.annotations(clone_annotations(&self.annotations));
        sb.visibility(self.visibility);
        sb.name(name.as_str());
        sb.fields(clone_fields(&self.fields));
        sb.methods(clone_methods(&self.methods));
        let structure = match sb.build() {
            Ok(s) => s,
            Err(err) => {
                proof {
                    assert(false);
                }
                let mut e = "Invalid java interface \"".to_owned();
                e.append(name.as_str());
                e.append("\" build, ");
                e.append(err.as_str());
                return Err(e);
            },
        };
        let scanned: Vec<JavaFile> = Vec::new();
        let content = JavaFile::file_content(file.as_str(), &structure, &scanned);
        proof {
            assert(structure@ == self.spec_structure());
        }
        Ok((file, content))
    }
}

} // verus!
