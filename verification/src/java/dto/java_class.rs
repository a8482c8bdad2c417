//! A Java class, known by its scanned file.
use vstd::prelude::*;

use crate::java::annotation_usage::{annotation_views, JavaAnnotationUsage};
use crate::java::dto::java_field::{field_views, JavaField};
use crate::java::dto::java_import::{spec_import_of_file, JavaImport};
use crate::java::dto::java_visibility::JavaVisibility;
use crate::java::method::{method_views, JavaMethod};
use crate::java::scanner::file::java_file::{JavaFile, JavaFileView};
use crate::java::scanner::file::java_structure::JavaStructure;
use crate::java::scanner::file::java_structure_type::JavaStructureType;
use crate::common::path::{spec_parent, spec_path_join, path_join};
use crate::common::file_overwriting::FileOverwriting;
use crate::common::path::spec_last_component;
use crate::java::parser::java_node::JavaNode;
use crate::java::scanner::file::java_file::{spec_first_import_position, spec_method_insertion};
use crate::java::scanner::file::java_structure::{spec_extended_class, spec_resolved_interfaces, spec_structure_imports};
use crate::java::scanner::package::java_package_scanner::spec_package_route_of_dir;
use crate::java::annotation_usage::clone_annotations;
use crate::java::dto::java_field::{clone_fields, JavaFieldView};
use crate::java::dto::java_import::{import_views, JavaImportView};
use crate::java::method::{clone_methods, JavaMethodView};
use crate::java::scanner::file::java_file::{file_views, spec_file_content};
use crate::java::scanner::file::java_structure::JavaStructureView;
use crate::java::scanner::package::java_package_scanner::spec_is_java_root_dir;
use crate::java::interface::JavaInterface;

verus! {

/// A Java class.
pub struct JavaClass {
    scanned_file: JavaFile,
}

impl View for JavaClass {
    type V = JavaFileView;

    closed spec fn view(&self) -> JavaFileView {
        self.scanned_file@
    }
}

impl Clone for JavaClass {
    fn clone(&self) -> (r: Self)
        ensures
            r@ == self@,
    {
        proof {
            use_type_invariant(self);
        }
        JavaClass { scanned_file: self.scanned_file.clone() }
    }
}

impl JavaClass {
    #[verifier::type_invariant]
    closed spec fn inv(self) -> bool {
        self.scanned_file@.structure.structure_type == JavaStructureType::Class
    }

    /// A builder with nothing set and package visibility.
    pub fn builder() -> (r: JavaClassBuilder)
        ensures
            r@ == JavaClassBuilder::spec_new(),
    {
        JavaClassBuilder::new_builder()
    }

    /// The class that a scanned file declares; an error when its main structure is no
    /// class.
    pub fn from(java_file: JavaFile) -> (r: Result<Self, String>)
        ensures
            r is Ok <==> java_file@.structure.structure_type == JavaStructureType::Class,
            r matches Ok(x) ==> x@ == java_file@,
            r matches Err(e) ==> e@ == "Expected java class, found java "@
                + java_file@.structure.structure_type.spec_name() + " in file:\n"@ + java_file@.path
                + "\n"@,
    {
        Self::from_java_file(java_file)
    }

    fn from_java_file(java_file: JavaFile) -> (r: Result<Self, String>)
        ensures
            r is Ok <==> java_file@.structure.structure_type == JavaStructureType::Class,
            r matches Ok(x) ==> x@ == java_file@,
            r matches Err(e) ==> e@ == "Expected java class, found java "@
                + java_file@.structure.structure_type.spec_name() + " in file:\n"@ + java_file@.path
                + "\n"@,
    {
        let structure_type = java_file.get_main_structure_type();
        if structure_type != JavaStructureType::Class {
            let mut e = "Expected java class, found java ".to_owned();
            let t = structure_type.to_string();
            e.append(t.as_str());
            e.append(" in file:\n");
            e.append(java_file.get_file_path());
            e.append("\n");
            return Err(e);
        }
        Ok(JavaClass { scanned_file: java_file })
    }

    /// The scanned file of the class.
    pub fn get_scanned_file(&self) -> (r: &JavaFile)
        ensures
            r@ == self@,
    {
        &self.scanned_file
    }

    /// The main structure of the file of the class.
    pub fn get_structure(&self) -> (r: &JavaStructure)
        ensures
            r@ == self@.structure,
    {
        self.scanned_file.get_structure()
    }

    /// The path of the file of the class.
    pub fn get_file(&self) -> (r: &str)
        ensures
            r@ == self@.path,
    {
        self.scanned_file.get_file_path()
    }

    /// The import by which other files import the class.
    pub fn get_self_import(&self) -> (r: JavaImport)
        ensures
            r@ == spec_import_of_file(self@.path),
    {
        self.scanned_file.get_self_import()
    }

    /// The annotations of the class.
    pub fn get_annotations(&self) -> (r: &Vec<JavaAnnotationUsage>)
        ensures
            annotation_views(r@) == self@.structure.annotations,
    {
        self.get_structure().get_annotations()
    }

    /// The visibility of the class.
    pub fn get_visibility(&self) -> (r: JavaVisibility)
        ensures
            r == self@.structure.visibility,
    {
        self.get_structure().get_visibility()
    }

    /// The name of the class.
    pub fn get_name(&self) -> (r: &str)
        ensures
            r@ == self@.structure.name,
    {
        self.get_structure().get_name()
    }

    /// The methods of the class.
    pub fn get_methods(&self) -> (r: &Vec<JavaMethod>)
        ensures
            method_views(r@) == self@.structure.methods,
    {
        self.get_structure().get_methods()
    }

    /// The fields of the class.
    pub fn get_fields(&self) -> (r: &Vec<JavaField>)
        ensures
            field_views(r@) == self@.structure.fields,
    {
        self.get_structure().get_fields()
    }

    /// The edits that insert `method` at the start of the body of the class (see
    /// `JavaFile::insert_method`); `current_root` is the file as parsed now.
    pub fn insert_method(&self, method: &JavaMethod, current_root: &JavaNode) -> (r: Result<FileOverwriting, String>)
        ensures
            ({
                let first = if self@.imports.spec_end_bytes().len() == 0 {
                    spec_first_import_position(current_root.spec_children())
                } else {
                    None
                };
                &&& r is Ok <==> !(self@.imports.spec_end_bytes().len() == 0 && first is None)
                &&& r matches Ok(edits) ==> edits.spec_input_file() == self@.path
                    && edits.spec_edits() == spec_method_insertion(self@, method@, first)
                &&& r matches Err(e) ==> e@
                    == "It was not possible to determine the position of the new java import"@
            }),
    {
        self.scanned_file.insert_method(method, current_root)
    }

    /// The imports that a file needs for the class (see `JavaStructure::get_imports`).
    pub fn get_imports(&self, scanned_files: &Vec<JavaFile>) -> (r: Vec<JavaImport>)
        ensures
            import_views(r@) == spec_structure_imports(self@.structure, file_views(scanned_files@)),
    {
        self.get_structure().get_imports(scanned_files)
    }

    /// The class that the class extends, among the scanned files `scanned_files` (see
    /// `JavaStructure::get_extended_class`).
    pub fn get_extended_class(&self, scanned_files: &Vec<JavaFile>) -> (r: Option<JavaClass>)
        ensures
            match (r, spec_extended_class(self@.structure, file_views(scanned_files@))) {
                (Some(c), Some(f)) => c@ == f,
                (None, None) => true,
                _ => false,
            },
    {
        self.get_structure().get_extended_class(scanned_files)
    }

    /// The interfaces that the class implements, among the scanned files `scanned_files` (see
    /// `JavaStructure::get_implemented_interfaces`).
    pub fn get_implemented_interfaces(&self, scanned_files: &Vec<JavaFile>) -> (r: Vec<JavaInterface>)
        ensures
            r@.map_values(|i: JavaInterface| i@) == spec_resolved_interfaces(
                self@.structure.implemented_interfaces,
                file_views(scanned_files@),
            ),
    {
        self.get_structure().get_implemented_interfaces(scanned_files)
    }

    /// Whether the class is static.
    pub fn is_static(&self) -> (r: bool)
        ensures
            r == self@.structure.is_static,
    {
        self.get_structure().is_static()
    }

    /// Whether the class is abstract.
    pub fn is_abstract(&self) -> (r: bool)
        ensures
            r == self@.structure.is_abstract,
    {
        self.get_structure().is_abstract()
    }

    /// Whether the class is final.
    pub fn is_final(&self) -> (r: bool)
        ensures
            r == self@.structure.is_final,
    {
        self.get_structure().is_final()
    }
}

/// What a class builder holds.
pub struct JavaClassBuilderView {
    pub folder: Option<Seq<char>>,
    pub annotations: Seq<JavaImportView>,
    pub visibility: JavaVisibility,
    pub is_static: bool,
    pub is_abstract: bool,
    pub extended_class: Seq<JavaFileView>,
    pub implemented_interfaces: Seq<JavaFileView>,
    pub name: Option<Seq<char>>,
    pub fields: Seq<JavaFieldView>,
    pub methods: Seq<JavaMethodView>,
}

/// A builder of a class, to be written in a file.
pub struct JavaClassBuilder {
    folder: Option<String>,
    annotations: Vec<JavaAnnotationUsage>,
    visibility: JavaVisibility,
    is_static: bool,
    is_abstract: bool,
    extended_class: Vec<JavaClass>,
    implemented_interfaces: Vec<JavaInterface>,
    name: Option<String>,
    fields: Vec<JavaField>,
    methods: Vec<JavaMethod>,
}

impl View for JavaClassBuilder {
    type V = JavaClassBuilderView;

    closed spec fn view(&self) -> JavaClassBuilderView {
        JavaClassBuilderView {
            folder: match self.folder {
                Some(f) => Some(f@),
                None => None,
            },
            annotations: annotation_views(self.annotations@),
            visibility: self.visibility,
            is_static: self.is_static,
            is_abstract: self.is_abstract,
            extended_class: self.extended_class@.map_values(|c: JavaClass| c@),
            implemented_interfaces: self.implemented_interfaces@.map_values(|i: JavaInterface| i@),
            name: match self.name {
                Some(n) => Some(n@),
                None => None,
            },
            fields: field_views(self.fields@),
            methods: method_views(self.methods@),
        }
    }
}

/// The path of the file that a class named `name` gets in the directory `folder`.
pub open spec fn spec_class_file(folder: Seq<char>, name: Seq<char>) -> Seq<char> {
    spec_path_join(folder, name + ".java"@)
}

impl JavaClassBuilder {
    /// Nothing set, package visibility.
    pub open spec fn spec_new() -> JavaClassBuilderView {
        JavaClassBuilderView {
            folder: None,
            annotations: Seq::empty(),
            visibility: JavaVisibility::Package,
            is_static: false,
            is_abstract: false,
            extended_class: Seq::empty(),
            implemented_interfaces: Seq::empty(),
            name: None,
            fields: Seq::empty(),
            methods: Seq::empty(),
        }
    }

    /// The structure that the builder describes.
    pub open spec fn spec_structure(self) -> JavaStructureView {
        JavaStructureView {
            structure_type: JavaStructureType::Class,
            body_start_byte: 0,
            body_end_byte: 0,
            annotations: self@.annotations,
            visibility: self@.visibility,
            is_static: self@.is_static,
                    is_final: false,
                    is_abstract: self@.is_abstract,
                    extended_class: self@.extended_class.map_values(|c: JavaFileView| spec_import_of_file(c.path)),
                    implemented_interfaces: self@.implemented_interfaces.map_values(
                        |c: JavaFileView| spec_import_of_file(c.path),
                    ),
            name: self@.name->0,
            fields: self@.fields,
            methods: self@.methods,
            substructures: Seq::empty(),
        }
    }

    fn new_builder() -> (r: Self)
        ensures
            r@ == Self::spec_new(),
    {
        let r = JavaClassBuilder {
            folder: None,
            annotations: Vec::new(),
            visibility: JavaVisibility::Package,
            is_static: false,
            is_abstract: false,
            extended_class: Vec::new(),
            implemented_interfaces: Vec::new(),
            name: None,
            fields: Vec::new(),
            methods: Vec::new(),
        };
        proof {
            assert(annotation_views(r.annotations@) =~= Seq::<JavaImportView>::empty());
            assert(field_views(r.fields@) =~= Seq::<JavaFieldView>::empty());
            assert(method_views(r.methods@) =~= Seq::<JavaMethodView>::empty());
            assert(r.extended_class@.map_values(|c: JavaClass| c@) =~= Seq::<JavaFileView>::empty());
            assert(r.implemented_interfaces@.map_values(|c: JavaInterface| c@) =~= Seq::<JavaFileView>::empty());
        }
        r
    }

    /// Sets the directory where the class is written.
    pub fn folder(&mut self, input: &str) -> (ret: &mut Self)
        ensures
            ret@ == (JavaClassBuilderView { folder: Some(input@), ..old(self)@ }),
            *final(self) == *final(ret),
    {
        self.folder = Some(input.to_owned());
        self
    }

    /// Sets the annotations.
    pub fn annotations(&mut self, input: Vec<JavaAnnotationUsage>) -> (ret: &mut Self)
        ensures
            ret@ == (JavaClassBuilderView { annotations: annotation_views(input@), ..old(self)@ }),
            *final(self) == *final(ret),
    {
        self.annotations = input;
        self
    }

    /// Sets the visibility.
    pub fn visibility(&mut self, input: JavaVisibility) -> (ret: &mut Self)
        ensures
            ret@ == (JavaClassBuilderView { visibility: input, ..old(self)@ }),
            *final(self) == *final(ret),
    {
        self.visibility = input;
        self
    }

    /// Sets whether the class is static.
    pub fn is_static(&mut self, input: bool) -> (ret: &mut Self)
        ensures
            ret@ == (JavaClassBuilderView { is_static: input, ..old(self)@ }),
            *final(self) == *final(ret),
    {
        self.is_static = input;
        self
    }

    /// Sets whether the class is abstract.
    pub fn is_abstract(&mut self, input: bool) -> (ret: &mut Self)
        ensures
            ret@ == (JavaClassBuilderView { is_abstract: input, ..old(self)@ }),
            *final(self) == *final(ret),
    {
        self.is_abstract = input;
        self
    }

    /// Sets the class that the class extends.
    pub fn extended_class(&mut self, input: JavaClass) -> (ret: &mut Self)
        ensures
            ret@ == (JavaClassBuilderView { extended_class: seq![input@], ..old(self)@ }),
            *final(self) == *final(ret),
    {
        let mut v: Vec<JavaClass> = Vec::new();
        v.push(input);
        self.extended_class = v;
        proof {
            assert(self.extended_class@.map_values(|c: JavaClass| c@) =~= seq![input@]);
        }
        self
    }

    /// Sets the interfaces that the class implements.
    pub fn implemented_interfaces(&mut self, input: Vec<JavaInterface>) -> (ret: &mut Self)
        ensures
            ret@ == (JavaClassBuilderView { implemented_interfaces: input@.map_values(|i: JavaInterface| i@), ..old(self)@ }),
            *final(self) == *final(ret),
    {
        self.implemented_interfaces = input;
        self
    }

    /// Sets the name.
    pub fn name(&mut self, input: &str) -> (ret: &mut Self)
        ensures
            ret@ == (JavaClassBuilderView { name: Some(input@), ..old(self)@ }),
            *final(self) == *final(ret),
    {
        self.name = Some(input.to_owned());
        self
    }

    /// Sets the fields.
    pub fn fields(&mut self, input: Vec<JavaField>) -> (ret: &mut Self)
        ensures
            ret@ == (JavaClassBuilderView { fields: field_views(input@), ..old(self)@ }),
            *final(self) == *final(ret),
    {
        self.fields = input;
        self
    }

    /// Sets the methods.
    pub fn methods(&mut self, input: Vec<JavaMethod>) -> (ret: &mut Self)
        ensures
            ret@ == (JavaClassBuilderView { methods: method_views(input@), ..old(self)@ }),
            *final(self) == *final(ret),
    {
        self.methods = input;
        self
    }

    /// The file of the class: its path in the folder, named after the class, and its
    /// text; an error when the name or the folder is missing. Whether the folder is a directory
    /// is for the caller to check, before writing. The folder is not the `src/main/java` folder
    /// itself.
    pub fn build(&mut self) -> (r: Result<(String, String), String>)
        requires
            old(self)@.name matches Some(name) && old(self)@.folder matches Some(folder)
                ==> !spec_is_java_root_dir(spec_parent(spec_class_file(folder, name))),
        ensures
            *final(self) == *old(self),
            r is Ok <==> old(self)@.name is Some && old(self)@.folder is Some,
            old(self)@.name is None ==> (r matches Err(e) && e@ == "Invalid java class build, name is mandatory. Example:\n"@
                + "JavaClass::builder()\n\t.folder(/* Mandatory folder */)\n\t.name(/* Class name */)\n\t.build()"@ + "\n"@),
            old(self)@.name is Some && old(self)@.folder is None ==> (r matches Err(e) && e@
                == "Invalid java class build, folder is mandatory. Example:\n"@ + "JavaClass::builder()\n\t.folder(/* Mandatory folder */)\n\t.name(/* Class name */)\n\t.build()"@ + "\n"@),
            r matches Ok((path, content)) ==> path@ == spec_class_file(old(self)@.folder->0, old(self)@.name->0)
                && content@ == spec_file_content(path@, old(self).spec_structure(), old(self)@.extended_class + old(self)@.implemented_interfaces),
    {
        let minimal_build_usage = "JavaClass::builder()\n\t.folder(/* Mandatory folder */)\n\t.name(/* Class name */)\n\t.build()";
        let name = match &self.name {
            Some(n) => n.clone(),
            None => {
                let mut e = "Invalid java class build, name is mandatory. Example:\n".to_owned();
                e.append(minimal_build_usage);
                e.append("\n");
                proof {
                    reveal_strlit("JavaClass::builder()\n\t.folder(/* Mandatory folder */)\n\t.name(/* Class name */)\n\t.build()");
                }
                return Err(e);
            },
        };
        let folder = match &self.folder {
            Some(f) => f.clone(),
            None => {
                let mut e = "Invalid java class build, folder is mandatory. Example:\n".to_owned();
                e.append(minimal_build_usage);
                e.append("\n");
                return Err(e);
            },
        };
        let mut file_name = name.clone();
        file_name.append(".java");
        let file = path_join(folder.as_str(), file_name.as_str());
        let mut sb = JavaStructure::builder();
        sb.structure_type(JavaStructureType::Class);
        sb.annotations(clone_annotations(&self.annotations));
        sb.visibility(self.visibility);
        sb.is_static(self.is_static);
        sb.is_abstract(self.is_abstract);
        let mut extended_imports: Vec<JavaImport> = Vec::new();
        let mut scanned: Vec<JavaFile> = Vec::new();
        let mut i: usize = 0;
        while i < self.extended_class.len()
            invariant
                i <= self.extended_class.len(),
                import_views(extended_imports@) == self.extended_class@.take(i as int).map_values(
                    |c: JavaClass| spec_import_of_file(c@.path),
                ),
                file_views(scanned@) == self.extended_class@.take(i as int).map_values(|c: JavaClass| c@),
            decreases self.extended_class.len() - i,
        {
            let import = self.extended_class[i].get_self_import();
            let f = self.extended_class[i].get_scanned_file().clone();
            let ghost old_e = extended_imports@;
            let ghost old_s = scanned@;
            extended_imports.push(import);
            scanned.push(f);
            proof {
                assert(import_views(extended_imports@) =~= import_views(old_e).push(import@));
                assert(file_views(scanned@) =~= file_views(old_s).push(f@));
                assert(self.extended_class@.take(i + 1).map_values(|c: JavaClass| spec_import_of_file(c@.path))
                    =~= self.extended_class@.take(i as int).map_values(
                    |c: JavaClass| spec_import_of_file(c@.path),
                ).push(spec_import_of_file(self.extended_class@[i as int]@.path)));
                assert(self.extended_class@.take(i + 1).map_values(|c: JavaClass| c@) =~= self.extended_class@.take(
                    i as int,
                ).map_values(|c: JavaClass| c@).push(self.extended_class@[i as int]@));
            }
            i = i + 1;
        }
        proof {
            assert(self.extended_class@.take(self.extended_class@.len() as int) == self.extended_class@);
        }
        let ghost scanned_classes = file_views(scanned@);
        let mut interface_imports: Vec<JavaImport> = Vec::new();
        let mut k: usize = 0;
        while k < self.implemented_interfaces.len()
            invariant
                k <= self.implemented_interfaces.len(),
                import_views(interface_imports@) == self.implemented_interfaces@.take(k as int).map_values(
                    |c: JavaInterface| spec_import_of_file(c@.path),
                ),
                file_views(scanned@) == scanned_classes + self.implemented_interfaces@.take(k as int).map_values(
                    |c: JavaInterface| c@,
                ),
            decreases self.implemented_interfaces.len() - k,
        {
            let import = self.implemented_interfaces[k].get_self_import();
            let f = self.implemented_interfaces[k].get_scanned_file().clone();
            let ghost old_e = interface_imports@;
            let ghost old_s = scanned@;
            interface_imports.push(import);
            scanned.push(f);
            proof {
                assert(import_views(interface_imports@) =~= import_views(old_e).push(import@));
                assert(file_views(scanned@) =~= file_views(old_s).push(f@));
                assert(self.implemented_interfaces@.take(k + 1).map_values(
                    |c: JavaInterface| spec_import_of_file(c@.path),
                ) =~= self.implemented_interfaces@.take(k as int).map_values(
                    |c: JavaInterface| spec_import_of_file(c@.path),
                ).push(spec_import_of_file(self.implemented_interfaces@[k as int]@.path)));
                assert(self.implemented_interfaces@.take(k + 1).map_values(|c: JavaInterface| c@)
                    =~= self.implemented_interfaces@.take(k as int).map_values(|c: JavaInterface| c@).push(
                    self.implemented_interfaces@[k as int]@,
                ));
            }
            k = k + 1;
        }
        proof {
            assert(self.implemented_interfaces@.take(self.implemented_interfaces@.len() as int)
                == self.implemented_interfaces@);
        }
        sb.extended_classes(extended_imports);
        sb.implemented_interfaces(interface_imports);
        sb.name(name.as_str());
        sb.fields(clone_fields(&self.fields));
        sb.methods(clone_methods(&self.methods));
        let structure = match sb.build() {
            Ok(s) => s,
            Err(err) => {
                proof {
                    assert(false);
                }
                let mut e = "Invalid java class \"".to_owned();
                e.append(name.as_str());
                e.append("\" build, ");
                e.append(err.as_str());
                return Err(e);
            },
        };
        
        let content = JavaFile::file_content(file.as_str(), &structure, &scanned);
        proof {
            assert(self@.extended_class.map_values(|c: JavaFileView| spec_import_of_file(c.path))
                =~= self.extended_class@.map_values(|c: JavaClass| spec_import_of_file(c@.path)));
            assert(self@.implemented_interfaces.map_values(|c: JavaFileView| spec_import_of_file(c.path))
                =~= self.implemented_interfaces@.map_values(|c: JavaInterface| spec_import_of_file(c@.path)));
            assert(file_views(scanned@) =~= self@.extended_class + self@.implemented_interfaces);
            assert(structure@ == self.spec_structure());
        }
        Ok((file, content))
    }
}

} // verus!
