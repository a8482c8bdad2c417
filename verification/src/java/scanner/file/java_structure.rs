//! The main structure that a Java file declares (a class, an interface or an enum): its
//! modifiers, its super class and interfaces, its fields and methods.
use vstd::prelude::*;

use crate::common::file_cache::FileCache;
use crate::common::text::{lemma_occurs_in_extended, lemma_occurs_in_itself, spec_occurs_in};
use crate::java::annotation_usage::{
    annotation_imports, annotation_views, clone_annotations, JavaAnnotationUsage,
};
use crate::java::data_type::JavaDataType;
use crate::java::dto::java_field::{clone_fields, field_views, JavaField, JavaFieldView, spec_field_of};
use crate::java::dto::java_import::{clone_imports, import_views, JavaImport, JavaImportView};
use crate::java::dto::java_visibility::JavaVisibility;
use crate::java::method::{clone_methods, method_views, spec_method_of, JavaMethod, JavaMethodView};
use crate::java::parser::java_node::JavaNode;
use crate::java::parser::java_node_type::JavaNodeType;
use crate::java::scanner::file::java_file_imports::{JavaFileImports, JavaFileImportsView};
use crate::java::scanner::file::java_modifiers::{
    spec_modifiers_fold, spec_modifiers_start, ModifiersScan, ModifiersView,
};
use crate::java::scanner::file::java_structure_type::JavaStructureType;
use crate::java::scanner::file::java_file::{
    file_views, find_file_of_import, spec_file_of_import, JavaFile, JavaFileView,
};
use crate::java::dto::java_class::JavaClass;
use crate::java::dto::java_field::spec_annotation_lines;
use crate::java::dto::java_import::spec_import_of_file;
use crate::java::indentation_config::JavaIndentation;
use crate::java::interface::JavaInterface;

verus! {

/// What a structure holds.
pub struct JavaStructureView {
    pub structure_type: JavaStructureType,
    pub body_start_byte: usize,
    pub body_end_byte: usize,
    pub annotations: Seq<JavaImportView>,
    pub visibility: JavaVisibility,
    pub is_static: bool,
    pub is_final: bool,
    pub is_abstract: bool,
    pub extended_class: Seq<JavaImportView>,
    pub implemented_interfaces: Seq<JavaImportView>,
    pub name: Seq<char>,
    pub fields: Seq<JavaFieldView>,
    pub methods: Seq<JavaMethodView>,
    pub substructures: Seq<JavaStructureView>,
}

/// A Java structure.
pub struct JavaStructure {
    structure_type: JavaStructureType,
    struct_body_start_byte: usize,
    struct_body_end_byte: usize,
    annotations: Vec<JavaAnnotationUsage>,
    visibility: JavaVisibility,
    is_static: bool,
    is_final: bool,
    is_abstract: bool,
    extended_class: Vec<JavaImport>,
    implemented_interfaces: Vec<JavaImport>,
    name: String,
    fields: Vec<JavaField>,
    methods: Vec<JavaMethod>,
    substructures: Vec<JavaStructure>,
}

impl View for JavaStructure {
    type V = JavaStructureView;

    closed spec fn view(&self) -> JavaStructureView {
        self.spec_view()
    }
}

/// What each of `structures` holds, in order.
pub closed spec fn structure_views(structures: Seq<JavaStructure>) -> Seq<JavaStructureView>
    decreases structures, 0int,
{
    if structures.len() == 0 {
        Seq::empty()
    } else {
        structure_views(structures.drop_last()).push(structures.last().spec_view())
    }
}

/// What a list of structures holds after one more structure.
pub proof fn lemma_structure_views_push(structures: Seq<JavaStructure>, s: JavaStructure)
    ensures
        structure_views(structures.push(s)) == structure_views(structures).push(s@),
{
    assert(structures.push(s).drop_last() =~= structures);
}

impl JavaStructure {
    /// What the structure holds, with what its nested structures hold.
    pub closed spec fn spec_view(self) -> JavaStructureView
        decreases self, 1int,
    {
        JavaStructureView {
            structure_type: self.structure_type,
            body_start_byte: self.struct_body_start_byte,
            body_end_byte: self.struct_body_end_byte,
            annotations: annotation_views(self.annotations@),
            visibility: self.visibility,
            is_static: self.is_static,
            is_final: self.is_final,
            is_abstract: self.is_abstract,
            extended_class: import_views(self.extended_class@),
            implemented_interfaces: import_views(self.implemented_interfaces@),
            name: self.name@,
            fields: field_views(self.fields@),
            methods: method_views(self.methods@),
            substructures: structure_views(self.substructures@),
        }
    }

    /// A copy of the structure and of its nested structures.
    fn deep_clone(&self) -> (r: JavaStructure)
        ensures
            r@ == self@,
        decreases self,
    {
        let mut substructures: Vec<JavaStructure> = Vec::new();
        let mut i: usize = 0;
        proof {
            assert(self.substructures@.take(0) =~= Seq::<JavaStructure>::empty());
        }
        while i < self.substructures.len()
            invariant
                i <= self.substructures.len(),
                structure_views(substructures@) == structure_views(self.substructures@.take(i as int)),
            decreases self.substructures.len() - i,
        {
            proof {
                assert(decreases_to!(*self => self.substructures));
                assert(decreases_to!(self.substructures => self.substructures@));
                assert(decreases_to!(self.substructures@ => self.substructures@[i as int]));
            }
            let c = self.substructures[i].deep_clone();
            let ghost before = substructures@;
            substructures.push(c);
            proof {
                lemma_structure_views_push(before, c);
                lemma_structure_views_push(self.substructures@.take(i as int), self.substructures@[i as int]);
                assert(self.substructures@.take(i + 1) =~= self.substructures@.take(i as int).push(
                    self.substructures@[i as int],
                ));
            }
            i = i + 1;
        }
        proof {
            assert(self.substructures@.take(self.substructures@.len() as int) =~= self.substructures@);
        }
        JavaStructure {
            structure_type: self.structure_type,
            struct_body_start_byte: self.struct_body_start_byte,
            struct_body_end_byte: self.struct_body_end_byte,
            annotations: clone_annotations(&self.annotations),
            visibility: self.visibility,
            is_static: self.is_static,
            is_final: self.is_final,
            is_abstract: self.is_abstract,
            extended_class: clone_imports(&self.extended_class),
            implemented_interfaces: clone_imports(&self.implemented_interfaces),
            name: self.name.clone(),
            fields: clone_fields(&self.fields),
            methods: clone_methods(&self.methods),
            substructures,
        }
    }
}

impl Clone for JavaStructure {
    fn clone(&self) -> (r: Self)
        ensures
            r@ == self@,
    {
        self.deep_clone()
    }
}

/// The kind of structure that a declaration node kind declares: class, interface, enum or
/// record.
pub open spec fn spec_structure_type_of(t: Option<JavaNodeType>) -> Option<JavaStructureType> {
    if t == Some(JavaNodeType::ClassDecl) {
        Some(JavaStructureType::Class)
    } else if t == Some(JavaNodeType::InterfaceDeclaration) {
        Some(JavaStructureType::Interface)
    } else if t == Some(JavaNodeType::EnumDeclaration) {
        Some(JavaStructureType::Enum)
    } else if t == Some(JavaNodeType::RecordDeclaration) {
        Some(JavaStructureType::Record)
    } else {
        None
    }
}

/// Whether the kind is the body of a class, an interface or an enum.
pub open spec fn spec_is_structure_body(t: JavaNodeType) -> bool {
    t == JavaNodeType::ClassBody || t == JavaNodeType::InterfaceBody || t == JavaNodeType::EnumBody
}

/// Whether the first of `children` has the kind `t`.
pub open spec fn spec_first_child_is(children: Seq<JavaNode>, t: JavaNodeType) -> bool {
    children.len() > 0 && children[0].spec_node_type() == Some(t)
}

/// Whether the second of `children` has the kind `t`.
pub open spec fn spec_second_child_is(children: Seq<JavaNode>, t: JavaNodeType) -> bool {
    children.len() > 1 && children[1].spec_node_type() == Some(t)
}

/// The import of the class that a `superclass` node names: `extends` followed by a type
/// identifier (plain or scoped) that the file imports.
pub open spec fn spec_super_class(node: JavaNode, file_imports: JavaFileImportsView, cache: FileCache) -> Option<
    JavaImportView,
> {
    let children = node.spec_children();
    if spec_first_child_is(children, JavaNodeType::Extends) && (spec_second_child_is(
        children,
        JavaNodeType::TypeIdentifier,
    ) || spec_second_child_is(children, JavaNodeType::ScopedTypeIdentifier)) {
        file_imports.spec_identifier_import(children[1], cache)
    } else {
        None
    }
}

/// Whether a `super_interfaces` node has the form `implements` followed by an interface type
/// list.
pub open spec fn spec_is_interface_list(node: JavaNode) -> bool {
    spec_first_child_is(node.spec_children(), JavaNodeType::Implements) && spec_second_child_is(
        node.spec_children(),
        JavaNodeType::InterfaceTypeList,
    )
}

/// Whether every child of the interface type list of a `super_interfaces` node names a type
/// that the file imports.
pub open spec fn spec_interfaces_resolvable(node: JavaNode, file_imports: JavaFileImportsView, cache: FileCache) -> bool {
    spec_is_interface_list(node) ==> forall|k: int|
        0 <= k < node.spec_children()[1].spec_children().len()
            ==> #[trigger] file_imports.spec_identifier_import(
            node.spec_children()[1].spec_children()[k],
            cache,
        ) is Some
}

/// The imports of the interfaces that a `super_interfaces` node names; none when it does not
/// have the form `implements` followed by an interface type list.
pub open spec fn spec_interfaces(node: JavaNode, file_imports: JavaFileImportsView, cache: FileCache) -> Seq<
    JavaImportView,
> {
    if spec_is_interface_list(node) {
        node.spec_children()[1].spec_children().map_values(
            |c: JavaNode| file_imports.spec_identifier_import(c, cache)->0,
        )
    } else {
        Seq::empty()
    }
}

/// Whether a structure declaration node can be read: its annotations are named, and the
/// interfaces that it implements are imported.
pub open spec fn spec_structure_readable(root: JavaNode, file_imports: JavaFileImportsView, cache: FileCache) -> bool {
    &&& root.spec_annotations_named()
    &&& forall|i: int|
        0 <= i < root.spec_children().len() && #[trigger] root.spec_children()[i].spec_node_type()
            == Some(JavaNodeType::SuperInterfaces) ==> spec_interfaces_resolvable(
            root.spec_children()[i],
            file_imports,
            cache,
        )
}

/// Whether every child of the interface type list of a `super_interfaces` node names a type
/// that the file imports.
fn interfaces_resolvable(node: &JavaNode, file_imports: &JavaFileImports, cache: &FileCache) -> (r: bool)
    ensures
        r == spec_interfaces_resolvable(*node, file_imports@, *cache),
{
    let children = node.get_children();
    if !(is_first_child_of_type(children, JavaNodeType::Implements) && is_second_child_of_type(
        children,
        JavaNodeType::InterfaceTypeList,
    )) {
        return true;
    }
    let list = children[1].get_children();
    let mut k: usize = 0;
    while k < list.len()
        invariant
            k <= list.len(),
            spec_is_interface_list(*node),
            list@ == node.spec_children()[1].spec_children(),
            forall|j: int| 0 <= j < k ==> #[trigger] file_imports@.spec_identifier_import(list@[j], *cache) is Some,
        decreases list.len() - k,
    {
        if file_imports.get_explicit_import_from_identifier(&list[k], cache).is_err() {
            proof {
                assert(file_imports@.spec_identifier_import(node.spec_children()[1].spec_children()[k as int], *cache) is None);
            }
            return false;
        }
        k = k + 1;
    }
    true
}

/// Whether a structure declaration node can be read: its annotations are named, and the
/// interfaces that it implements are imported.
pub fn is_readable(root: &JavaNode, file_imports: &JavaFileImports, cache: &FileCache) -> (r: bool)
    ensures
        r == spec_structure_readable(*root, file_imports@, *cache),
{
    if !root.has_named_annotations() {
        return false;
    }
    let children = root.get_children();
    let mut i: usize = 0;
    while i < children.len()
        invariant
            i <= children.len(),
            children@ == root.spec_children(),
            forall|j: int|
                0 <= j < i && #[trigger] children@[j].spec_node_type() == Some(JavaNodeType::SuperInterfaces)
                    ==> spec_interfaces_resolvable(children@[j], file_imports@, *cache),
        decreases children.len() - i,
    {
        if children[i].get_node_type() == Some(JavaNodeType::SuperInterfaces) {
            if !interfaces_resolvable(&children[i], file_imports, cache) {
                return false;
            }
        }
        i = i + 1;
    }
    true
}

/// What has been read of a structure declaration so far.
pub struct StructureScanView {
    pub modifiers: ModifiersView,
    pub name: Option<Seq<char>>,
    pub extended_class: Seq<JavaImportView>,
    pub implemented_interfaces: Seq<JavaImportView>,
    pub fields: Seq<JavaFieldView>,
    pub methods: Seq<JavaMethodView>,
    pub body_start_byte: Option<usize>,
    pub body_end_byte: Option<usize>,
}

/// One child of a structure body read: a field, a method (each kept when valid), or a brace.
pub open spec fn spec_body_child_step(
    s: StructureScanView,
    c: JavaNode,
    file_imports: JavaFileImportsView,
    cache: FileCache,
) -> StructureScanView {
    match c.spec_node_type() {
        Some(t) => if t == JavaNodeType::FieldDeclaration {
            match spec_field_of(c, file_imports) {
                Some(f) => StructureScanView { fields: s.fields.push(f), ..s },
                None => s,
            }
        } else if t == JavaNodeType::MethodDecl {
            match spec_method_of(c, file_imports, cache) {
                Some(m) => StructureScanView { methods: s.methods.push(m), ..s },
                None => s,
            }
        } else if t == JavaNodeType::LBrace {
            StructureScanView { body_start_byte: Some(c.spec_end_byte()), ..s }
        } else if t == JavaNodeType::RBrace {
            StructureScanView { body_end_byte: Some(c.spec_start_byte()), ..s }
        } else {
            s
        },
        None => s,
    }
}

/// The children of a structure body read in order.
pub open spec fn spec_body_fold(
    s: StructureScanView,
    cs: Seq<JavaNode>,
    file_imports: JavaFileImportsView,
    cache: FileCache,
) -> StructureScanView
    decreases cs.len(),
{
    if cs.len() == 0 {
        s
    } else {
        spec_body_child_step(spec_body_fold(s, cs.drop_last(), file_imports, cache), cs.last(), file_imports, cache)
    }
}

/// One child of a structure declaration read: its modifiers, its name, its super class, its
/// interfaces, or its body.
pub open spec fn spec_structure_child_step(
    s: StructureScanView,
    c: JavaNode,
    file_imports: JavaFileImportsView,
    cache: FileCache,
) -> StructureScanView {
    match c.spec_node_type() {
        Some(t) => if t == JavaNodeType::Modifiers {
            StructureScanView {
                modifiers: spec_modifiers_fold(s.modifiers, c.spec_children(), file_imports, cache),
                ..s
            }
        } else if t == JavaNodeType::Id {
            StructureScanView { name: Some(c.spec_content()), ..s }
        } else if t == JavaNodeType::Superclass {
            match spec_super_class(c, file_imports, cache) {
                Some(i) => StructureScanView { extended_class: s.extended_class.push(i), ..s },
                None => s,
            }
        } else if t == JavaNodeType::SuperInterfaces {
            StructureScanView { implemented_interfaces: spec_interfaces(c, file_imports, cache), ..s }
        } else if spec_is_structure_body(t) {
            spec_body_fold(s, c.spec_children(), file_imports, cache)
        } else {
            s
        },
        None => s,
    }
}

/// The children of a structure declaration read in order.
pub open spec fn spec_structure_scan(children: Seq<JavaNode>, file_imports: JavaFileImportsView, cache: FileCache) -> StructureScanView
    decreases children.len(),
{
    if children.len() == 0 {
        StructureScanView {
            modifiers: spec_modifiers_start(),
            name: None,
            extended_class: Seq::empty(),
            implemented_interfaces: Seq::empty(),
            fields: Seq::empty(),
            methods: Seq::empty(),
            body_start_byte: None,
            body_end_byte: None,
        }
    } else {
        spec_structure_child_step(
            spec_structure_scan(children.drop_last(), file_imports, cache),
            children.last(),
            file_imports,
            cache,
        )
    }
}

/// The structures declared by the first `n` children of `root`: of its children that are
/// class, interface, enum or record declarations, those that can be read (see
/// `spec_structure_readable`) and declare a structure, in order.
pub open spec fn spec_nested_structures(root: JavaNode, n: nat, file_imports: JavaFileImportsView, cache: FileCache) -> Seq<
    JavaStructureView,
>
    decreases root.spec_height(), 0int, n,
{
    if n == 0 || n > root.spec_children().len() {
        Seq::empty()
    } else {
        let c = root.spec_children()[n - 1];
        let rest = spec_nested_structures(root, (n - 1) as nat, file_imports, cache);
        proof {
            root.lemma_child_height(n - 1);
        }
        if spec_structure_type_of(c.spec_node_type()) is Some && spec_structure_readable(c, file_imports, cache) {
            match spec_structure_of(c, file_imports, cache) {
                Some(v) => rest.push(v),
                None => rest,
            }
        } else {
            rest
        }
    }
}

/// The structure that a declaration node declares, if it is a class, interface or enum
/// declaration with a name and a body with both braces, with the structures declared by
/// its children.
pub open spec fn spec_structure_of(root: JavaNode, file_imports: JavaFileImportsView, cache: FileCache) -> Option<
    JavaStructureView,
>
    decreases root.spec_height(), 1int, 0int,
{
    let s = spec_structure_scan(root.spec_children(), file_imports, cache);
    match (spec_structure_type_of(root.spec_node_type()), s.name, s.body_start_byte, s.body_end_byte) {
        (Some(t), Some(name), Some(start), Some(end)) => Some(
            JavaStructureView {
                structure_type: t,
                body_start_byte: start,
                body_end_byte: end,
                annotations: s.modifiers.annotations,
                visibility: s.modifiers.visibility,
                is_static: s.modifiers.is_static,
                is_final: s.modifiers.is_final,
                is_abstract: s.modifiers.is_abstract,
                extended_class: s.extended_class,
                implemented_interfaces: s.implemented_interfaces,
                name,
                fields: s.fields,
                methods: s.methods,
                substructures: spec_nested_structures(root, root.spec_children().len(), file_imports, cache),
            },
        ),
        _ => None,
    }
}

/// Why a declaration node declares no structure: the first of its kind, its name and its body
/// braces that is missing.
pub open spec fn spec_structure_error(root: JavaNode, file_imports: JavaFileImportsView, cache: FileCache) -> Seq<
    char,
> {
    let s = spec_structure_scan(root.spec_children(), file_imports, cache);
    if spec_structure_type_of(root.spec_node_type()) is None {
        "Invalid structure type"@
    } else if s.name is None {
        "Invalid structure name"@
    } else if s.body_start_byte is None {
        "Body structure start not found"@
    } else {
        "Body structure end not found"@
    }
}

impl JavaStructure {
    /// A builder with nothing set, public visibility and no modifier.
    pub fn builder() -> (r: JavaStructureBuilder)
        ensures
            r@ == JavaStructureBuilder::spec_new(),
    {
        JavaStructureBuilder::new_builder()
    }

    /// The structure that a declaration node declares; an error when it is no class, interface
    /// or enum declaration, or has no name or no body braces. Annotations whose type is not
    /// imported, super classes that are not imported, and invalid fields and methods are left
    /// out.
    pub fn new(root_struct_decl_node: &JavaNode, file_imports: &JavaFileImports, file_cache: &FileCache) -> (r: Result<
        Self,
        String,
    >)
        requires
            spec_structure_readable(*root_struct_decl_node, file_imports@, *file_cache),
        ensures
            r is Ok <==> spec_structure_of(*root_struct_decl_node, file_imports@, *file_cache) is Some,
            r matches Ok(s) ==> spec_structure_of(*root_struct_decl_node, file_imports@, *file_cache)
                == Some(s@),
            r matches Err(e) ==> e@ == spec_structure_error(*root_struct_decl_node, file_imports@, *file_cache),
    {
        new_structure_internal(root_struct_decl_node, file_imports, file_cache)
    }

    /// The kind of the structure.
    pub fn get_type(&self) -> (r: JavaStructureType)
        ensures
            r == self@.structure_type,
    {
        self.structure_type
    }

    /// The byte just past the opening brace of the body.
    pub fn get_start_byte(&self) -> (r: usize)
        ensures
            r == self@.body_start_byte,
    {
        self.struct_body_start_byte
    }

    /// The annotations of the structure.
    pub fn get_annotations(&self) -> (r: &Vec<JavaAnnotationUsage>)
        ensures
            annotation_views(r@) == self@.annotations,
    {
        &self.annotations
    }

    /// The visibility of the structure.
    pub fn get_visibility(&self) -> (r: JavaVisibility)
        ensures
            r == self@.visibility,
    {
        self.visibility
    }

    /// Whether the structure is static.
    pub fn is_static(&self) -> (r: bool)
        ensures
            r == self@.is_static,
    {
        self.is_static
    }

    /// Whether the structure is final.
    pub fn is_final(&self) -> (r: bool)
        ensures
            r == self@.is_final,
    {
        self.is_final
    }

    /// Whether the structure is abstract.
    pub fn is_abstract(&self) -> (r: bool)
        ensures
            r == self@.is_abstract,
    {
        self.is_abstract
    }

    /// The name of the structure.
    pub fn get_name(&self) -> (r: &str)
        ensures
            r@ == self@.name,
    {
        self.name.as_str()
    }

    /// The imports of the classes that the structure extends.
    pub fn get_extended_class_imports(&self) -> (r: &Vec<JavaImport>)
        ensures
            import_views(r@) == self@.extended_class,
    {
        &self.extended_class
    }

    /// The imports of the interfaces that the structure implements.
    pub fn get_implemented_interfaces_imports(&self) -> (r: &Vec<JavaImport>)
        ensures
            import_views(r@) == self@.implemented_interfaces,
    {
        &self.implemented_interfaces
    }

    /// The fields of the structure.
    pub fn get_fields(&self) -> (r: &Vec<JavaField>)
        ensures
            field_views(r@) == self@.fields,
    {
        &self.fields
    }

    /// The methods of the structure.
    pub fn get_methods(&self) -> (r: &Vec<JavaMethod>)
        ensures
            method_views(r@) == self@.methods,
    {
        &self.methods
    }
}


/// The class that the structure extends, among the scanned files `files`: the file of the
/// first extended class import, when it declares a class.
pub open spec fn spec_extended_class(v: JavaStructureView, files: Seq<JavaFileView>) -> Option<JavaFileView> {
    if v.extended_class.len() > 0 {
        match spec_file_of_import(files, v.extended_class[0]) {
            Some(f) => if f.structure.structure_type == JavaStructureType::Class {
                Some(f)
            } else {
                None
            },
            None => None,
        }
    } else {
        None
    }
}

/// The interfaces that the structure implements, among the scanned files `files`: the file of
/// each interface import, in order, when it declares an interface.
pub open spec fn spec_resolved_interfaces(imports: Seq<JavaImportView>, files: Seq<JavaFileView>) -> Seq<
    JavaFileView,
>
    decreases imports.len(),
{
    if imports.len() == 0 {
        Seq::empty()
    } else {
        spec_resolved_interfaces(imports.drop_last(), files) + match spec_file_of_import(
            files,
            imports.last(),
        ) {
            Some(f) => if f.structure.structure_type == JavaStructureType::Interface {
                seq![f]
            } else {
                Seq::empty()
            },
            None => Seq::empty(),
        }
    }
}

/// The imports that a file needs for the fields, in order.
pub open spec fn spec_fields_imports(fs: Seq<JavaFieldView>) -> Seq<JavaImportView>
    decreases fs.len(),
{
    if fs.len() == 0 {
        Seq::empty()
    } else {
        spec_fields_imports(fs.drop_last()) + fs.last().spec_imports()
    }
}

/// The imports that a file needs for the methods, in order.
pub open spec fn spec_methods_imports(ms: Seq<JavaMethodView>) -> Seq<JavaImportView>
    decreases ms.len(),
{
    if ms.len() == 0 {
        Seq::empty()
    } else {
        spec_methods_imports(ms.drop_last()) + ms.last().spec_imports()
    }
}

/// The imports that a file needs for the structure: those of its annotations, of the class it
/// extends and of the interfaces it implements (as found among `files`), of its fields, and of
/// its methods.
pub open spec fn spec_structure_imports(v: JavaStructureView, files: Seq<JavaFileView>) -> Seq<JavaImportView> {
    v.annotations + match spec_extended_class(v, files) {
        Some(c) => seq![spec_import_of_file(c.path)],
        None => Seq::empty(),
    } + spec_resolved_interfaces(v.implemented_interfaces, files).map_values(
        |f: JavaFileView| spec_import_of_file(f.path),
    ) + spec_fields_imports(v.fields) + spec_methods_imports(v.methods)
}

/// The names of the structures of `files`, separated by `, `.
pub open spec fn spec_names_list(files: Seq<JavaFileView>) -> Seq<char>
    decreases files.len(),
{
    if files.len() == 0 {
        Seq::empty()
    } else if files.len() == 1 {
        files[0].structure.name
    } else {
        spec_names_list(files.drop_last()) + ", "@ + files.last().structure.name
    }
}

/// The modifiers and the keyword of the structure, as written in its declaration.
pub open spec fn spec_visibility_str(v: JavaStructureView) -> Seq<char> {
    v.visibility.spec_file_string() + (if v.is_static {
        "static "@
    } else {
        Seq::empty()
    }) + (if v.is_final {
        "final "@
    } else {
        Seq::empty()
    }) + (if v.is_abstract {
        "abstract "@
    } else {
        Seq::empty()
    }) + v.structure_type.spec_keyword()
}

/// The `extends` and `implements` clauses of the structure, with the names of the class and
/// interfaces found among `files`.
pub open spec fn spec_extensions_str(v: JavaStructureView, files: Seq<JavaFileView>) -> Seq<char> {
    (match spec_extended_class(v, files) {
        Some(c) => " extends "@ + c.structure.name,
        None => Seq::empty(),
    }) + (if spec_resolved_interfaces(v.implemented_interfaces, files).len() > 0 {
        " implements "@ + spec_names_list(spec_resolved_interfaces(v.implemented_interfaces, files))
    } else {
        Seq::empty()
    })
}

/// The declaration of the structure up to its body: its annotations, one per line, its
/// modifiers and keyword, its name, and its `extends` and `implements` clauses.
pub open spec fn spec_skeleton(v: JavaStructureView, files: Seq<JavaFileView>) -> Seq<char> {
    spec_annotation_lines(v.annotations, Seq::empty()) + spec_visibility_str(v) + v.name
        + spec_extensions_str(v, files)
}

/// The fields as written in a body at the indentation `indent`, separated by empty lines.
pub open spec fn spec_fields_str(fs: Seq<JavaFieldView>, indent: Seq<char>) -> Seq<char>
    decreases fs.len(),
{
    if fs.len() == 0 {
        Seq::empty()
    } else if fs.len() == 1 {
        fs[0].spec_str(indent)
    } else {
        spec_fields_str(fs.drop_last(), indent) + "\n"@ + fs.last().spec_str(indent)
    }
}

/// The methods as written in a body at the indentation `indent`, separated by empty lines.
pub open spec fn spec_methods_str(ms: Seq<JavaMethodView>, indent: Seq<char>) -> Seq<char>
    decreases ms.len(),
{
    if ms.len() == 0 {
        Seq::empty()
    } else if ms.len() == 1 {
        ms[0].spec_str(indent)
    } else {
        spec_methods_str(ms.drop_last(), indent) + "\n"@ + ms.last().spec_str(indent)
    }
}

/// The body of the structure: its fields, then its methods after an empty line, one level
/// deep, between braces.
pub open spec fn spec_body(v: JavaStructureView) -> Seq<char> {
    " {\n"@ + spec_fields_str(v.fields, "    "@) + (if v.methods.len() > 0 {
        "\n"@
    } else {
        Seq::empty()
    }) + spec_methods_str(v.methods, "    "@) + "}\n"@
}

/// Every field's text stands in the written fields.
proof fn lemma_every_field_written(fs: Seq<JavaFieldView>, indent: Seq<char>, i: int)
    requires
        0 <= i < fs.len(),
    ensures
        spec_occurs_in(fs[i].spec_str(indent), spec_fields_str(fs, indent)),
    decreases fs.len(),
{
    if fs.len() == 1 {
        lemma_occurs_in_itself(fs[0].spec_str(indent));
    } else {
        let init = fs.drop_last();
        if i < fs.len() - 1 {
            lemma_every_field_written(init, indent, i);
            assert(init[i] == fs[i]);
            lemma_occurs_in_extended(fs[i].spec_str(indent), spec_fields_str(init, indent), "\n"@);
            lemma_occurs_in_extended(
                fs[i].spec_str(indent),
                spec_fields_str(init, indent) + "\n"@,
                fs.last().spec_str(indent),
            );
        } else {
            lemma_occurs_in_itself(fs.last().spec_str(indent));
            lemma_occurs_in_extended(
                fs.last().spec_str(indent),
                fs.last().spec_str(indent),
                spec_fields_str(init, indent) + "\n"@,
            );
        }
    }
}

/// The body of a structure holds the text of each of its fields, one level deep.
pub proof fn law_body_writes_every_field(v: JavaStructureView, i: int)
    requires
        0 <= i < v.fields.len(),
    ensures
        spec_occurs_in(v.fields[i].spec_str("    "@), spec_body(v)),
{
    let f = v.fields[i].spec_str("    "@);
    let fields = spec_fields_str(v.fields, "    "@);
    let gap = if v.methods.len() > 0 {
        "\n"@
    } else {
        Seq::<char>::empty()
    };
    lemma_every_field_written(v.fields, "    "@, i);
    lemma_occurs_in_extended(f, fields, " {\n"@);
    lemma_occurs_in_extended(f, " {\n"@ + fields, gap);
    lemma_occurs_in_extended(f, " {\n"@ + fields + gap, spec_methods_str(v.methods, "    "@));
    lemma_occurs_in_extended(f, " {\n"@ + fields + gap + spec_methods_str(v.methods, "    "@), "}\n"@);
}

impl JavaStructure {
    /// The class that the structure extends, among the scanned files `scanned_files`: the file
    /// of the first extended class import, when it declares a class.
    pub fn get_extended_class(&self, scanned_files: &Vec<JavaFile>) -> (r: Option<JavaClass>)
        ensures
            match (r, spec_extended_class(self@, file_views(scanned_files@))) {
                (Some(c), Some(f)) => c@ == f,
                (None, None) => true,
                _ => false,
            },
    {
        if self.extended_class.len() == 0 {
            return None;
        }
        proof {
            assert(import_views(self.extended_class@)[0] == self.extended_class@[0]@);
        }
        match find_file_of_import(scanned_files, &self.extended_class[0]) {
            Some(f) => match JavaClass::from(f.clone()) {
                Ok(c) => Some(c),
                Err(_) => None,
            },
            None => None,
        }
    }

    /// The interfaces that the structure implements, among the scanned files `scanned_files`:
    /// the file of each interface import, in order, when it declares an interface.
    pub fn get_implemented_interfaces(&self, scanned_files: &Vec<JavaFile>) -> (r: Vec<JavaInterface>)
        ensures
            r@.map_values(|i: JavaInterface| i@) == spec_resolved_interfaces(
                self@.implemented_interfaces,
                file_views(scanned_files@),
            ),
    {
        let mut result: Vec<JavaInterface> = Vec::new();
        let ghost imports = import_views(self.implemented_interfaces@);
        let mut i: usize = 0;
        while i < self.implemented_interfaces.len()
            invariant
                i <= self.implemented_interfaces.len(),
                imports == import_views(self.implemented_interfaces@),
                result@.map_values(|x: JavaInterface| x@) == spec_resolved_interfaces(
                    imports.take(i as int),
                    file_views(scanned_files@),
                ),
            decreases self.implemented_interfaces.len() - i,
        {
            proof {
                assert(imports.take(i + 1).drop_last() =~= imports.take(i as int));
                assert(imports.take(i + 1).last() == self.implemented_interfaces@[i as int]@);
            }
            let ghost before = result@;
            match find_file_of_import(scanned_files, &self.implemented_interfaces[i]) {
                Some(f) => match JavaInterface::from(f.clone()) {
                    Ok(x) => {
                        result.push(x);
                        proof {
                            assert(result@.map_values(|x: JavaInterface| x@) =~= before.map_values(
                                |x: JavaInterface| x@,
                            ).push(x@));
                        }
                    },
                    Err(_) => {
                        proof {
                            assert(result@ == before);
                        }
                    },
                },
                None => {},
            }
            proof {
                assert(result@.map_values(|x: JavaInterface| x@) =~= spec_resolved_interfaces(
                    imports.take(i + 1),
                    file_views(scanned_files@),
                ));
            }
            i = i + 1;
        }
        proof {
            assert(imports.take(imports.len() as int) =~= imports);
        }
        result
    }

    /// The imports that a file needs for the structure: those of its annotations, of the class
    /// it extends and of the interfaces it implements (as found among `scanned_files`), of its
    /// fields, and of its methods.
    pub fn get_imports(&self, scanned_files: &Vec<JavaFile>) -> (r: Vec<JavaImport>)
        ensures
            import_views(r@) == spec_structure_imports(self@, file_views(scanned_files@)),
    {
        let mut imports = annotation_imports(&self.annotations);
        if let Some(extended_class) = self.get_extended_class(scanned_files) {
            let import = extended_class.get_self_import();
            let ghost old_i = imports@;
            imports.push(import);
            proof {
                assert(import_views(imports@) =~= import_views(old_i).push(import@));
            }
        }
        let interfaces = self.get_implemented_interfaces(scanned_files);
        let ghost base1 = import_views(imports@);
        let ghost ifs = interfaces@.map_values(|x: JavaInterface| x@);
        let mut i: usize = 0;
        while i < interfaces.len()
            invariant
                i <= interfaces.len(),
                ifs == interfaces@.map_values(|x: JavaInterface| x@),
                import_views(imports@) == base1 + ifs.take(i as int).map_values(
                    |f: JavaFileView| spec_import_of_file(f.path),
                ),
            decreases interfaces.len() - i,
        {
            let import = interfaces[i].get_self_import();
            let ghost old_i = imports@;
            imports.push(import);
            proof {
                assert(import_views(imports@) =~= import_views(old_i).push(import@));
                assert(ifs.take(i + 1).map_values(|f: JavaFileView| spec_import_of_file(f.path))
                    =~= ifs.take(i as int).map_values(|f: JavaFileView| spec_import_of_file(f.path)).push(
                    spec_import_of_file(ifs[i as int].path),
                ));
            }
            i = i + 1;
        }
        proof {
            assert(ifs.take(ifs.len() as int) =~= ifs);
        }
        let ghost base2 = import_views(imports@);
        let ghost fs = field_views(self.fields@);
        let mut j: usize = 0;
        while j < self.fields.len()
            invariant
                j <= self.fields.len(),
                fs == field_views(self.fields@),
                import_views(imports@) == base2 + spec_fields_imports(fs.take(j as int)),
            decreases self.fields.len() - j,
        {
            let field_imports = self.fields[j].get_imports();
            proof {
                assert(fs.take(j + 1).drop_last() =~= fs.take(j as int));
                assert(fs.take(j + 1).last() == self.fields@[j as int]@);
            }
            append_imports(&mut imports, field_imports);
            proof {
                assert(import_views(imports@) =~= base2 + spec_fields_imports(fs.take(j + 1)));
            }
            j = j + 1;
        }
        proof {
            assert(fs.take(fs.len() as int) =~= fs);
        }
        let ghost base3 = import_views(imports@);
        let ghost ms = method_views(self.methods@);
        let mut k: usize = 0;
        while k < self.methods.len()
            invariant
                k <= self.methods.len(),
                ms == method_views(self.methods@),
                import_views(imports@) == base3 + spec_methods_imports(ms.take(k as int)),
            decreases self.methods.len() - k,
        {
            let method_imports = self.methods[k].get_imports();
            proof {
                assert(ms.take(k + 1).drop_last() =~= ms.take(k as int));
                assert(ms.take(k + 1).last() == self.methods@[k as int]@);
            }
            append_imports(&mut imports, method_imports);
            proof {
                assert(import_views(imports@) =~= base3 + spec_methods_imports(ms.take(k + 1)));
            }
            k = k + 1;
        }
        proof {
            assert(ms.take(ms.len() as int) =~= ms);
            assert(import_views(imports@) =~= spec_structure_imports(self@, file_views(scanned_files@)));
        }
        imports
    }

    /// The imports that a file needs for the structure, sorted by route in ascending order.
    pub fn get_imports_sorted_asc(&self, scanned_files: &Vec<JavaFile>) -> (r: Vec<JavaImport>)
        ensures
            import_views(r@) == crate::java::scanner::file::java_file_imports::spec_sorted_imports(
                spec_structure_imports(self@, file_views(scanned_files@)),
            ),
    {
        crate::java::scanner::file::java_file_imports::get_sorted_asc(self.get_imports(scanned_files))
    }

    /// The declaration of the structure up to its body: its annotations, one per line, its
    /// modifiers and keyword, its name, and its `extends` and `implements` clauses (with the
    /// class and interfaces found among `scanned_files`).
    pub fn get_skeleton_without_imports(&self, scanned_files: &Vec<JavaFile>) -> (r: String)
        ensures
            r@ == spec_skeleton(self@, file_views(scanned_files@)),
    {
        let mut result = String::new();
        self.write_annotations(&mut result);
        self.write_visibility(&mut result);
        result.append(self.name.as_str());
        self.write_extensions_and_implementations(&mut result, scanned_files);
        proof {
            assert(result@ =~= spec_skeleton(self@, file_views(scanned_files@)));
        }
        result
    }

    fn write_annotations(&self, result: &mut String)
        ensures
            final(result)@ == old(result)@ + spec_annotation_lines(self@.annotations, Seq::empty()),
    {
        let indentation = JavaIndentation::default();
        let ghost start = result@;
        proof {
            assert(indentation.spec_current() =~= Seq::<char>::empty());
        }
        let mut i: usize = 0;
        while i < self.annotations.len()
            invariant
                i <= self.annotations.len(),
                indentation.spec_current() == Seq::<char>::empty(),
                result@ == start + spec_annotation_lines(
                    annotation_views(self.annotations@.take(i as int)),
                    Seq::empty(),
                ),
            decreases self.annotations.len() - i,
        {
            proof {
                let a = annotation_views(self.annotations@.take(i + 1));
                assert(a.drop_last() =~= annotation_views(self.annotations@.take(i as int)));
                assert(a.last() == self.annotations@[i as int].spec_import());
            }
            let s = self.annotations[i].to_file_string(&indentation);
            result.append(s.as_str());
            i = i + 1;
        }
        proof {
            assert(self.annotations@.take(self.annotations@.len() as int) == self.annotations@);
        }
    }

    fn write_visibility(&self, result: &mut String)
        ensures
            final(result)@ == old(result)@ + spec_visibility_str(self@),
    {
        let ghost start = result@;
        let v = self.visibility.as_file_string();
        result.append(v.as_str());
        if self.is_static {
            result.append("static ");
        }
        if self.is_final {
            result.append("final ");
        }
        if self.is_abstract {
            result.append("abstract ");
        }
        let k = self.structure_type.keyword();
        result.append(k.as_str());
        proof {
            assert(result@ =~= start + spec_visibility_str(self@));
        }
    }

    fn write_extensions_and_implementations(&self, result: &mut String, scanned_files: &Vec<JavaFile>)
        ensures
            final(result)@ == old(result)@ + spec_extensions_str(self@, file_views(scanned_files@)),
    {
        let ghost start = result@;
        if let Some(extension) = self.get_extended_class(scanned_files) {
            result.append(" extends ");
            result.append(extension.get_name());
        }
        let ghost mid = result@;
        let interfaces = self.get_implemented_interfaces(scanned_files);
        let ghost ifs = interfaces@.map_values(|x: JavaInterface| x@);
        if interfaces.len() > 0 {
            result.append(" implements ");
            let ghost base = result@;
            let mut i: usize = 0;
            while i < interfaces.len()
                invariant
                    i <= interfaces.len(),
                    ifs == interfaces@.map_values(|x: JavaInterface| x@),
                    result@ == base + spec_names_list(ifs.take(i as int)),
                decreases interfaces.len() - i,
            {
                proof {
                    assert(ifs.take(i + 1).drop_last() =~= ifs.take(i as int));
                    assert(ifs.take(i + 1).last() == interfaces@[i as int]@);
                    if i == 0 {
                        assert(ifs.take(1)[0] == interfaces@[0]@);
                    }
                }
                if i > 0 {
                    result.append(", ");
                }
                result.append(interfaces[i].get_name());
                i = i + 1;
            }
            proof {
                assert(ifs.take(ifs.len() as int) =~= ifs);
            }
        }
        proof {
            assert(result@ =~= start + spec_extensions_str(self@, file_views(scanned_files@)));
        }
    }

    /// Appends to `result` the body of the structure: its fields, then its methods after an
    /// empty line, one level deep, between braces.
    pub fn write_body(&self, result: &mut String)
        ensures
            final(result)@ == old(result)@ + spec_body(self@),
    {
        let ghost start = result@;
        result.append(" {\n");
        let mut java_indentation = JavaIndentation::default();
        java_indentation.increase_level();
        proof {
            reveal_with_fuel(crate::common::text::spec_repeat, 2);
            assert(java_indentation.spec_current() =~= "    "@);
        }
        let ghost after_open = result@;
        let mut i: usize = 0;
        while i < self.fields.len()
            invariant
                i <= self.fields.len(),
                java_indentation.spec_current() == "    "@,
                java_indentation.spec_level() == 1,
                java_indentation.spec_base() == "    "@,
                result@ == after_open + spec_fields_str(field_views(self.fields@.take(i as int)), "    "@),
            decreases self.fields.len() - i,
        {
            proof {
                let f = field_views(self.fields@.take(i + 1));
                assert(f.drop_last() =~= field_views(self.fields@.take(i as int)));
                assert(f.last() == self.fields@[i as int]@);
                if i == 0 {
                    assert(f[0] == self.fields@[0]@);
                }
            }
            if i > 0 {
                result.append("\n");
            }
            let s = self.fields[i].get_str(&java_indentation);
            result.append(s.as_str());
            i = i + 1;
        }
        proof {
            assert(self.fields@.take(self.fields@.len() as int) == self.fields@);
        }
        if self.methods.len() > 0 {
            result.append("\n");
        }
        let ghost before_methods = result@;
        let mut k: usize = 0;
        while k < self.methods.len()
            invariant
                k <= self.methods.len(),
                java_indentation.spec_current() == "    "@,
                java_indentation.spec_level() == 1,
                java_indentation.spec_base() == "    "@,
                result@ == before_methods + spec_methods_str(method_views(self.methods@.take(k as int)), "    "@),
            decreases self.methods.len() - k,
        {
            proof {
                let m = method_views(self.methods@.take(k + 1));
                assert(m.drop_last() =~= method_views(self.methods@.take(k as int)));
                assert(m.last() == self.methods@[k as int]@);
                if k == 0 {
                    assert(m[0] == self.methods@[0]@);
                }
            }
            if k > 0 {
                result.append("\n");
            }
            self.methods[k].write_to_string(result, &java_indentation);
            k = k + 1;
        }
        proof {
            assert(self.methods@.take(self.methods@.len() as int) == self.methods@);
        }
        java_indentation.decrease_level();
        let closing = java_indentation.get_current_indentation();
        proof {
            assert(closing@ =~= Seq::<char>::empty());
        }
        result.append(closing.as_str());
        result.append("}\n");
        proof {
            assert(result@ =~= start + spec_body(self@));
        }
    }
}

/// Appends `more` to `imports`.
fn append_imports(imports: &mut Vec<JavaImport>, more: Vec<JavaImport>)
    ensures
        import_views(final(imports)@) == import_views(old(imports)@) + import_views(more@),
{
    let ghost start = import_views(imports@);
    let mut i: usize = 0;
    while i < more.len()
        invariant
            i <= more.len(),
            import_views(imports@) == start + import_views(more@).take(i as int),
        decreases more.len() - i,
    {
        let ghost old_i = imports@;
        let c = more[i].clone();
        imports.push(c);
        proof {
            assert(import_views(imports@) =~= import_views(old_i).push(c@));
            assert(import_views(more@).take(i + 1) =~= import_views(more@).take(i as int).push(more@[i as int]@));
        }
        i = i + 1;
    }
    proof {
        assert(import_views(more@).take(more@.len() as int) =~= import_views(more@));
    }
}

fn get_java_structure_type(node_type_opt: Option<JavaNodeType>) -> (r: Option<JavaStructureType>)
    ensures
        r == spec_structure_type_of(node_type_opt),
{
    if let Some(node_type) = node_type_opt {
        if JavaNodeType::ClassDecl == node_type {
            return Some(JavaStructureType::Class);
        } else if JavaNodeType::InterfaceDeclaration == node_type {
            return Some(JavaStructureType::Interface);
        } else if JavaNodeType::EnumDeclaration == node_type {
            return Some(JavaStructureType::Enum);
        } else if JavaNodeType::RecordDeclaration == node_type {
            return Some(JavaStructureType::Record);
        }
    }
    None
}

fn is_structure_body(structure_node_type: &JavaNodeType) -> (r: bool)
    ensures
        r == spec_is_structure_body(*structure_node_type),
{
    &JavaNodeType::ClassBody == structure_node_type || &JavaNodeType::InterfaceBody
        == structure_node_type || &JavaNodeType::EnumBody == structure_node_type
}

fn is_first_child_of_type(children: &Vec<JavaNode>, node_type: JavaNodeType) -> (r: bool)
    ensures
        r == spec_first_child_is(children@, node_type),
{
    children.len() > 0 && children[0].get_node_type() == Some(node_type)
}

fn is_second_child_of_type(children: &Vec<JavaNode>, node_type: JavaNodeType) -> (r: bool)
    ensures
        r == spec_second_child_is(children@, node_type),
{
    children.len() > 1 && children[1].get_node_type() == Some(node_type)
}

fn is_second_child_an_extended_class_id(children: &Vec<JavaNode>) -> (r: bool)
    ensures
        r == (spec_first_child_is(children@, JavaNodeType::Extends) && (spec_second_child_is(
            children@,
            JavaNodeType::TypeIdentifier,
        ) || spec_second_child_is(children@, JavaNodeType::ScopedTypeIdentifier))),
{
    is_first_child_of_type(children, JavaNodeType::Extends) && (is_second_child_of_type(
        children,
        JavaNodeType::TypeIdentifier,
    ) || is_second_child_of_type(children, JavaNodeType::ScopedTypeIdentifier))
}

/// The import of the class that a `superclass` node names, if the file imports it.
fn extract_super_class(file_imports: &JavaFileImports, input_java_file_cache: &FileCache, child_node: &JavaNode) -> (r:
    Option<JavaImport>)
    ensures
        r matches Some(i) ==> spec_super_class(*child_node, file_imports@, *input_java_file_cache) == Some(i@),
        r is None ==> spec_super_class(*child_node, file_imports@, *input_java_file_cache) is None,
{
    let children = child_node.get_children();
    if !is_second_child_an_extended_class_id(children) {
        return None;
    }
    match JavaDataType::from_data_type_identifier_with_import(
        &children[1],
        file_imports,
        input_java_file_cache,
    ) {
        Ok(data_type) => data_type.get_import_opt(),
        Err(_) => None,
    }
}

/// The imports of the interfaces that a `super_interfaces` node names.
fn extract_interfaces(super_interfaces_node: &JavaNode, file_imports: &JavaFileImports, input_java_file_cache: &FileCache) -> (r:
    Vec<JavaImport>)
    requires
        spec_interfaces_resolvable(*super_interfaces_node, file_imports@, *input_java_file_cache),
    ensures
        import_views(r@) == spec_interfaces(*super_interfaces_node, file_imports@, *input_java_file_cache),
{
    let mut result: Vec<JavaImport> = Vec::new();
    let children = super_interfaces_node.get_children();
    if is_first_child_of_type(children, JavaNodeType::Implements) && is_second_child_of_type(
        children,
        JavaNodeType::InterfaceTypeList,
    ) {
        let list = children[1].get_children();
        let ghost expected = spec_interfaces(*super_interfaces_node, file_imports@, *input_java_file_cache);
        let mut k: usize = 0;
        while k < list.len()
            invariant
                k <= list.len(),
                list@ == super_interfaces_node.spec_children()[1].spec_children(),
                spec_is_interface_list(*super_interfaces_node),
                spec_interfaces_resolvable(*super_interfaces_node, file_imports@, *input_java_file_cache),
                expected == spec_interfaces(*super_interfaces_node, file_imports@, *input_java_file_cache),
                import_views(result@) == expected.take(k as int),
            decreases list.len() - k,
        {
            let data_type = JavaDataType::from_data_type_identifier_with_import(
                &list[k],
                file_imports,
                input_java_file_cache,
            );
            proof {
                assert(file_imports.spec_identifier_import(list@[k as int], *input_java_file_cache) is Some);
            }
            match data_type {
                Ok(d) => {
                    match d.get_import_opt() {
                        Some(import) => {
                            let ghost old_r = result@;
                            result.push(import);
                            proof {
                                assert(import_views(result@) =~= import_views(old_r).push(import@));
                                assert(expected.take(k + 1) =~= expected.take(k as int).push(expected[k as int]));
                            }
                        },
                        None => {
                            proof {
                                assert(false);
                            }
                        },
                    }
                },
                Err(_) => {
                    proof {
                        assert(false);
                    }
                },
            }
            k = k + 1;
        }
        proof {
            assert(expected.take(list@.len() as int) =~= expected);
        }
        return result;
    }
    proof {
        assert(import_views(result@) =~= Seq::<JavaImportView>::empty());
    }
    result
}

/// What has been read of a structure declaration so far.
struct StructureScan {
    modifiers: ModifiersScan,
    name: Option<String>,
    extended_class: Vec<JavaImport>,
    implemented_interfaces: Vec<JavaImport>,
    fields: Vec<JavaField>,
    methods: Vec<JavaMethod>,
    body_start_byte: Option<usize>,
    body_end_byte: Option<usize>,
}

impl StructureScan {
    closed spec fn view(&self) -> StructureScanView {
        StructureScanView {
            modifiers: self.modifiers.view(),
            name: match self.name {
                Some(n) => Some(n@),
                None => None,
            },
            extended_class: import_views(self.extended_class@),
            implemented_interfaces: import_views(self.implemented_interfaces@),
            fields: field_views(self.fields@),
            methods: method_views(self.methods@),
            body_start_byte: self.body_start_byte,
            body_end_byte: self.body_end_byte,
        }
    }

    fn read_body_child(&mut self, c: &JavaNode, file_imports: &JavaFileImports, cache: &FileCache)
        requires
            c.spec_annotations_named(),
        ensures
            final(self).view() == spec_body_child_step(old(self).view(), *c, file_imports@, *cache),
    {
        if let Some(body_node_type) = c.get_node_type() {
            if JavaNodeType::FieldDeclaration == body_node_type {
                match JavaField::new(c, file_imports, cache.get_path()) {
                    Ok(field) => {
                        let ghost old_f = self.fields@;
                        self.fields.push(field);
                        proof {
                            assert(field_views(self.fields@) =~= field_views(old_f).push(field@));
                        }
                    },
                    Err(_) => {},
                }
            } else if JavaNodeType::MethodDecl == body_node_type {
                match JavaMethod::new_from_node(c, file_imports, cache) {
                    Ok(method) => {
                        let ghost old_m = self.methods@;
                        self.methods.push(method);
                        proof {
                            assert(method_views(self.methods@) =~= method_views(old_m).push(method@));
                        }
                    },
                    Err(_) => {},
                }
            } else if JavaNodeType::LBrace == body_node_type {
                self.body_start_byte = Some(c.get_end_byte());
            } else if JavaNodeType::RBrace == body_node_type {
                self.body_end_byte = Some(c.get_start_byte());
            }
        }
    }

    fn read_body(&mut self, body: &JavaNode, file_imports: &JavaFileImports, cache: &FileCache)
        requires
            body.spec_annotations_named(),
        ensures
            final(self).view() == spec_body_fold(old(self).view(), body.spec_children(), file_imports@, *cache),
    {
        proof {
            body.lemma_annotations_named();
        }
        let cs = body.get_children();
        let ghost start = self.view();
        let mut i: usize = 0;
        while i < cs.len()
            invariant
                i <= cs.len(),
                cs@ == body.spec_children(),
                forall|j: int| 0 <= j < cs@.len() ==> #[trigger] cs@[j].spec_annotations_named(),
                self.view() == spec_body_fold(start, cs@.take(i as int), file_imports@, *cache),
            decreases cs.len() - i,
        {
            proof {
                assert(cs@.take(i + 1).drop_last() == cs@.take(i as int));
                assert(cs@.take(i + 1).last() == cs@[i as int]);
            }
            self.read_body_child(&cs[i], file_imports, cache);
            i = i + 1;
        }
        proof {
            assert(cs@.take(cs@.len() as int) == cs@);
        }
    }
}

fn new_structure_internal(root_node: &JavaNode, file_imports: &JavaFileImports, java_file_cache: &FileCache) -> (r:
    Result<JavaStructure, String>)
    requires
        spec_structure_readable(*root_node, file_imports@, *java_file_cache),
    ensures
        r is Ok <==> spec_structure_of(*root_node, file_imports@, *java_file_cache) is Some,
        r matches Ok(s) ==> spec_structure_of(*root_node, file_imports@, *java_file_cache) == Some(s@),
        r matches Err(e) ==> e@ == spec_structure_error(*root_node, file_imports@, *java_file_cache),
    decreases root_node.spec_height(),
{
    proof {
        root_node.lemma_annotations_named();
    }
    let structure_type_opt = get_java_structure_type(root_node.get_node_type());
    let children = root_node.get_children();
    let mut s = StructureScan {
        modifiers: ModifiersScan::new(),
        name: None,
        extended_class: Vec::new(),
        implemented_interfaces: Vec::new(),
        fields: Vec::new(),
        methods: Vec::new(),
        body_start_byte: None,
        body_end_byte: None,
    };
    proof {
        assert(import_views(s.extended_class@) =~= Seq::<JavaImportView>::empty());
        assert(import_views(s.implemented_interfaces@) =~= Seq::<JavaImportView>::empty());
        assert(field_views(s.fields@) =~= Seq::<JavaFieldView>::empty());
        assert(method_views(s.methods@) =~= Seq::<JavaMethodView>::empty());
        assert(children@.take(0) =~= Seq::<JavaNode>::empty());
    }
    let mut substructures: Vec<JavaStructure> = Vec::new();
    proof {
        assert(structure_views(substructures@) == Seq::<JavaStructureView>::empty());
    }
    let mut i: usize = 0;
    while i < children.len()
        invariant
            i <= children.len(),
            children@ == root_node.spec_children(),
            forall|j: int| 0 <= j < children@.len() ==> #[trigger] children@[j].spec_annotations_named(),
            spec_structure_readable(*root_node, file_imports@, *java_file_cache),
            s.view() == spec_structure_scan(children@.take(i as int), file_imports@, *java_file_cache),
            structure_views(substructures@) == spec_nested_structures(
                *root_node,
                i as nat,
                file_imports@,
                *java_file_cache,
            ),
        decreases children.len() - i,
    {
        proof {
            assert(children@.take(i + 1).drop_last() == children@.take(i as int));
            assert(children@.take(i + 1).last() == children@[i as int]);
        }
        let child_node = &children[i];
        if let Some(structure_node_type) = child_node.get_node_type() {
            if JavaNodeType::Modifiers == structure_node_type {
                s.modifiers.read_modifiers(child_node, file_imports, java_file_cache);
            } else if JavaNodeType::Id == structure_node_type {
                s.name = Some(child_node.get_content_from_cache(java_file_cache));
            } else if JavaNodeType::Superclass == structure_node_type {
                if let Some(import) = extract_super_class(file_imports, java_file_cache, child_node) {
                    let ghost old_e = s.extended_class@;
                    s.extended_class.push(import);
                    proof {
                        assert(import_views(s.extended_class@) =~= import_views(old_e).push(import@));
                    }
                }
            } else if JavaNodeType::SuperInterfaces == structure_node_type {
                proof {
                    assert(children@[i as int].spec_node_type() == Some(JavaNodeType::SuperInterfaces));
                }
                s.implemented_interfaces = extract_interfaces(child_node, file_imports, java_file_cache);
            } else if is_structure_body(&structure_node_type) {
                s.read_body(child_node, file_imports, java_file_cache);
            } else if get_java_structure_type(Some(structure_node_type)).is_some() {
                if is_readable(child_node, file_imports, java_file_cache) {
                    proof {
                        root_node.lemma_child_height(i as int);
                    }
                    match new_structure_internal(child_node, file_imports, java_file_cache) {
                        Ok(sub) => {
                            let ghost before = substructures@;
                            substructures.push(sub);
                            proof {
                                lemma_structure_views_push(before, sub);
                            }
                        },
                        Err(_) => {},
                    }
                }
            }
        }
        i = i + 1;
    }
    proof {
        assert(children@.take(children@.len() as int) == children@);
    }
    let structure_type = match structure_type_opt {
        Some(t) => t,
        None => {
            return Err("Invalid structure type".to_owned());
        },
    };
    let name = match s.name {
        Some(n) => n,
        None => {
            return Err("Invalid structure name".to_owned());
        },
    };
    let struct_body_start_byte = match s.body_start_byte {
        Some(b) => b,
        None => {
            return Err("Body structure start not found".to_owned());
        },
    };
    let struct_body_end_byte = match s.body_end_byte {
        Some(b) => b,
        None => {
            return Err("Body structure end not found".to_owned());
        },
    };
    Ok(
        JavaStructure {
            structure_type,
            struct_body_start_byte,
            struct_body_end_byte,
            annotations: s.modifiers.annotations,
            visibility: s.modifiers.visibility,
            is_static: s.modifiers.is_static,
            is_final: s.modifiers.is_final,
            is_abstract: s.modifiers.is_abstract,
            extended_class: s.extended_class,
            implemented_interfaces: s.implemented_interfaces,
            name,
            fields: s.fields,
            methods: s.methods,
            substructures,
        },
    )
}

/// What a structure builder holds.
pub struct JavaStructureBuilderView {
    pub structure_type: Option<JavaStructureType>,
    pub annotations: Seq<JavaImportView>,
    pub visibility: JavaVisibility,
    pub is_static: bool,
    pub is_final: bool,
    pub is_abstract: bool,
    pub extended_class: Seq<JavaImportView>,
    pub implemented_interfaces: Seq<JavaImportView>,
    pub name: Option<Seq<char>>,
    pub fields: Seq<JavaFieldView>,
    pub methods: Seq<JavaMethodView>,
}

/// A builder of a structure.
pub struct JavaStructureBuilder {
    structure_type: Option<JavaStructureType>,
    annotations: Vec<JavaAnnotationUsage>,
    visibility: JavaVisibility,
    is_static: bool,
    is_final: bool,
    is_abstract: bool,
    extended_class: Vec<JavaImport>,
    implemented_interfaces: Vec<JavaImport>,
    name: Option<String>,
    fields: Vec<JavaField>,
    methods: Vec<JavaMethod>,
}

impl View for JavaStructureBuilder {
    type V = JavaStructureBuilderView;

    closed spec fn view(&self) -> JavaStructureBuilderView {
        JavaStructureBuilderView {
            structure_type: self.structure_type,
            annotations: annotation_views(self.annotations@),
            visibility: self.visibility,
            is_static: self.is_static,
            is_final: self.is_final,
            is_abstract: self.is_abstract,
            extended_class: import_views(self.extended_class@),
            implemented_interfaces: import_views(self.implemented_interfaces@),
            name: match self.name {
                Some(n) => Some(n@),
                None => None,
            },
            fields: field_views(self.fields@),
            methods: method_views(self.methods@),
        }
    }
}

impl JavaStructureBuilder {
    /// Nothing set, public visibility and no modifier.
    pub open spec fn spec_new() -> JavaStructureBuilderView {
        JavaStructureBuilderView {
            structure_type: None,
            annotations: Seq::empty(),
            visibility: JavaVisibility::Public,
            is_static: false,
            is_final: false,
            is_abstract: false,
            extended_class: Seq::empty(),
            implemented_interfaces: Seq::empty(),
            name: None,
            fields: Seq::empty(),
            methods: Seq::empty(),
        }
    }

    fn new_builder() -> (r: Self)
        ensures
            r@ == Self::spec_new(),
    {
        let r = Self {
            structure_type: None,
            annotations: Vec::new(),
            visibility: JavaVisibility::Public,
            is_static: false,
            is_final: false,
            is_abstract: false,
            extended_class: Vec::new(),
            implemented_interfaces: Vec::new(),
            name: None,
            fields: Vec::new(),
            methods: Vec::new(),
        };
        proof {
            assert(annotation_views(r.annotations@) =~= Seq::<JavaImportView>::empty());
            assert(import_views(r.extended_class@) =~= Seq::<JavaImportView>::empty());
            assert(import_views(r.implemented_interfaces@) =~= Seq::<JavaImportView>::empty());
            assert(field_views(r.fields@) =~= Seq::<JavaFieldView>::empty());
            assert(method_views(r.methods@) =~= Seq::<JavaMethodView>::empty());
        }
        r
    }

    /// Sets the kind of structure.
    pub fn structure_type(&mut self, input: JavaStructureType) -> (ret: &mut Self)
        ensures
            ret@ == (JavaStructureBuilderView { structure_type: Some(input), ..old(self)@ }),
            *final(self) == *final(ret),
    {
        self.structure_type = Some(input);
        self
    }

    /// Sets the annotations.
    pub fn annotations(&mut self, input: Vec<JavaAnnotationUsage>) -> (ret: &mut Self)
        ensures
            ret@ == (JavaStructureBuilderView { annotations: annotation_views(input@), ..old(self)@ }),
            *final(self) == *final(ret),
    {
        self.annotations = clone_annotations(&input);
        self
    }

    /// Sets the visibility.
    pub fn visibility(&mut self, input: JavaVisibility) -> (ret: &mut Self)
        ensures
            ret@ == (JavaStructureBuilderView { visibility: input, ..old(self)@ }),
            *final(self) == *final(ret),
    {
        self.visibility = input;
        self
    }

    /// Sets whether the structure is static.
    pub fn is_static(&mut self, input: bool) -> (ret: &mut Self)
        ensures
            ret@ == (JavaStructureBuilderView { is_static: input, ..old(self)@ }),
            *final(self) == *final(ret),
    {
        self.is_static = input;
        self
    }

    /// Sets whether the structure is final.
    pub fn is_final(&mut self, input: bool) -> (ret: &mut Self)
        ensures
            ret@ == (JavaStructureBuilderView { is_final: input, ..old(self)@ }),
            *final(self) == *final(ret),
    {
        self.is_final = input;
        self
    }

    /// Sets whether the structure is abstract.
    pub fn is_abstract(&mut self, input: bool) -> (ret: &mut Self)
        ensures
            ret@ == (JavaStructureBuilderView { is_abstract: input, ..old(self)@ }),
            *final(self) == *final(ret),
    {
        self.is_abstract = input;
        self
    }

    /// Sets the imports of the classes that the structure extends.
    pub fn extended_classes(&mut self, input: Vec<JavaImport>) -> (ret: &mut Self)
        ensures
            ret@ == (JavaStructureBuilderView { extended_class: import_views(input@), ..old(self)@ }),
            *final(self) == *final(ret),
    {
        self.extended_class = input;
        self
    }

    /// Sets the imports of the interfaces that the structure implements.
    pub fn implemented_interfaces(&mut self, input: Vec<JavaImport>) -> (ret: &mut Self)
        ensures
            ret@ == (JavaStructureBuilderView {
                implemented_interfaces: import_views(input@),
                ..old(self)@
            }),
            *final(self) == *final(ret),
    {
        self.implemented_interfaces = input;
        self
    }

    /// Sets the name.
    pub fn name(&mut self, input: &str) -> (ret: &mut Self)
        ensures
            ret@ == (JavaStructureBuilderView { name: Some(input@), ..old(self)@ }),
            *final(self) == *final(ret),
    {
        self.name = Some(input.to_owned());
        self
    }

    /// Sets the fields.
    pub fn fields(&mut self, input: Vec<JavaField>) -> (ret: &mut Self)
        ensures
            ret@ == (JavaStructureBuilderView { fields: field_views(input@), ..old(self)@ }),
            *final(self) == *final(ret),
    {
        self.fields = input;
        self
    }

    /// Sets the methods.
    pub fn methods(&mut self, input: Vec<JavaMethod>) -> (ret: &mut Self)
        ensures
            ret@ == (JavaStructureBuilderView { methods: method_views(input@), ..old(self)@ }),
            *final(self) == *final(ret),
    {
        self.methods = input;
        self
    }

    /// The structure set so far, with no body bytes; an error when the name or the kind is
    /// missing.
    pub fn build(&self) -> (r: Result<JavaStructure, String>)
        ensures
            r is Ok <==> self@.name is Some && self@.structure_type is Some,
            self@.name is None ==> (r matches Err(e) && e@ == "Structure name is mandatory"@),
            self@.name is Some && self@.structure_type is None ==> (r matches Err(e) && e@
                == "Structure type is mandatory"@),
            r matches Ok(s) ==> s@ == (JavaStructureView {
                structure_type: self@.structure_type->0,
                body_start_byte: 0,
                body_end_byte: 0,
                annotations: self@.annotations,
                visibility: self@.visibility,
                is_static: self@.is_static,
                is_final: self@.is_final,
                is_abstract: self@.is_abstract,
                extended_class: self@.extended_class,
                implemented_interfaces: self@.implemented_interfaces,
                name: self@.name->0,
                fields: self@.fields,
                methods: self@.methods,
                substructures: Seq::empty(),
            }),
    {
        let name = match &self.name {
            Some(n) => n.clone(),
            None => {
                return Err("Structure name is mandatory".to_owned());
            },
        };
        let structure_type = match self.structure_type {
            Some(t) => t,
            None => {
                return Err("Structure type is mandatory".to_owned());
            },
        };
        proof {
            assert(structure_views(Seq::<JavaStructure>::empty()) == Seq::<JavaStructureView>::empty());
        }
        Ok(
            JavaStructure {
                structure_type,
                struct_body_start_byte: 0,
                struct_body_end_byte: 0,
                annotations: clone_annotations(&self.annotations),
                visibility: self.visibility,
                is_static: self.is_static,
                is_final: self.is_final,
                is_abstract: self.is_abstract,
                extended_class: clone_imports(&self.extended_class),
                implemented_interfaces: clone_imports(&self.implemented_interfaces),
                name,
                fields: clone_fields(&self.fields),
                methods: clone_methods(&self.methods),
                substructures: Vec::new(),
            },
        )
    }
}

} // verus!
