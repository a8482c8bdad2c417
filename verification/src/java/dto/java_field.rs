//! A field of a Java class: its modifiers, type, name and whether it is initialised.
use vstd::prelude::*;

use crate::common::text::{debug_text, spec_debug_text};
use crate::java::annotation_usage::spec_is_annotation;
use crate::java::dto::java_annotation_usage::{
    annotation_views, clone_annotations, is_java_node_annotation_opt, JavaAnnotationUsage,
};
use crate::java::dto::java_data_type::{
    spec_data_type_of_node, spec_is_data_type_node, JavaDataType, JavaDataTypeView,
};
use crate::java::dto::java_expression::JavaExpression;
use crate::java::dto::java_import::{JavaImport, JavaImportView};
use crate::java::dto::java_visibility::{self, spec_visibility_of, JavaVisibility};
use crate::java::indentation_config::JavaIndentation;
use crate::java::parser::java_node::JavaNode;
use crate::java::parser::java_node_type::{is_visibility, spec_is_visibility_type, JavaNodeType};
use crate::java::scanner::file::java_file_imports::{JavaFileImports, JavaFileImportsView};

verus! {

/// What a field holds; `has_value` tells whether it is initialised.
pub struct JavaFieldView {
    pub annotations: Seq<JavaImportView>,
    pub visibility: JavaVisibility,
    pub is_static: bool,
    pub is_final: bool,
    pub data_type: JavaDataTypeView,
    pub name: Seq<char>,
    pub has_value: bool,
}

/// The lines that write the annotations, each at the indentation `indent`.
pub open spec fn spec_annotation_lines(annotations: Seq<JavaImportView>, indent: Seq<char>) -> Seq<char>
    decreases annotations.len(),
{
    if annotations.len() == 0 {
        Seq::empty()
    } else {
        spec_annotation_lines(annotations.drop_last(), indent) + indent + "@"@
            + annotations.last().spec_last_node() + "\n"@
    }
}

impl JavaFieldView {
    /// The field as written in a class body at the indentation `indent`.
    pub open spec fn spec_str(self, indent: Seq<char>) -> Seq<char> {
        spec_annotation_lines(self.annotations, indent) + indent
            + self.visibility.spec_file_string() + (if self.is_static {
            "static "@
        } else {
            Seq::empty()
        }) + (if self.is_final {
            "final "@
        } else {
            Seq::empty()
        }) + self.data_type.spec_to_string() + " "@ + self.name + ";\n"@
    }

    /// The imports that a file needs for the field: those of its annotations, then that of its
    /// type.
    pub open spec fn spec_imports(self) -> Seq<JavaImportView> {
        self.annotations + match self.data_type.spec_import() {
            Some(i) => seq![i],
            None => Seq::empty(),
        }
    }
}

/// A field of a Java class.
pub struct JavaField {
    annotations: Vec<JavaAnnotationUsage>,
    visibility: JavaVisibility,
    is_static: bool,
    is_final: bool,
    data_type: JavaDataType,
    name: String,
    value: Option<JavaExpression>,
}

impl View for JavaField {
    type V = JavaFieldView;

    closed spec fn view(&self) -> JavaFieldView {
        JavaFieldView {
            annotations: annotation_views(self.annotations@),
            visibility: self.visibility,
            is_static: self.is_static,
            is_final: self.is_final,
            data_type: self.data_type@,
            name: self.name@,
            has_value: self.value is Some,
        }
    }
}

impl Clone for JavaField {
    fn clone(&self) -> (r: Self)
        ensures
            r@ == self@,
    {
        JavaField {
            annotations: clone_annotations(&self.annotations),
            visibility: self.visibility,
            is_static: self.is_static,
            is_final: self.is_final,
            data_type: self.data_type.clone(),
            name: self.name.clone(),
            value: self.value,
        }
    }
}

/// The views of the fields of a sequence.
pub open spec fn field_views(v: Seq<JavaField>) -> Seq<JavaFieldView> {
    v.map_values(|f: JavaField| f@)
}

/// A copy of each field, in order.
pub fn clone_fields(v: &Vec<JavaField>) -> (r: Vec<JavaField>)
    ensures
        field_views(r@) == field_views(v@),
{
    let mut r: Vec<JavaField> = Vec::new();
    let mut i: usize = 0;
    while i < v.len()
        invariant
            i <= v.len(),
            field_views(r@) == field_views(v@.take(i as int)),
        decreases v.len() - i,
    {
        let ghost old_r = r@;
        let c = v[i].clone();
        r.push(c);
        proof {
            assert(field_views(r@) =~= field_views(old_r).push(c@));
            assert(field_views(v@.take(i + 1)) =~= field_views(v@.take(i as int)).push(v@[i as int]@));
        }
        i = i + 1;
    }
    proof {
        assert(v@.take(v@.len() as int) == v@);
    }
    r
}

/// What has been read of a field declaration so far.
pub struct FieldScanView {
    pub annotations: Seq<JavaImportView>,
    pub visibility: JavaVisibility,
    pub is_static: bool,
    pub is_final: bool,
    pub data_type: Option<JavaDataTypeView>,
    pub name: Seq<char>,
    pub has_value: bool,
}

/// Nothing read yet: package visibility, no modifier, no type and an empty name.
pub open spec fn spec_field_scan_start() -> FieldScanView {
    FieldScanView {
        annotations: Seq::empty(),
        visibility: JavaVisibility::Package,
        is_static: false,
        is_final: false,
        data_type: None,
        name: Seq::empty(),
        has_value: false,
    }
}

/// The import of the annotation used at a node: that which the file declares for the name in
/// its second child.
pub open spec fn spec_annotation_of(node: JavaNode, file_imports: JavaFileImportsView) -> Option<JavaImportView> {
    if node.spec_children().len() > 1 && node.spec_children()[1].spec_content().len() > 0 {
        file_imports.spec_get(node.spec_children()[1].spec_content())
    } else {
        None
    }
}

/// One modifier read: an annotation (kept when its type is imported), a visibility, `static`
/// or `final`.
pub open spec fn spec_modifier_step(s: FieldScanView, m: JavaNode, file_imports: JavaFileImportsView) -> FieldScanView {
    match m.spec_node_type() {
        Some(t) => if spec_is_annotation(t) {
            match spec_annotation_of(m, file_imports) {
                Some(i) => FieldScanView { annotations: s.annotations.push(i), ..s },
                None => s,
            }
        } else if spec_is_visibility_type(t) {
            FieldScanView { visibility: spec_visibility_of(t), ..s }
        } else if t == JavaNodeType::Static {
            FieldScanView { is_static: true, ..s }
        } else if t == JavaNodeType::Final {
            FieldScanView { is_final: true, ..s }
        } else {
            s
        },
        None => s,
    }
}

/// The modifiers read in order.
pub open spec fn spec_modifiers_fold(s: FieldScanView, mods: Seq<JavaNode>, file_imports: JavaFileImportsView) -> FieldScanView
    decreases mods.len(),
{
    if mods.len() == 0 {
        s
    } else {
        spec_modifier_step(spec_modifiers_fold(s, mods.drop_last(), file_imports), mods.last(), file_imports)
    }
}

/// One child of a variable declarator read, with a flag that tells that the previous child was
/// `=`: an identifier names the field by the declarator's text, and the child after `=` is
/// its value.
pub open spec fn spec_declarator_step(s: (FieldScanView, bool), decl: JavaNode, c: JavaNode) -> (FieldScanView, bool) {
    match c.spec_node_type() {
        Some(t) => if t == JavaNodeType::Id {
            (FieldScanView { name: decl.spec_content(), ..s.0 }, s.1)
        } else if t == JavaNodeType::Equals {
            (s.0, true)
        } else if s.1 {
            (FieldScanView { has_value: true, ..s.0 }, false)
        } else {
            s
        },
        None => s,
    }
}

/// The children of a variable declarator read in order.
pub open spec fn spec_declarator_fold(s: (FieldScanView, bool), decl: JavaNode, cs: Seq<JavaNode>) -> (FieldScanView, bool)
    decreases cs.len(),
{
    if cs.len() == 0 {
        s
    } else {
        spec_declarator_step(spec_declarator_fold(s, decl, cs.drop_last()), decl, cs.last())
    }
}

/// One child of a field declaration read: its modifiers, its type, or its declarator.
pub open spec fn spec_field_child_step(s: FieldScanView, c: JavaNode, file_imports: JavaFileImportsView) -> FieldScanView {
    if c.spec_node_type() == Some(JavaNodeType::Modifiers) {
        spec_modifiers_fold(s, c.spec_children(), file_imports)
    } else if c.spec_node_type() matches Some(t) && spec_is_data_type_node(t) {
        match spec_data_type_of_node(c, file_imports) {
            Some(d) => FieldScanView { data_type: Some(d), ..s },
            None => s,
        }
    } else if c.spec_node_type() == Some(JavaNodeType::VariableDeclarator) {
        spec_declarator_fold((s, false), c, c.spec_children()).0
    } else {
        s
    }
}

/// The children of a field declaration read in order.
pub open spec fn spec_field_scan(children: Seq<JavaNode>, file_imports: JavaFileImportsView) -> FieldScanView
    decreases children.len(),
{
    if children.len() == 0 {
        spec_field_scan_start()
    } else {
        spec_field_child_step(spec_field_scan(children.drop_last(), file_imports), children.last(), file_imports)
    }
}

/// The field that a field declaration node declares, if it has a name and a known type.
pub open spec fn spec_field_of(node: JavaNode, file_imports: JavaFileImportsView) -> Option<JavaFieldView> {
    let s = spec_field_scan(node.spec_children(), file_imports);
    match s.data_type {
        Some(d) => if s.name.len() > 0 {
            Some(
                JavaFieldView {
                    annotations: s.annotations,
                    visibility: s.visibility,
                    is_static: s.is_static,
                    is_final: s.is_final,
                    data_type: d,
                    name: s.name,
                    has_value: s.has_value,
                },
            )
        } else {
            None
        },
        None => None,
    }
}

struct FieldScan {
    annotations: Vec<JavaAnnotationUsage>,
    visibility: JavaVisibility,
    is_static: bool,
    is_final: bool,
    data_type: Option<JavaDataType>,
    name: String,
    value: Option<JavaExpression>,
}

impl FieldScan {
    closed spec fn view(&self) -> FieldScanView {
        FieldScanView {
            annotations: annotation_views(self.annotations@),
            visibility: self.visibility,
            is_static: self.is_static,
            is_final: self.is_final,
            data_type: match self.data_type {
                Some(d) => Some(d@),
                None => None,
            },
            name: self.name@,
            has_value: self.value is Some,
        }
    }

    fn read_modifier(&mut self, m: &JavaNode, file_imports: &JavaFileImports, input_java_file: &str)
        ensures
            final(self).view() == spec_modifier_step(old(self).view(), *m, file_imports@),
    {
        let modifier_type_opt = m.get_node_type_opt();
        if is_java_node_annotation_opt(&modifier_type_opt) {
            match JavaAnnotationUsage::new_from_java_node(m, file_imports, input_java_file) {
                Ok(annotation) => {
                    let ghost old_a = self.annotations@;
                    self.annotations.push(annotation);
                    proof {
                        assert(annotation_views(self.annotations@) =~= annotation_views(old_a).push(
                            annotation.spec_import(),
                        ));
                    }
                },
                Err(_) => {},
            }
        } else if is_visibility(&modifier_type_opt) {
            match modifier_type_opt {
                Some(t) => {
                    self.visibility = java_visibility::new(&t);
                },
                None => {},
            }
        } else if modifier_type_opt == Some(JavaNodeType::Static) {
            self.is_static = true;
        } else if modifier_type_opt == Some(JavaNodeType::Final) {
            self.is_final = true;
        }
    }

    fn read_modifiers(&mut self, mods: &Vec<JavaNode>, file_imports: &JavaFileImports, input_java_file: &str)
        ensures
            final(self).view() == spec_modifiers_fold(old(self).view(), mods@, file_imports@),
    {
        let ghost start = self.view();
        let mut i: usize = 0;
        while i < mods.len()
            invariant
                i <= mods.len(),
                self.view() == spec_modifiers_fold(start, mods@.take(i as int), file_imports@),
            decreases mods.len() - i,
        {
            proof {
                assert(mods@.take(i + 1).drop_last() == mods@.take(i as int));
                assert(mods@.take(i + 1).last() == mods@[i as int]);
            }
            self.read_modifier(&mods[i], file_imports, input_java_file);
            i = i + 1;
        }
        proof {
            assert(mods@.take(mods@.len() as int) == mods@);
        }
    }

    fn read_declarator(&mut self, decl: &JavaNode)
        ensures
            final(self).view() == spec_declarator_fold((old(self).view(), false), *decl, decl.spec_children()).0,
    {
        let ghost start = self.view();
        let children = decl.get_children();
        let mut next_child_is_expression = false;
        let mut i: usize = 0;
        while i < children.len()
            invariant
                i <= children.len(),
                children@ == decl.spec_children(),
                (self.view(), next_child_is_expression) == spec_declarator_fold(
                    (start, false),
                    *decl,
                    children@.take(i as int),
                ),
            decreases children.len() - i,
        {
            proof {
                assert(children@.take(i + 1).drop_last() == children@.take(i as int));
                assert(children@.take(i + 1).last() == children@[i as int]);
            }
            let var_decl_child = &children[i];
            if let Some(var_node_type) = var_decl_child.get_node_type_opt() {
                if JavaNodeType::Id == var_node_type {
                    self.name = decl.get_content();
                } else if JavaNodeType::Equals == var_node_type {
                    next_child_is_expression = true;
                } else if next_child_is_expression {
                    next_child_is_expression = false;
                    self.value = Some(JavaExpression::new(var_decl_child));
                }
            }
            i = i + 1;
        }
        proof {
            assert(children@.take(children@.len() as int) == children@);
        }
    }
}

impl JavaField {
    /// A builder with nothing set, package visibility and no modifier.
    pub fn builder() -> (r: JavaFieldBuilder)
        ensures
            r.spec_annotations() == Seq::<JavaImportView>::empty(),
            r.spec_visibility() == JavaVisibility::Package,
            !r.spec_is_static(),
            !r.spec_is_final(),
            r.spec_data_type() is None,
            r.spec_name() is None,
            !r.spec_has_value(),
    {
        JavaFieldBuilder::new_builder()
    }

    /// The annotations of the field.
    pub fn get_annotations(&self) -> (r: Vec<JavaAnnotationUsage>)
        ensures
            annotation_views(r@) == self@.annotations,
    {
        clone_annotations(&self.annotations)
    }

    /// The visibility of the field.
    pub fn get_visibility(&self) -> (r: JavaVisibility)
        ensures
            r == self@.visibility,
    {
        self.visibility
    }

    /// Whether the field is static.
    pub fn is_static(&self) -> (r: bool)
        ensures
            r == self@.is_static,
    {
        self.is_static
    }

    /// Whether the field is final.
    pub fn is_final(&self) -> (r: bool)
        ensures
            r == self@.is_final,
    {
        self.is_final
    }

    /// The type of the field.
    pub fn get_data_type(&self) -> (r: JavaDataType)
        ensures
            r@ == self@.data_type,
    {
        self.data_type.clone()
    }

    /// The name of the field.
    pub fn get_name(&self) -> (r: &str)
        ensures
            r@ == self@.name,
    {
        self.name.as_str()
    }

    /// The value that initialises the field, if any.
    pub fn get_value(&self) -> (r: &Option<JavaExpression>)
        ensures
            r is Some == self@.has_value,
    {
        &self.value
    }

    /// The field that a field declaration node declares; an error when its name or its type is
    /// missing. Annotations whose type is not imported are left out.
    pub fn new(root_node: &JavaNode, file_imports: &JavaFileImports, input_java_file: &str) -> (r: Result<
        JavaField,
        String,
    >)
        ensures
            r is Ok <==> spec_field_of(*root_node, file_imports@) is Some,
            r matches Ok(f) ==> spec_field_of(*root_node, file_imports@) == Some(f@),
            r matches Err(e) ==> e@ == if spec_field_scan(root_node.spec_children(), file_imports@).name.len()
                == 0 {
                "Invalid java field declaration (name is empty) \""@ + spec_debug_text(root_node.spec_content())
                    + "\" in file\n\""@ + input_java_file@ + "\"\n"@
            } else {
                "Invalid java field declaration (data_type is empty) \""@ + spec_debug_text(root_node.spec_content())
                    + "\" in file:\n\""@ + input_java_file@ + "\"\n"@
            },
    {
        let children = root_node.get_children();
        let mut state = FieldScan {
            annotations: Vec::new(),
            visibility: JavaVisibility::Package,
            is_static: false,
            is_final: false,
            data_type: None,
            name: String::new(),
            value: None,
        };
        proof {
            assert(annotation_views(state.annotations@) =~= Seq::<JavaImportView>::empty());
            assert(state.view() == spec_field_scan_start());
        }
        let mut i: usize = 0;
        while i < children.len()
            invariant
                i <= children.len(),
                children@ == root_node.spec_children(),
                state.view() == spec_field_scan(children@.take(i as int), file_imports@),
            decreases children.len() - i,
        {
            proof {
                assert(children@.take(i + 1).drop_last() == children@.take(i as int));
                assert(children@.take(i + 1).last() == children@[i as int]);
            }
            let child = &children[i];
            let node_type_opt = child.get_node_type_opt();
            if Some(JavaNodeType::Modifiers) == node_type_opt {
                state.read_modifiers(child.get_children(), file_imports, input_java_file);
            } else if JavaDataType::is_data_type_node_opt(&node_type_opt) {
                match JavaDataType::get_data_type(child, file_imports, input_java_file) {
                    Ok(data_type) => state.data_type = Some(data_type),
                    Err(_) => {},
                }
            } else if Some(JavaNodeType::VariableDeclarator) == node_type_opt {
                state.read_declarator(child);
            }
            i = i + 1;
        }
        proof {
            assert(children@.take(children@.len() as int) == children@);
        }
        if state.name.as_str().unicode_len() == 0 {
            let mut e = "Invalid java field declaration (name is empty) \"".to_owned();
            let content = debug_text(root_node.get_content().as_str());
            e.append(content.as_str());
            e.append("\" in file\n\"");
            e.append(input_java_file);
            e.append("\"\n");
            return Err(e);
        }
        let data_type = match state.data_type {
            Some(d) => d,
            None => {
                let mut e = "Invalid java field declaration (data_type is empty) \"".to_owned();
                let content = debug_text(root_node.get_content().as_str());
                e.append(content.as_str());
                e.append("\" in file:\n\"");
                e.append(input_java_file);
                e.append("\"\n");
                return Err(e);
            },
        };
        Ok(
            JavaField {
                annotations: state.annotations,
                visibility: state.visibility,
                is_static: state.is_static,
                is_final: state.is_final,
                data_type,
                name: state.name,
                value: state.value,
            },
        )
    }

    /// The field as written in a class body at the indentation `initial_indentation`: one line
    /// per annotation, then the declaration.
    pub fn get_str(&self, initial_indentation: &JavaIndentation) -> (r: String)
        ensures
            r@ == self@.spec_str(initial_indentation.spec_current()),
    {
        let indent = initial_indentation.get_current_indentation();
        let mut result = String::new();
        let mut i: usize = 0;
        while i < self.annotations.len()
            invariant
                i <= self.annotations.len(),
                indent@ == initial_indentation.spec_current(),
                result@ == spec_annotation_lines(
                    annotation_views(self.annotations@.take(i as int)),
                    indent@,
                ),
            decreases self.annotations.len() - i,
        {
            proof {
                let a = annotation_views(self.annotations@.take(i + 1));
                assert(a.drop_last() =~= annotation_views(self.annotations@.take(i as int)));
                assert(a.last() == self.annotations@[i as int].spec_import());
            }
            result.append(indent.as_str());
            let s = self.annotations[i].to_string();
            result.append(s.as_str());
            result.append("\n");
            i = i + 1;
        }
        proof {
            assert(self.annotations@.take(self.annotations@.len() as int) == self.annotations@);
        }
        result.append(indent.as_str());
        let v = self.visibility.as_file_string();
        result.append(v.as_str());
        if self.is_static {
            result.append("static ");
        }
        if self.is_final {
            result.append("final ");
        }
        let t = self.data_type.to_string();
        result.append(t.as_str());
        result.append(" ");
        result.append(self.name.as_str());
        result.append(";\n");
        result
    }

    /// The imports that a file needs for the field: those of its annotations, then that of its
    /// type.
    pub fn get_imports(&self) -> (r: Vec<JavaImport>)
        ensures
            crate::java::dto::java_import::import_views(r@) == self@.spec_imports(),
    {
        let mut imports = self.get_annotation_imports();
        if let Some(type_import) = self.data_type.get_import() {
            let ghost old_i = imports@;
            imports.push(type_import);
            proof {
                assert(crate::java::dto::java_import::import_views(imports@)
                    =~= crate::java::dto::java_import::import_views(old_i).push(type_import@));
            }
        }
        proof {
            assert(crate::java::dto::java_import::import_views(imports@) =~= self@.spec_imports());
        }
        imports
    }

    fn get_annotation_imports(&self) -> (r: Vec<JavaImport>)
        ensures
            crate::java::dto::java_import::import_views(r@) == self@.annotations,
    {
        let mut r: Vec<JavaImport> = Vec::new();
        let mut i: usize = 0;
        while i < self.annotations.len()
            invariant
                i <= self.annotations.len(),
                crate::java::dto::java_import::import_views(r@) == annotation_views(
                    self.annotations@.take(i as int),
                ),
            decreases self.annotations.len() - i,
        {
            let imports = self.annotations[i].get_imports();
            let ghost old_r = r@;
            let import = imports[0].clone();
            r.push(import);
            proof {
                assert(crate::java::dto::java_import::import_views(r@)
                    =~= crate::java::dto::java_import::import_views(old_r).push(import@));
                assert(annotation_views(self.annotations@.take(i + 1)) =~= annotation_views(
                    self.annotations@.take(i as int),
                ).push(self.annotations@[i as int].spec_import()));
            }
            i = i + 1;
        }
        proof {
            assert(self.annotations@.take(self.annotations@.len() as int) == self.annotations@);
        }
        r
    }
}

/// A builder of a field.
pub struct JavaFieldBuilder {
    annotations: Vec<JavaAnnotationUsage>,
    visibility: JavaVisibility,
    is_static: bool,
    is_final: bool,
    data_type: Option<JavaDataType>,
    name: Option<String>,
    value: Option<JavaExpression>,
}

impl JavaFieldBuilder {
    pub closed spec fn spec_annotations(&self) -> Seq<JavaImportView> {
        annotation_views(self.annotations@)
    }

    pub closed spec fn spec_visibility(&self) -> JavaVisibility {
        self.visibility
    }

    pub closed spec fn spec_is_static(&self) -> bool {
        self.is_static
    }

    pub closed spec fn spec_is_final(&self) -> bool {
        self.is_final
    }

    pub closed spec fn spec_data_type(&self) -> Option<JavaDataTypeView> {
        match self.data_type {
            Some(d) => Some(d@),
            None => None,
        }
    }

    pub closed spec fn spec_name(&self) -> Option<Seq<char>> {
        match self.name {
            Some(n) => Some(n@),
            None => None,
        }
    }

    pub closed spec fn spec_has_value(&self) -> bool {
        self.value is Some
    }

    fn new_builder() -> (r: Self)
        ensures
            r.spec_annotations() == Seq::<JavaImportView>::empty(),
            r.spec_visibility() == JavaVisibility::Package,
            !r.spec_is_static(),
            !r.spec_is_final(),
            r.spec_data_type() is None,
            r.spec_name() is None,
            !r.spec_has_value(),
    {
        let r = Self {
            annotations: Vec::new(),
            visibility: JavaVisibility::Package,
            is_static: false,
            is_final: false,
            data_type: None,
            name: None,
            value: None,
        };
        proof {
            assert(r.spec_annotations() =~= Seq::<JavaImportView>::empty());
        }
        r
    }

    /// Sets the annotations.
    pub fn annotations(&mut self, input: Vec<JavaAnnotationUsage>) -> (ret: &mut Self)
        ensures
            ret.spec_annotations() == annotation_views(input@),
            ret.spec_visibility() == old(self).spec_visibility(),
            ret.spec_is_static() == old(self).spec_is_static(),
            ret.spec_is_final() == old(self).spec_is_final(),
            ret.spec_data_type() == old(self).spec_data_type(),
            ret.spec_name() == old(self).spec_name(),
            ret.spec_has_value() == old(self).spec_has_value(),
            *final(self) == *final(ret),
    {
        self.annotations = input;
        self
    }

    /// Sets the visibility.
    pub fn visibility(&mut self, input: JavaVisibility) -> (ret: &mut Self)
        ensures
            ret.spec_annotations() == old(self).spec_annotations(),
            ret.spec_visibility() == input,
            ret.spec_is_static() == old(self).spec_is_static(),
            ret.spec_is_final() == old(self).spec_is_final(),
            ret.spec_data_type() == old(self).spec_data_type(),
            ret.spec_name() == old(self).spec_name(),
            ret.spec_has_value() == old(self).spec_has_value(),
            *final(self) == *final(ret),
    {
        self.visibility = input;
        self
    }

    /// Sets whether the field is static.
    pub fn is_static(&mut self, input: bool) -> (ret: &mut Self)
        ensures
            ret.spec_annotations() == old(self).spec_annotations(),
            ret.spec_visibility() == old(self).spec_visibility(),
            ret.spec_is_static() == input,
            ret.spec_is_final() == old(self).spec_is_final(),
            ret.spec_data_type() == old(self).spec_data_type(),
            ret.spec_name() == old(self).spec_name(),
            ret.spec_has_value() == old(self).spec_has_value(),
            *final(self) == *final(ret),
    {
        self.is_static = input;
        self
    }

    /// Sets whether the field is final.
    pub fn is_final(&mut self, input: bool) -> (ret: &mut Self)
        ensures
            ret.spec_annotations() == old(self).spec_annotations(),
            ret.spec_visibility() == old(self).spec_visibility(),
            ret.spec_is_static() == old(self).spec_is_static(),
            ret.spec_is_final() == input,
            ret.spec_data_type() == old(self).spec_data_type(),
            ret.spec_name() == old(self).spec_name(),
            ret.spec_has_value() == old(self).spec_has_value(),
            *final(self) == *final(ret),
    {
        self.is_final = input;
        self
    }

    /// Sets the type.
    pub fn data_type(&mut self, input: JavaDataType) -> (ret: &mut Self)
        ensures
            ret.spec_annotations() == old(self).spec_annotations(),
            ret.spec_visibility() == old(self).spec_visibility(),
            ret.spec_is_static() == old(self).spec_is_static(),
            ret.spec_is_final() == old(self).spec_is_final(),
            ret.spec_data_type() == Some(input@),
            ret.spec_name() == old(self).spec_name(),
            ret.spec_has_value() == old(self).spec_has_value(),
            *final(self) == *final(ret),
    {
        self.data_type = Some(input);
        self
    }

    /// Sets the name.
    pub fn name(&mut self, input: &str) -> (ret: &mut Self)
        ensures
            ret.spec_annotations() == old(self).spec_annotations(),
            ret.spec_visibility() == old(self).spec_visibility(),
            ret.spec_is_static() == old(self).spec_is_static(),
            ret.spec_is_final() == old(self).spec_is_final(),
            ret.spec_data_type() == old(self).spec_data_type(),
            ret.spec_name() == Some(input@),
            ret.spec_has_value() == old(self).spec_has_value(),
            *final(self) == *final(ret),
    {
        self.name = Some(input.to_owned());
        self
    }

    /// Sets the value that initialises the field.
    pub fn value(&mut self, input: JavaExpression) -> (ret: &mut Self)
        ensures
            ret.spec_annotations() == old(self).spec_annotations(),
            ret.spec_visibility() == old(self).spec_visibility(),
            ret.spec_is_static() == old(self).spec_is_static(),
            ret.spec_is_final() == old(self).spec_is_final(),
            ret.spec_data_type() == old(self).spec_data_type(),
            ret.spec_name() == old(self).spec_name(),
            ret.spec_has_value(),
            *final(self) == *final(ret),
    {
        self.value = Some(input);
        self
    }

    /// The field set so far; an error when the type or the name is missing.
    pub fn build(&mut self) -> (r: Result<JavaField, String>)
        ensures
            r is Ok <==> old(self).spec_data_type() is Some && old(self).spec_name() is Some,
            r matches Ok(f) ==> f@.annotations == old(self).spec_annotations() && f@.visibility
                == old(self).spec_visibility() && f@.is_static == old(self).spec_is_static()
                && f@.is_final == old(self).spec_is_final() && Some(f@.data_type) == old(
                self,
            ).spec_data_type() && Some(f@.name) == old(self).spec_name() && f@.has_value == old(
                self,
            ).spec_has_value(),
            old(self).spec_data_type() is None ==> (r matches Err(e) && e@
                == "Missing mandatory \"data_type\" to build java field"@),
            old(self).spec_data_type() is Some && old(self).spec_name() is None ==> (r matches Err(e)
                && e@ == "Missing mandatory \"name\" to build java field"@),
            *final(self) == *old(self),
    {
        let data_type = match &self.data_type {
            Some(d) => d.clone(),
            None => {
                return Err("Missing mandatory \"data_type\" to build java field".to_owned());
            },
        };
        let name = match &self.name {
            Some(n) => n.clone(),
            None => {
                return Err("Missing mandatory \"name\" to build java field".to_owned());
            },
        };
        Ok(
            JavaField {
                annotations: clone_annotations(&self.annotations),
                visibility: self.visibility,
                is_static: self.is_static,
                is_final: self.is_final,
                data_type,
                name,
                value: self.value,
            },
        )
    }
}

} // verus!
