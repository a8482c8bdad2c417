//! A Java method: its modifiers, return type, name and parameters.
use vstd::prelude::*;

use crate::common::file_cache::FileCache;
use crate::common::text::{lemma_occurs_in_extended, lemma_occurs_in_itself, spec_occurs_in};
use crate::java::annotation_usage::{
    annotation_imports, annotation_views, clone_annotations, JavaAnnotationUsage,
};
use crate::java::data_type::{spec_data_type_of_node, JavaDataType, JavaDataTypeView};
use crate::java::dto::java_field::spec_annotation_lines;
use crate::java::dto::java_import::{import_views, JavaImport, JavaImportView};
use crate::java::dto::java_variable::{
    clone_variables, spec_formal_params, spec_formal_params_error, variable_views, JavaVariable,
    JavaVariableView,
};
use crate::java::dto::java_visibility::JavaVisibility;
use crate::java::indentation_config::JavaIndentation;
use crate::java::parser::java_node::{spec_is_data_type_node, JavaNode};
use crate::java::parser::java_node_type::JavaNodeType;
use crate::java::scanner::file::java_file_imports::{JavaFileImports, JavaFileImportsView};
use crate::java::scanner::file::java_modifiers::{
    spec_modifiers_fold, spec_modifiers_start, ModifiersScan, ModifiersView,
};

verus! {

/// What a method holds.
pub struct JavaMethodView {
    pub annotations: Seq<JavaImportView>,
    pub visibility: JavaVisibility,
    pub is_static: bool,
    pub return_type: Option<JavaDataTypeView>,
    pub name: Seq<char>,
    pub parameters: Seq<JavaVariableView>,
}

/// The parameters as written between the parentheses of a method: separated by `, `.
pub open spec fn spec_params_str(ps: Seq<JavaVariableView>) -> Seq<char>
    decreases ps.len(),
{
    if ps.len() == 0 {
        Seq::empty()
    } else if ps.len() == 1 {
        ps[0].spec_to_string()
    } else {
        spec_params_str(ps.drop_last()) + ", "@ + ps.last().spec_to_string()
    }
}

/// One more parameter is written after those before it, separated by `, `; a single
/// parameter is written alone.
pub proof fn law_params_written_in_order(ps: Seq<JavaVariableView>, p: JavaVariableView)
    ensures
        ps.len() == 0 ==> spec_params_str(ps.push(p)) == p.spec_to_string(),
        ps.len() > 0 ==> spec_params_str(ps.push(p)) == spec_params_str(ps) + ", "@ + p.spec_to_string(),
{
    assert(ps.push(p).drop_last() =~= ps);
    if ps.len() == 0 {
        assert(ps.push(p)[0] == p);
    }
}

/// Every parameter's text stands in the written parameter list.
pub proof fn law_every_param_written(ps: Seq<JavaVariableView>, i: int)
    requires
        0 <= i < ps.len(),
    ensures
        spec_occurs_in(ps[i].spec_to_string(), spec_params_str(ps)),
    decreases ps.len(),
{
    if ps.len() == 1 {
        lemma_occurs_in_itself(ps[0].spec_to_string());
    } else {
        let init = ps.drop_last();
        if i < ps.len() - 1 {
            law_every_param_written(init, i);
            assert(init[i] == ps[i]);
            lemma_occurs_in_extended(ps[i].spec_to_string(), spec_params_str(init), ", "@);
            lemma_occurs_in_extended(ps[i].spec_to_string(), spec_params_str(init) + ", "@, ps.last().spec_to_string());
        } else {
            lemma_occurs_in_itself(ps.last().spec_to_string());
            lemma_occurs_in_extended(ps.last().spec_to_string(), ps.last().spec_to_string(), spec_params_str(init) + ", "@);
        }
    }
}

/// The imports that the types of the parameters need, in order.
pub open spec fn spec_param_imports(ps: Seq<JavaVariableView>) -> Seq<JavaImportView>
    decreases ps.len(),
{
    if ps.len() == 0 {
        Seq::empty()
    } else {
        spec_param_imports(ps.drop_last()) + match ps.last().data_type.spec_import() {
            Some(i) => seq![i],
            None => Seq::empty(),
        }
    }
}

impl JavaMethodView {
    /// The method as written in a class body at the indentation `indent`: its annotations, one
    /// per line, its signature, and an empty body.
    pub open spec fn spec_str(self, indent: Seq<char>) -> Seq<char> {
        spec_annotation_lines(self.annotations, indent) + indent
            + self.visibility.spec_file_string() + match self.return_type {
            Some(t) => t.spec_to_string() + " "@,
            None => "void "@,
        } + self.name + "("@ + spec_params_str(self.parameters) + ")"@ + " {\n"@ + indent + "}\n"@
    }

    /// The imports that a file needs for the method: those of its annotations, of its return
    /// type, and of its parameters.
    pub open spec fn spec_imports(self) -> Seq<JavaImportView> {
        self.annotations + match self.return_type {
            Some(t) => match t.import {
                Some(i) => seq![i],
                None => Seq::empty(),
            },
            None => Seq::empty(),
        } + spec_param_imports(self.parameters)
    }
}

/// A Java method.
pub struct JavaMethod {
    annotations: Vec<JavaAnnotationUsage>,
    visibility: JavaVisibility,
    is_static: bool,
    return_type: Option<JavaDataType>,
    name: String,
    parameters: Vec<JavaVariable>,
}

impl View for JavaMethod {
    type V = JavaMethodView;

    closed spec fn view(&self) -> JavaMethodView {
        JavaMethodView {
            annotations: annotation_views(self.annotations@),
            visibility: self.visibility,
            is_static: self.is_static,
            return_type: match self.return_type {
                Some(t) => Some(t@),
                None => None,
            },
            name: self.name@,
            parameters: variable_views(self.parameters@),
        }
    }
}

fn clone_data_type_opt(t: &Option<JavaDataType>) -> (r: Option<JavaDataType>)
    ensures
        match (r, *t) {
            (Some(a), Some(b)) => a@ == b@,
            (None, None) => true,
            _ => false,
        },
{
    match t {
        Some(d) => Some(d.clone()),
        None => None,
    }
}

impl Clone for JavaMethod {
    fn clone(&self) -> (r: Self)
        ensures
            r@ == self@,
    {
        JavaMethod {
            annotations: clone_annotations(&self.annotations),
            visibility: self.visibility,
            is_static: self.is_static,
            return_type: clone_data_type_opt(&self.return_type),
            name: self.name.clone(),
            parameters: clone_variables(&self.parameters),
        }
    }
}

/// The views of the methods of a sequence.
pub open spec fn method_views(v: Seq<JavaMethod>) -> Seq<JavaMethodView> {
    v.map_values(|m: JavaMethod| m@)
}

/// A copy of each method, in order.
pub fn clone_methods(v: &Vec<JavaMethod>) -> (r: Vec<JavaMethod>)
    ensures
        method_views(r@) == method_views(v@),
{
    let mut r: Vec<JavaMethod> = Vec::new();
    let mut i: usize = 0;
    while i < v.len()
        invariant
            i <= v.len(),
            method_views(r@) == method_views(v@.take(i as int)),
        decreases v.len() - i,
    {
        let ghost old_r = r@;
        let c = v[i].clone();
        r.push(c);
        proof {
            assert(method_views(r@) =~= method_views(old_r).push(c@));
            assert(method_views(v@.take(i + 1)) =~= method_views(v@.take(i as int)).push(v@[i as int]@));
        }
        i = i + 1;
    }
    proof {
        assert(v@.take(v@.len() as int) == v@);
    }
    r
}

/// What has been read of a method declaration so far; `None` once its parameters failed.
pub struct MethodScanView {
    pub modifiers: ModifiersView,
    pub return_type: Option<JavaDataTypeView>,
    pub return_type_detected: bool,
    pub name: Option<Seq<char>>,
    pub parameters: Seq<JavaVariableView>,
}

/// One child of a method declaration read: its modifiers, its return type (a data type, or
/// `void`), its name, or its formal parameters.
pub open spec fn spec_method_child_step(
    s: MethodScanView,
    c: JavaNode,
    file_imports: JavaFileImportsView,
    cache: FileCache,
) -> Option<MethodScanView> {
    match c.spec_node_type() {
        Some(t) => if t == JavaNodeType::Modifiers {
            Some(
                MethodScanView {
                    modifiers: spec_modifiers_fold(s.modifiers, c.spec_children(), file_imports, cache),
                    ..s
                },
            )
        } else if spec_is_data_type_node(t) {
            match spec_data_type_of_node(c, file_imports, cache) {
                Some(d) => Some(
                    MethodScanView { return_type: Some(d), return_type_detected: true, ..s },
                ),
                None => Some(s),
            }
        } else if t == JavaNodeType::VoidType {
            Some(MethodScanView { return_type_detected: true, ..s })
        } else if t == JavaNodeType::Id {
            Some(MethodScanView { name: Some(c.spec_content()), ..s })
        } else if t == JavaNodeType::FormalParams {
            match spec_formal_params(c.spec_children(), file_imports) {
                Some(ps) => Some(MethodScanView { parameters: ps, ..s }),
                None => None,
            }
        } else {
            Some(s)
        },
        None => Some(s),
    }
}

/// The children of a method declaration read in order.
pub open spec fn spec_method_scan(children: Seq<JavaNode>, file_imports: JavaFileImportsView, cache: FileCache) -> Option<
    MethodScanView,
>
    decreases children.len(),
{
    if children.len() == 0 {
        Some(
            MethodScanView {
                modifiers: spec_modifiers_start(),
                return_type: None,
                return_type_detected: false,
                name: None,
                parameters: Seq::empty(),
            },
        )
    } else {
        match spec_method_scan(children.drop_last(), file_imports, cache) {
            Some(s) => spec_method_child_step(s, children.last(), file_imports, cache),
            None => None,
        }
    }
}

/// The error of the first formal parameters among the children of a method declaration that
/// cannot be read, if any.
pub open spec fn spec_method_params_error(children: Seq<JavaNode>, file_imports: JavaFileImportsView) -> Option<
    Seq<char>,
>
    decreases children.len(),
{
    if children.len() == 0 {
        None
    } else {
        match spec_method_params_error(children.drop_last(), file_imports) {
            Some(e) => Some(e),
            None => {
                let c = children.last();
                if c.spec_node_type() == Some(JavaNodeType::FormalParams) && spec_formal_params(
                    c.spec_children(),
                    file_imports,
                ) is None {
                    Some(
                        "Invalid java method parameters, "@ + spec_formal_params_error(
                            c.spec_children(),
                            file_imports,
                        )->0,
                    )
                } else {
                    None
                }
            },
        }
    }
}

/// Why a method declaration node declares no method: its parameters cannot be read, or else
/// its return type is missing, or else its name.
pub open spec fn spec_method_error(node: JavaNode, file_imports: JavaFileImportsView, cache: FileCache) -> Seq<
    char,
> {
    match spec_method_params_error(node.spec_children(), file_imports) {
        Some(e) => e,
        None => match spec_method_scan(node.spec_children(), file_imports, cache) {
            Some(s) => if !s.return_type_detected {
                "Java method return type not detected"@
            } else {
                "Java method name not detected."@
            },
            None => Seq::empty(),
        },
    }
}

/// Reading a method declaration fails exactly when some formal parameters cannot be read.
proof fn lemma_method_scan_error(children: Seq<JavaNode>, file_imports: JavaFileImportsView, cache: FileCache)
    ensures
        spec_method_scan(children, file_imports, cache) is None <==> spec_method_params_error(
            children,
            file_imports,
        ) is Some,
    decreases children.len(),
{
    if children.len() > 0 {
        lemma_method_scan_error(children.drop_last(), file_imports, cache);
    }
}

/// Once a prefix of `children` has an error, so do all of them.
proof fn lemma_method_error_stays(children: Seq<JavaNode>, file_imports: JavaFileImportsView, n: int)
    requires
        0 < n <= children.len(),
        spec_method_params_error(children.take(n), file_imports) is Some,
    ensures
        spec_method_params_error(children, file_imports) == spec_method_params_error(
            children.take(n),
            file_imports,
        ),
    decreases children.len() - n,
{
    if n < children.len() {
        assert(children.take(n + 1).drop_last() == children.take(n));
        lemma_method_error_stays(children, file_imports, n + 1);
    } else {
        assert(children.take(n) == children);
    }
}

/// The method that a method declaration node declares, if its parameters are valid, its
/// return type was found and it has a name.
pub open spec fn spec_method_of(node: JavaNode, file_imports: JavaFileImportsView, cache: FileCache) -> Option<
    JavaMethodView,
> {
    match spec_method_scan(node.spec_children(), file_imports, cache) {
        Some(s) => if s.return_type_detected && s.name is Some {
            Some(
                JavaMethodView {
                    annotations: s.modifiers.annotations,
                    visibility: s.modifiers.visibility,
                    is_static: s.modifiers.is_static,
                    return_type: s.return_type,
                    name: s.name->0,
                    parameters: s.parameters,
                },
            )
        } else {
            None
        },
        None => None,
    }
}

impl JavaMethod {
    /// A builder with nothing set, package visibility and no return type (`void`).
    pub fn builder() -> (r: JavaMethodBuilder)
        ensures
            r.spec_annotations() == Seq::<JavaImportView>::empty(),
            r.spec_visibility() == JavaVisibility::Package,
            !r.spec_is_static(),
            r.spec_return_type() is None,
            r.spec_name() is None,
            r.spec_parameters() == Seq::<JavaVariableView>::empty(),
    {
        JavaMethodBuilder::new_builder()
    }

    /// The annotations of the method.
    pub fn get_annotations(&self) -> (r: &Vec<JavaAnnotationUsage>)
        ensures
            annotation_views(r@) == self@.annotations,
    {
        &self.annotations
    }

    /// The visibility of the method.
    pub fn get_visibility(&self) -> (r: JavaVisibility)
        ensures
            r == self@.visibility,
    {
        self.visibility
    }

    /// Whether the method is static.
    pub fn is_static(&self) -> (r: bool)
        ensures
            r == self@.is_static,
    {
        self.is_static
    }

    /// The return type of the method; `None` for `void`.
    pub fn get_return_type(&self) -> (r: &Option<JavaDataType>)
        ensures
            match (*r, self@.return_type) {
                (Some(a), Some(b)) => a@ == b,
                (None, None) => true,
                _ => false,
            },
    {
        &self.return_type
    }

    /// The name of the method.
    pub fn get_name(&self) -> (r: &str)
        ensures
            r@ == self@.name,
    {
        self.name.as_str()
    }

    /// The parameters of the method, from the first to the last.
    pub fn get_parameters(&self) -> (r: &Vec<JavaVariable>)
        ensures
            variable_views(r@) == self@.parameters,
    {
        &self.parameters
    }

    /// The method that a method declaration node declares; an error when its parameters are
    /// invalid, no return type was found, or it has no name. Annotations whose type is not
    /// imported and return types that name no known type are left out.
    pub fn new_from_node(root_node: &JavaNode, file_imports: &JavaFileImports, java_file_cache: &FileCache) -> (r: Result<
        JavaMethod,
        String,
    >)
        requires
            root_node.spec_annotations_named(),
        ensures
            r is Ok <==> spec_method_of(*root_node, file_imports@, *java_file_cache) is Some,
            r matches Ok(m) ==> spec_method_of(*root_node, file_imports@, *java_file_cache) == Some(
                m@,
            ),
            r matches Err(e) ==> e@ == spec_method_error(*root_node, file_imports@, *java_file_cache),
    {
        proof {
            root_node.lemma_annotations_named();
        }
        let children = root_node.get_children();
        let mut modifiers = ModifiersScan::new();
        let mut return_type_opt: Option<JavaDataType> = None;
        let mut return_type_detected = false;
        let mut name_opt: Option<String> = None;
        let mut parameters: Vec<JavaVariable> = Vec::new();
        proof {
            assert(variable_views(parameters@) =~= Seq::<JavaVariableView>::empty());
            assert(children@.take(0) =~= Seq::<JavaNode>::empty());
        }
        let mut i: usize = 0;
        while i < children.len()
            invariant
                i <= children.len(),
                children@ == root_node.spec_children(),
                forall|j: int| 0 <= j < children@.len() ==> #[trigger] children@[j].spec_annotations_named(),
                spec_method_scan(children@.take(i as int), file_imports@, *java_file_cache) == Some(
                    MethodScanView {
                        modifiers: modifiers.view(),
                        return_type: match return_type_opt {
                            Some(t) => Some(t@),
                            None => None,
                        },
                        return_type_detected,
                        name: match name_opt {
                            Some(n) => Some(n@),
                            None => None,
                        },
                        parameters: variable_views(parameters@),
                    },
                ),
            decreases children.len() - i,
        {
            proof {
                assert(children@.take(i + 1).drop_last() == children@.take(i as int));
                assert(children@.take(i + 1).last() == children@[i as int]);
            }
            let child_node = &children[i];
            if let Some(node_type) = child_node.get_node_type() {
                if JavaNodeType::Modifiers == node_type {
                    modifiers.read_modifiers(child_node, file_imports, java_file_cache);
                } else if child_node.is_data_type_identifier() {
                    match JavaDataType::get_data_type(child_node, file_imports, java_file_cache) {
                        Ok(data_type) => {
                            return_type_opt = Some(data_type);
                            return_type_detected = true;
                        },
                        Err(_) => {},
                    }
                } else if JavaNodeType::VoidType == node_type {
                    return_type_detected = true;
                } else if JavaNodeType::Id == node_type {
                    name_opt = Some(child_node.get_content_from_cache(java_file_cache));
                } else if JavaNodeType::FormalParams == node_type {
                    match JavaVariable::from_formal_params_node(
                        child_node,
                        file_imports,
                        java_file_cache.get_path(),
                    ) {
                        Ok(result) => parameters = result,
                        Err(err) => {
                            proof {
                                lemma_method_scan_none(children@, file_imports, java_file_cache, i + 1);
                                lemma_method_scan_error(children@.take(i as int), file_imports@, *java_file_cache);
                            }
                            let mut e = "Invalid java method parameters, ".to_owned();
                            e.append(err.as_str());
                            proof {
                                assert(spec_method_params_error(children@.take(i + 1), file_imports@) == Some(e@));
                                lemma_method_error_stays(children@, file_imports@, i + 1);
                            }
                            return Err(e);
                        },
                    }
                }
            }
            i = i + 1;
        }
        proof {
            assert(children@.take(children@.len() as int) == children@);
            lemma_method_scan_error(children@, file_imports@, *java_file_cache);
        }
        if !return_type_detected {
            return Err("Java method return type not detected".to_owned());
        }
        let name = match name_opt {
            Some(n) => n,
            None => {
                return Err("Java method name not detected.".to_owned());
            },
        };
        Ok(
            JavaMethod {
                annotations: modifiers.annotations,
                visibility: modifiers.visibility,
                is_static: modifiers.is_static,
                return_type: return_type_opt,
                name,
                parameters,
            },
        )
    }

    /// Appends to `result` the method as written in a class body at the indentation
    /// `indentation`, with an empty body.
    pub fn write_to_string(&self, result: &mut String, indentation: &JavaIndentation)
        ensures
            final(result)@ == old(result)@ + self@.spec_str(indentation.spec_current()),
    {
        let ghost start = result@;
        let indent = indentation.get_current_indentation();
        self.write_annotations(result, indentation);
        result.append(indent.as_str());
        let v = self.visibility.as_file_string();
        result.append(v.as_str());
        self.write_return_type(result);
        result.append(self.name.as_str());
        self.write_parameters(result);
        result.append(" {\n");
        result.append(indent.as_str());
        result.append("}\n");
        proof {
            assert(result@ =~= start + self@.spec_str(indentation.spec_current()));
        }
    }

    fn write_return_type(&self, result: &mut String)
        ensures
            final(result)@ == old(result)@ + match self@.return_type {
                Some(t) => t.spec_to_string() + " "@,
                None => "void "@,
            },
    {
        match &self.return_type {
            Some(t) => {
                let s = t.to_string();
                result.append(s.as_str());
                result.append(" ");
            },
            None => {
                result.append("void ");
            },
        }
    }

    fn write_annotations(&self, result: &mut String, indentation: &JavaIndentation)
        ensures
            final(result)@ == old(result)@ + spec_annotation_lines(self@.annotations, indentation.spec_current()),
    {
        let ghost start = result@;
        let mut i: usize = 0;
        while i < self.annotations.len()
            invariant
                i <= self.annotations.len(),
                result@ == start + spec_annotation_lines(
                    annotation_views(self.annotations@.take(i as int)),
                    indentation.spec_current(),
                ),
            decreases self.annotations.len() - i,
        {
            proof {
                let a = annotation_views(self.annotations@.take(i + 1));
                assert(a.drop_last() =~= annotation_views(self.annotations@.take(i as int)));
                assert(a.last() == self.annotations@[i as int].spec_import());
            }
            let s = self.annotations[i].to_file_string(indentation);
            result.append(s.as_str());
            i = i + 1;
        }
        proof {
            assert(self.annotations@.take(self.annotations@.len() as int) == self.annotations@);
        }
    }

    fn write_parameters(&self, result: &mut String)
        ensures
            final(result)@ == old(result)@ + "("@ + spec_params_str(self@.parameters) + ")"@,
    {
        let ghost start = result@;
        result.append("(");
        let mut i: usize = 0;
        while i < self.parameters.len()
            invariant
                i <= self.parameters.len(),
                result@ == start + "("@ + spec_params_str(variable_views(self.parameters@.take(i as int))),
            decreases self.parameters.len() - i,
        {
            proof {
                let p = variable_views(self.parameters@.take(i + 1));
                assert(p.drop_last() =~= variable_views(self.parameters@.take(i as int)));
                assert(p.last() == self.parameters@[i as int]@);
                if i == 0 {
                    assert(p.len() == 1);
                    assert(p[0] == self.parameters@[0]@);
                    assert(variable_views(self.parameters@.take(0)) =~= Seq::<JavaVariableView>::empty());
                }
            }
            if i > 0 {
                result.append(", ");
            }
            let s = self.parameters[i].to_string();
            result.append(s.as_str());
            i = i + 1;
        }
        proof {
            assert(self.parameters@.take(self.parameters@.len() as int) == self.parameters@);
        }
        result.append(")");
    }

    /// The imports that a file needs for the method: those of its annotations, of its return
    /// type, and of its parameters.
    pub fn get_imports(&self) -> (r: Vec<JavaImport>)
        ensures
            import_views(r@) == self@.spec_imports(),
    {
        let mut imports = annotation_imports(&self.annotations);
        let ghost after_annotations = import_views(imports@);
        if let Some(rt) = &self.return_type {
            if let Some(import) = rt.get_import_opt() {
                let ghost old_i = imports@;
                imports.push(import);
                proof {
                    assert(import_views(imports@) =~= import_views(old_i).push(import@));
                }
            }
        }
        let ghost before_params = import_views(imports@);
        let mut i: usize = 0;
        while i < self.parameters.len()
            invariant
                i <= self.parameters.len(),
                import_views(imports@) == before_params + spec_param_imports(
                    variable_views(self.parameters@.take(i as int)),
                ),
            decreases self.parameters.len() - i,
        {
            proof {
                let p = variable_views(self.parameters@.take(i + 1));
                assert(p.drop_last() =~= variable_views(self.parameters@.take(i as int)));
                assert(p.last() == self.parameters@[i as int]@);
            }
            if let Some(import) = self.parameters[i].get_import() {
                let ghost old_i = imports@;
                imports.push(import);
                proof {
                    assert(import_views(imports@) =~= import_views(old_i).push(import@));
                }
            }
            proof {
                assert(import_views(imports@) =~= before_params + spec_param_imports(
                    variable_views(self.parameters@.take(i + 1)),
                ));
            }
            i = i + 1;
        }
        proof {
            assert(self.parameters@.take(self.parameters@.len() as int) == self.parameters@);
            assert(import_views(imports@) =~= self@.spec_imports());
        }
        imports
    }
}

proof fn lemma_method_scan_none(children: Seq<JavaNode>, file_imports: &JavaFileImports, cache: &FileCache, n: int)
    requires
        0 < n <= children.len(),
        spec_method_scan(children.take(n), file_imports@, *cache) is None,
    ensures
        spec_method_scan(children, file_imports@, *cache) is None,
    decreases children.len() - n,
{
    if n < children.len() {
        assert(children.take(n + 1).drop_last() == children.take(n));
        lemma_method_scan_none(children, file_imports, cache, n + 1);
    } else {
        assert(children.take(n) == children);
    }
}

/// A builder of a method.
pub struct JavaMethodBuilder {
    annotations: Vec<JavaAnnotationUsage>,
    visibility: JavaVisibility,
    is_static: bool,
    return_type: Option<JavaDataType>,
    name: Option<String>,
    parameters: Vec<JavaVariable>,
}

impl JavaMethodBuilder {
    pub closed spec fn spec_annotations(&self) -> Seq<JavaImportView> {
        annotation_views(self.annotations@)
    }

    pub closed spec fn spec_visibility(&self) -> JavaVisibility {
        self.visibility
    }

    pub closed spec fn spec_is_static(&self) -> bool {
        self.is_static
    }

    pub closed spec fn spec_return_type(&self) -> Option<JavaDataTypeView> {
        match self.return_type {
            Some(t) => Some(t@),
            None => None,
        }
    }

    pub closed spec fn spec_name(&self) -> Option<Seq<char>> {
        match self.name {
            Some(n) => Some(n@),
            None => None,
        }
    }

    pub closed spec fn spec_parameters(&self) -> Seq<JavaVariableView> {
        variable_views(self.parameters@)
    }

    fn new_builder() -> (r: Self)
        ensures
            r.spec_annotations() == Seq::<JavaImportView>::empty(),
            r.spec_visibility() == JavaVisibility::Package,
            !r.spec_is_static(),
            r.spec_return_type() is None,
            r.spec_name() is None,
            r.spec_parameters() == Seq::<JavaVariableView>::empty(),
    {
        let r = Self {
            annotations: Vec::new(),
            visibility: JavaVisibility::Package,
            is_static: false,
            return_type: None,
            name: None,
            parameters: Vec::new(),
        };
        proof {
            assert(r.spec_annotations() =~= Seq::<JavaImportView>::empty());
            assert(r.spec_parameters() =~= Seq::<JavaVariableView>::empty());
        }
        r
    }

    /// Sets the annotations.
    pub fn annotations(&mut self, input: Vec<JavaAnnotationUsage>) -> (ret: &mut Self)
        ensures
            ret.spec_annotations() == annotation_views(input@),
            ret.spec_visibility() == old(self).spec_visibility(),
            ret.spec_is_static() == old(self).spec_is_static(),
            ret.spec_return_type() == old(self).spec_return_type(),
            ret.spec_name() == old(self).spec_name(),
            ret.spec_parameters() == old(self).spec_parameters(),
            *final(self) == *final(ret),
    {
        self.annotations = clone_annotations(&input);
        self
    }

    /// Sets the visibility.
    pub fn visibility(&mut self, input: JavaVisibility) -> (ret: &mut Self)
        ensures
            ret.spec_annotations() == old(self).spec_annotations(),
            ret.spec_visibility() == input,
            ret.spec_is_static() == old(self).spec_is_static(),
            ret.spec_return_type() == old(self).spec_return_type(),
            ret.spec_name() == old(self).spec_name(),
            ret.spec_parameters() == old(self).spec_parameters(),
            *final(self) == *final(ret),
    {
        self.visibility = input;
        self
    }

    /// Sets whether the method is static.
    pub fn is_static(&mut self, input: bool) -> (ret: &mut Self)
        ensures
            ret.spec_annotations() == old(self).spec_annotations(),
            ret.spec_visibility() == old(self).spec_visibility(),
            ret.spec_is_static() == input,
            ret.spec_return_type() == old(self).spec_return_type(),
            ret.spec_name() == old(self).spec_name(),
            ret.spec_parameters() == old(self).spec_parameters(),
            *final(self) == *final(ret),
    {
        self.is_static = input;
        self
    }

    /// Sets the return type.
    pub fn return_type(&mut self, input: JavaDataType) -> (ret: &mut Self)
        ensures
            ret.spec_annotations() == old(self).spec_annotations(),
            ret.spec_visibility() == old(self).spec_visibility(),
            ret.spec_is_static() == old(self).spec_is_static(),
            ret.spec_return_type() == Some(input@),
            ret.spec_name() == old(self).spec_name(),
            ret.spec_parameters() == old(self).spec_parameters(),
            *final(self) == *final(ret),
    {
        self.return_type = Some(input.clone());
        self
    }

    /// Sets the name.
    pub fn name(&mut self, input: &str) -> (ret: &mut Self)
        ensures
            ret.spec_annotations() == old(self).spec_annotations(),
            ret.spec_visibility() == old(self).spec_visibility(),
            ret.spec_is_static() == old(self).spec_is_static(),
            ret.spec_return_type() == old(self).spec_return_type(),
            ret.spec_name() == Some(input@),
            ret.spec_parameters() == old(self).spec_parameters(),
            *final(self) == *final(ret),
    {
        self.name = Some(input.to_owned());
        self
    }

    /// Sets the parameters.
    pub fn parameters(&mut self, input: Vec<JavaVariable>) -> (ret: &mut Self)
        ensures
            ret.spec_annotations() == old(self).spec_annotations(),
            ret.spec_visibility() == old(self).spec_visibility(),
            ret.spec_is_static() == old(self).spec_is_static(),
            ret.spec_return_type() == old(self).spec_return_type(),
            ret.spec_name() == old(self).spec_name(),
            ret.spec_parameters() == variable_views(input@),
            *final(self) == *final(ret),
    {
        self.parameters = clone_variables(&input);
        self
    }

    /// The method set so far; an error when the name is missing.
    pub fn build(&mut self) -> (r: Result<JavaMethod, String>)
        ensures
            r is Ok <==> old(self).spec_name() is Some,
            r matches Ok(m) ==> m@.annotations == old(self).spec_annotations() && m@.visibility
                == old(self).spec_visibility() && m@.is_static == old(self).spec_is_static()
                && m@.return_type == old(self).spec_return_type() && Some(m@.name) == old(
                self,
            ).spec_name() && m@.parameters == old(self).spec_parameters(),
            r matches Err(e) ==> e@ == "Missing mandatory name to build JavaMethod"@,
            *final(self) == *old(self),
    {
        let name = match &self.name {
            Some(n) => n.clone(),
            None => {
                return Err("Missing mandatory name to build JavaMethod".to_owned());
            },
        };
        Ok(
            JavaMethod {
                annotations: clone_annotations(&self.annotations),
                visibility: self.visibility,
                is_static: self.is_static,
                return_type: clone_data_type_opt(&self.return_type),
                name,
                parameters: clone_variables(&self.parameters),
            },
        )
    }
}

} // verus!
