//! A Java variable: a method parameter, with its type and name.
use vstd::prelude::*;

use crate::java::dto::java_data_type::{
    spec_from_generic_type_id, JavaBasicDataType, JavaDataType, JavaDataTypeView,
};
use crate::java::dto::java_import::{JavaImport, JavaImportView};
use crate::java::parser::java_node::JavaNode;
use crate::java::parser::java_node_type::JavaNodeType;
use crate::java::scanner::file::java_file_imports::{JavaFileImports, JavaFileImportsView};

verus! {

/// What a variable holds.
pub struct JavaVariableView {
    pub is_final: bool,
    pub data_type: JavaDataTypeView,
    pub name: Seq<char>,
}

impl JavaVariableView {
    /// The variable as written in a parameter list: `final int id`.
    pub open spec fn spec_to_string(self) -> Seq<char> {
        (if self.is_final {
            "final "@
        } else {
            Seq::empty()
        }) + self.data_type.spec_to_string() + " "@ + self.name
    }
}

/// A Java variable.
pub struct JavaVariable {
    is_final: bool,
    data_type: JavaDataType,
    name: String,
}

impl View for JavaVariable {
    type V = JavaVariableView;

    closed spec fn view(&self) -> JavaVariableView {
        JavaVariableView { is_final: self.is_final, data_type: self.data_type@, name: self.name@ }
    }
}

impl Clone for JavaVariable {
    fn clone(&self) -> (r: Self)
        ensures
            r@ == self@,
    {
        JavaVariable {
            is_final: self.is_final,
            data_type: self.data_type.clone(),
            name: self.name.clone(),
        }
    }
}

/// The views of the variables of a sequence.
pub open spec fn variable_views(v: Seq<JavaVariable>) -> Seq<JavaVariableView> {
    v.map_values(|x: JavaVariable| x@)
}

/// A copy of each variable, in order.
pub fn clone_variables(v: &Vec<JavaVariable>) -> (r: Vec<JavaVariable>)
    ensures
        variable_views(r@) == variable_views(v@),
{
    let mut r: Vec<JavaVariable> = Vec::new();
    let mut i: usize = 0;
    while i < v.len()
        invariant
            i <= v.len(),
            variable_views(r@) == variable_views(v@.take(i as int)),
        decreases v.len() - i,
    {
        let ghost old_r = r@;
        let c = v[i].clone();
        r.push(c);
        proof {
            assert(variable_views(r@) =~= variable_views(old_r).push(c@));
            assert(variable_views(v@.take(i + 1)) =~= variable_views(v@.take(i as int)).push(v@[i as int]@));
        }
        i = i + 1;
    }
    proof {
        assert(v@.take(v@.len() as int) == v@);
    }
    r
}

/// Whether some node of `children` has the kind `t`.
pub open spec fn spec_has_child_of_type(children: Seq<JavaNode>, t: JavaNodeType) -> bool {
    exists|i: int| 0 <= i < children.len() && #[trigger] children[i].spec_node_type() == Some(t)
}

/// The data type and the name that the children of a formal parameter give, read in order:
/// the last type identifier and the last identifier win; `None` when a type identifier names
/// no known type.
pub open spec fn spec_formal_param_scan(children: Seq<JavaNode>, file_imports: JavaFileImportsView) -> Option<
    (Option<JavaDataTypeView>, Option<Seq<char>>),
>
    decreases children.len(),
{
    if children.len() == 0 {
        Some((None, None))
    } else {
        match spec_formal_param_scan(children.drop_last(), file_imports) {
            None => None,
            Some((dt, name)) => {
                let c = children.last();
                if c.spec_node_type() == Some(JavaNodeType::TypeIdentifier) {
                    match spec_from_generic_type_id(c.spec_content(), file_imports) {
                        Some(d) => Some((Some(d), name)),
                        None => None,
                    }
                } else if c.spec_node_type() == Some(JavaNodeType::Id) {
                    Some((dt, Some(c.spec_content())))
                } else {
                    Some((dt, name))
                }
            },
        }
    }
}

/// The error of the first type identifier among `children` that names no known type, if any.
pub open spec fn spec_formal_param_type_error(children: Seq<JavaNode>, file_imports: JavaFileImportsView) -> Option<
    Seq<char>,
>
    decreases children.len(),
{
    if children.len() == 0 {
        None
    } else {
        match spec_formal_param_type_error(children.drop_last(), file_imports) {
            Some(e) => Some(e),
            None => {
                let c = children.last();
                if c.spec_node_type() == Some(JavaNodeType::TypeIdentifier) && spec_from_generic_type_id(
                    c.spec_content(),
                    file_imports,
                ) is None {
                    Some("Import for \""@ + c.spec_content() + "\" not found."@)
                } else {
                    None
                }
            },
        }
    }
}

/// Why a formal parameter node declares no variable: a type identifier that names no known
/// type, or else a missing type, or else a missing name.
pub open spec fn spec_formal_param_error(node: JavaNode, file_imports: JavaFileImportsView) -> Seq<char> {
    match spec_formal_param_type_error(node.spec_children(), file_imports) {
        Some(e) => e,
        None => match spec_formal_param_scan(node.spec_children(), file_imports) {
            Some((None, _)) => "Java data type is mandatory to build variable"@,
            _ => "Java variable name is mandatory"@,
        },
    }
}

/// The error of the first formal parameter among `children` that declares no variable, if any.
pub open spec fn spec_formal_params_error(children: Seq<JavaNode>, file_imports: JavaFileImportsView) -> Option<
    Seq<char>,
>
    decreases children.len(),
{
    if children.len() == 0 {
        None
    } else {
        match spec_formal_params_error(children.drop_last(), file_imports) {
            Some(e) => Some(e),
            None => {
                let c = children.last();
                if c.spec_node_type() == Some(JavaNodeType::FormalParam) && spec_formal_param(
                    c,
                    file_imports,
                ) is None {
                    Some(spec_formal_param_error(c, file_imports))
                } else {
                    None
                }
            },
        }
    }
}

/// A formal parameter fails to be read exactly when one of its type identifiers names no known
/// type.
pub proof fn lemma_formal_param_scan_error(children: Seq<JavaNode>, file_imports: JavaFileImportsView)
    ensures
        spec_formal_param_scan(children, file_imports) is None <==> spec_formal_param_type_error(
            children,
            file_imports,
        ) is Some,
    decreases children.len(),
{
    if children.len() > 0 {
        lemma_formal_param_scan_error(children.drop_last(), file_imports);
    }
}

/// The parameters fail to be read exactly when one of them declares no variable.
pub proof fn lemma_formal_params_error(children: Seq<JavaNode>, file_imports: JavaFileImportsView)
    ensures
        spec_formal_params(children, file_imports) is None <==> spec_formal_params_error(
            children,
            file_imports,
        ) is Some,
    decreases children.len(),
{
    if children.len() > 0 {
        lemma_formal_params_error(children.drop_last(), file_imports);
    }
}

/// Once a prefix of `children` has an error, so do all of them.
proof fn lemma_type_error_stays(children: Seq<JavaNode>, file_imports: JavaFileImportsView, n: int)
    requires
        0 < n <= children.len(),
        spec_formal_param_type_error(children.take(n), file_imports) is Some,
    ensures
        spec_formal_param_type_error(children, file_imports) == spec_formal_param_type_error(
            children.take(n),
            file_imports,
        ),
    decreases children.len() - n,
{
    if n < children.len() {
        assert(children.take(n + 1).drop_last() == children.take(n));
        lemma_type_error_stays(children, file_imports, n + 1);
    } else {
        assert(children.take(n) == children);
    }
}

/// Once a prefix of `children` has an error, so do all of them.
proof fn lemma_params_error_stays(children: Seq<JavaNode>, file_imports: JavaFileImportsView, n: int)
    requires
        0 < n <= children.len(),
        spec_formal_params_error(children.take(n), file_imports) is Some,
    ensures
        spec_formal_params_error(children, file_imports) == spec_formal_params_error(
            children.take(n),
            file_imports,
        ),
    decreases children.len() - n,
{
    if n < children.len() {
        assert(children.take(n + 1).drop_last() == children.take(n));
        lemma_params_error_stays(children, file_imports, n + 1);
    } else {
        assert(children.take(n) == children);
    }
}

/// The variable that a formal parameter node declares, if it declares one: it is final when the
/// node has modifiers and a `final` child.
pub open spec fn spec_formal_param(node: JavaNode, file_imports: JavaFileImportsView) -> Option<JavaVariableView> {
    let children = node.spec_children();
    match spec_formal_param_scan(children, file_imports) {
        Some((Some(dt), Some(name))) => Some(
            JavaVariableView {
                is_final: spec_has_child_of_type(children, JavaNodeType::Modifiers)
                    && spec_has_child_of_type(children, JavaNodeType::Final),
                data_type: dt,
                name,
            },
        ),
        _ => None,
    }
}

/// The variables that the formal parameter nodes among `children` declare, in order; `None`
/// when one of them declares none.
pub open spec fn spec_formal_params(children: Seq<JavaNode>, file_imports: JavaFileImportsView) -> Option<
    Seq<JavaVariableView>,
>
    decreases children.len(),
{
    if children.len() == 0 {
        Some(Seq::empty())
    } else {
        match spec_formal_params(children.drop_last(), file_imports) {
            None => None,
            Some(vs) => {
                let c = children.last();
                if c.spec_node_type() == Some(JavaNodeType::FormalParam) {
                    match spec_formal_param(c, file_imports) {
                        Some(v) => Some(vs.push(v)),
                        None => None,
                    }
                } else {
                    Some(vs)
                }
            },
        }
    }
}

impl JavaVariable {
    /// A builder with nothing set and `is_final` false.
    pub fn builder() -> (r: JavaVariableBuilder)
        ensures
            !r.spec_is_final(),
            r.spec_data_type() is None,
            r.spec_name() is None,
    {
        JavaVariableBuilder::new_builder()
    }

    /// A final `int` variable named `var_name`.
    pub fn new_final_int(var_name: &str) -> (r: Self)
        ensures
            r@ == (JavaVariableView {
                is_final: true,
                data_type: JavaDataTypeView::Basic(JavaBasicDataType::Int),
                name: var_name@,
            }),
    {
        JavaVariable {
            is_final: true,
            data_type: JavaDataType::Basic(JavaBasicDataType::Int),
            name: var_name.to_owned(),
        }
    }

    /// A final `String` variable named `var_name`.
    pub fn new_final_string(var_name: &str) -> (r: Self)
        ensures
            r@ == (JavaVariableView {
                is_final: true,
                data_type: JavaDataTypeView::Basic(JavaBasicDataType::String),
                name: var_name@,
            }),
    {
        JavaVariable {
            is_final: true,
            data_type: JavaDataType::Basic(JavaBasicDataType::String),
            name: var_name.to_owned(),
        }
    }

    /// The variables declared by the formal parameter children of `root_node`, in order; an
    /// error when one of them declares none.
    pub fn from_formal_params_node(
        root_node: &JavaNode,
        file_imports: &JavaFileImports,
        input_java_file: &str,
    ) -> (r: Result<Vec<Self>, String>)
        ensures
            r is Ok <==> spec_formal_params(root_node.spec_children(), file_imports@) is Some,
            r matches Ok(v) ==> spec_formal_params(root_node.spec_children(), file_imports@)
                == Some(variable_views(v@)),
            r matches Err(e) ==> spec_formal_params_error(root_node.spec_children(), file_imports@)
                == Some(e@),
    {
        let children = root_node.get_children();
        let mut params: Vec<JavaVariable> = Vec::new();
        let mut i: usize = 0;
        while i < children.len()
            invariant
                children@ == root_node.spec_children(),
                i <= children.len(),
                spec_formal_params(children@.take(i as int), file_imports@) == Some(
                    variable_views(params@),
                ),
            decreases children.len() - i,
        {
            let param_node = &children[i];
            proof {
                assert(children@.take(i + 1).drop_last() == children@.take(i as int));
                assert(children@.take(i + 1).last() == children@[i as int]);
            }
            if Some(JavaNodeType::FormalParam) == param_node.get_node_type_opt() {
                let v = Self::from_formal_param_node(param_node, file_imports, input_java_file);
                match v {
                    Ok(v) => {
                        params.push(v);
                        proof {
                            assert(variable_views(params@) == variable_views(
                                params@.drop_last(),
                            ).push(params@.last()@));
                        }
                    },
                    Err(e) => {
                        proof {
                            lemma_formal_params_none(children@, file_imports, i + 1);
                            lemma_formal_params_error(children@.take(i as int), file_imports@);
                            assert(spec_formal_params_error(children@.take(i + 1), file_imports@) == Some(e@));
                            lemma_params_error_stays(children@, file_imports@, i + 1);
                        }
                        return Err(e);
                    },
                }
            }
            i = i + 1;
        }
        proof {
            assert(children@.take(children@.len() as int) == children@);
        }
        Ok(params)
    }

    /// The variable that a formal parameter node declares; an error when a type identifier
    /// child names no known type, or the type or the name is missing.
    pub fn from_formal_param_node(
        root_node: &JavaNode,
        file_imports: &JavaFileImports,
        _input_java_file: &str,
    ) -> (r: Result<Self, String>)
        ensures
            r is Ok <==> spec_formal_param(*root_node, file_imports@) is Some,
            r matches Ok(v) ==> spec_formal_param(*root_node, file_imports@) == Some(v@),
            r matches Err(e) ==> e@ == spec_formal_param_error(*root_node, file_imports@),
    {
        let children = root_node.get_children();
        let mut is_final = false;
        let mut data_type_opt: Option<JavaDataType> = None;
        let mut name_opt: Option<String> = None;
        let mut i: usize = 0;
        while i < children.len()
            invariant
                children@ == root_node.spec_children(),
                i <= children.len(),
                spec_formal_param_scan(children@.take(i as int), file_imports@) == Some(
                    (
                        match data_type_opt {
                            Some(d) => Some(d@),
                            None => None,
                        },
                        match name_opt {
                            Some(n) => Some(n@),
                            None => None,
                        },
                    ),
                ),
                is_final == (spec_has_child_of_type(children@.take(i as int), JavaNodeType::Modifiers)
                    && spec_has_child_of_type(children@, JavaNodeType::Final)),
            decreases children.len() - i,
        {
            let child_node = &children[i];
            proof {
                assert(children@.take(i + 1).drop_last() == children@.take(i as int));
                assert(children@.take(i + 1).last() == children@[i as int]);
                lemma_has_child_push(children@, i as int, JavaNodeType::Modifiers);
            }
            if Some(JavaNodeType::Modifiers) == child_node.get_node_type_opt() {
                let has_final = Self::has_final_child(children);
                if has_final {
                    is_final = true;
                }
            }
            if Some(JavaNodeType::TypeIdentifier) == child_node.get_node_type_opt() {
                let content = child_node.get_content();
                match JavaDataType::from_generic_type_id(
                    content.as_str(),
                    file_imports,
                    _input_java_file,
                ) {
                    Ok(data_type) => data_type_opt = Some(data_type),
                    Err(err) => {
                        proof {
                            lemma_scan_none(children@, file_imports, i + 1);
                            lemma_formal_param_scan_error(children@.take(i as int), file_imports@);
                            assert(spec_formal_param_type_error(children@.take(i + 1), file_imports@) == Some(err@));
                            lemma_type_error_stays(children@, file_imports@, i + 1);
                        }
                        return Err(err);
                    },
                }
            }
            if Some(JavaNodeType::Id) == child_node.get_node_type_opt() {
                name_opt = Some(child_node.get_content());
            }
            i = i + 1;
        }
        proof {
            assert(children@.take(children@.len() as int) == children@);
            lemma_formal_param_scan_error(children@, file_imports@);
        }
        let data_type = match data_type_opt {
            Some(d) => d,
            None => {
                return Err("Java data type is mandatory to build variable".to_owned());
            },
        };
        let name = match name_opt {
            Some(n) => n,
            None => {
                return Err("Java variable name is mandatory".to_owned());
            },
        };
        Ok(JavaVariable { is_final, data_type, name })
    }

    fn has_final_child(children: &Vec<JavaNode>) -> (r: bool)
        ensures
            r == spec_has_child_of_type(children@, JavaNodeType::Final),
    {
        let mut i: usize = 0;
        while i < children.len()
            invariant
                i <= children.len(),
                forall|j: int| 0 <= j < i ==> children@[j].spec_node_type() != Some(JavaNodeType::Final),
            decreases children.len() - i,
        {
            if Some(JavaNodeType::Final) == children[i].get_node_type_opt() {
                return true;
            }
            i = i + 1;
        }
        false
    }

    /// The import that the type of the variable needs, if any.
    pub fn get_import(&self) -> (r: Option<JavaImport>)
        ensures
            r matches Some(i) ==> self@.data_type.spec_import() == Some(i@),
            r is None ==> self@.data_type.spec_import() is None,
    {
        self.data_type.get_import()
    }

    /// The variable as written in a parameter list: `final int id`.
    pub fn to_string(&self) -> (r: String)
        ensures
            r@ == self@.spec_to_string(),
    {
        let mut r = String::new();
        if self.is_final {
            r.append("final ");
        }
        let t = self.data_type.to_string();
        r.append(t.as_str());
        r.append(" ");
        r.append(self.name.as_str());
        r
    }
}

proof fn lemma_has_child_push(children: Seq<JavaNode>, i: int, t: JavaNodeType)
    requires
        0 <= i < children.len(),
    ensures
        spec_has_child_of_type(children.take(i + 1), t) == (spec_has_child_of_type(
            children.take(i),
            t,
        ) || children[i].spec_node_type() == Some(t)),
{
    if spec_has_child_of_type(children.take(i + 1), t) {
        let j = choose|j: int|
            0 <= j < children.take(i + 1).len() && #[trigger] children.take(i + 1)[j].spec_node_type()
                == Some(t);
        if j < i {
            assert(children.take(i)[j] == children[j]);
        }
    }
    if spec_has_child_of_type(children.take(i), t) {
        let j = choose|j: int|
            0 <= j < children.take(i).len() && #[trigger] children.take(i)[j].spec_node_type() == Some(t);
        assert(children.take(i + 1)[j] == children[j]);
    }
    if children[i].spec_node_type() == Some(t) {
        assert(children.take(i + 1)[i] == children[i]);
    }
}

proof fn lemma_scan_none(children: Seq<JavaNode>, file_imports: &JavaFileImports, n: int)
    requires
        0 < n <= children.len(),
        spec_formal_param_scan(children.take(n), file_imports@) is None,
    ensures
        spec_formal_param_scan(children, file_imports@) is None,
    decreases children.len() - n,
{
    if n < children.len() {
        assert(children.take(n + 1).drop_last() == children.take(n));
        lemma_scan_none(children, file_imports, n + 1);
    } else {
        assert(children.take(n) == children);
    }
}

proof fn lemma_formal_params_none(children: Seq<JavaNode>, file_imports: &JavaFileImports, n: int)
    requires
        0 < n <= children.len(),
        spec_formal_params(children.take(n), file_imports@) is None,
    ensures
        spec_formal_params(children, file_imports@) is None,
    decreases children.len() - n,
{
    if n < children.len() {
        assert(children.take(n + 1).drop_last() == children.take(n));
        lemma_formal_params_none(children, file_imports, n + 1);
    } else {
        assert(children.take(n) == children);
    }
}

/// A builder of a variable.
pub struct JavaVariableBuilder {
    is_final: bool,
    data_type: Option<JavaDataType>,
    name: Option<String>,
}

impl JavaVariableBuilder {
    pub closed spec fn spec_is_final(&self) -> bool {
        self.is_final
    }

    pub closed spec fn spec_data_type(&self) -> Option<JavaDataTypeView> {
        match self.data_type {
            Some(d) => Some(d@),
            None => None,
        }
    }

    pub closed spec fn spec_name(&self) -> Option<Seq<char>> {
        match self.name {
            Some(n) => Some(n@),
            None => None,
        }
    }

    fn new_builder() -> (r: Self)
        ensures
            !r.spec_is_final(),
            r.spec_data_type() is None,
            r.spec_name() is None,
    {
        Self { is_final: false, data_type: None, name: None }
    }

    /// Sets whether the variable is final.
    pub fn is_final(&mut self, input: bool) -> (ret: &mut Self)
        ensures
            ret.spec_is_final() == input,
            ret.spec_data_type() == old(self).spec_data_type(),
            ret.spec_name() == old(self).spec_name(),
            *final(self) == *final(ret),
    {
        self.is_final = input;
        self
    }

    /// Sets the type of the variable.
    pub fn data_type(&mut self, input: JavaDataType) -> (ret: &mut Self)
        ensures
            ret.spec_is_final() == old(self).spec_is_final(),
            ret.spec_data_type() == Some(input@),
            ret.spec_name() == old(self).spec_name(),
            *final(self) == *final(ret),
    {
        self.data_type = Some(input);
        self
    }

    /// Sets the name of the variable.
    pub fn name(&mut self, input: &str) -> (ret: &mut Self)
        ensures
            ret.spec_is_final() == old(self).spec_is_final(),
            ret.spec_data_type() == old(self).spec_data_type(),
            ret.spec_name() == Some(input@),
            *final(self) == *final(ret),
    {
        self.name = Some(input.to_owned());
        self
    }

    /// The variable set so far; an error when the type or the name is missing.
    pub fn build(&mut self) -> (r: Result<JavaVariable, String>)
        ensures
            r is Ok <==> old(self).spec_data_type() is Some && old(self).spec_name() is Some,
            r matches Ok(v) ==> v@.is_final == old(self).spec_is_final() && Some(v@.data_type)
                == old(self).spec_data_type() && Some(v@.name) == old(self).spec_name(),
            old(self).spec_data_type() is None ==> (r matches Err(e) && e@
                == "Java data type is mandatory to create a JavaVariable"@),
            old(self).spec_data_type() is Some && old(self).spec_name() is None ==> (r matches Err(e)
                && e@ == "Java variable name is mandatory to create a JavaVariable"@),
            *final(self) == *old(self),
    {
        let data_type = match &self.data_type {
            Some(d) => d.clone(),
            None => {
                return Err("Java data type is mandatory to create a JavaVariable".to_owned());
            },
        };
        let name = match &self.name {
            Some(n) => n.clone(),
            None => {
                return Err("Java variable name is mandatory to create a JavaVariable".to_owned());
            },
        };
        Ok(JavaVariable { is_final: self.is_final, data_type, name })
    }
}

} // verus!
