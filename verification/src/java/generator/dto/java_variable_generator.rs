//! A parameter of a generated method.
use vstd::prelude::*;

use crate::java::generator::dto::java_data_type::{JavaBasicDataType, JavaDataType};

verus! {

/// What a generated variable holds.
pub struct JavaVariableGeneratorView {
    pub is_final: bool,
    pub data_type: JavaDataType,
    pub name: Seq<char>,
}

impl JavaVariableGeneratorView {
    /// The variable as written in a parameter list.
    pub open spec fn spec_to_string(self) -> Seq<char> {
        (if self.is_final {
            "final "@
        } else {
            Seq::empty()
        }) + self.data_type.spec_to_string() + " "@ + self.name
    }
}

/// A variable of generated code.
pub struct JavaVariableGenerator {
    is_final: bool,
    data_type: JavaDataType,
    name: String,
}

impl View for JavaVariableGenerator {
    type V = JavaVariableGeneratorView;

    closed spec fn view(&self) -> JavaVariableGeneratorView {
        JavaVariableGeneratorView { is_final: self.is_final, data_type: self.data_type, name: self.name@ }
    }
}

impl Clone for JavaVariableGenerator {
    fn clone(&self) -> (r: Self)
        ensures
            r@ == self@,
    {
        JavaVariableGenerator { is_final: self.is_final, data_type: self.data_type, name: self.name.clone() }
    }
}

impl JavaVariableGenerator {
    /// A variable with the given modifier, type and name.
    pub fn new(is_final: bool, data_type: JavaDataType, name: &str) -> (r: Self)
        ensures
            r@ == (JavaVariableGeneratorView { is_final, data_type, name: name@ }),
    {
        JavaVariableGenerator { is_final, data_type, name: name.to_owned() }
    }

    /// A final `int` variable named `var_name`.
    pub fn new_final_int(var_name: &str) -> (r: Self)
        ensures
            r@ == (JavaVariableGeneratorView {
                is_final: true,
                data_type: JavaDataType::Basic(JavaBasicDataType::Int),
                name: var_name@,
            }),
    {
        Self::new(true, JavaDataType::Basic(JavaBasicDataType::Int), var_name)
    }

    /// A final `String` variable named `var_name`.
    pub fn new_final_string(var_name: &str) -> (r: Self)
        ensures
            r@ == (JavaVariableGeneratorView {
                is_final: true,
                data_type: JavaDataType::Basic(JavaBasicDataType::String),
                name: var_name@,
            }),
    {
        Self::new(true, JavaDataType::Basic(JavaBasicDataType::String), var_name)
    }

    /// The variable as written in a parameter list.
    pub fn to_string(&self) -> (r: String)
        ensures
            r@ == self@.spec_to_string(),
    {
        let mut r = String::new();
        if self.is_final {
            r.append("final ");
        }
        let t = self.data_type.to_string();
        r.append(t.as_str());
        r.append(" ");
        r.append(self.name.as_str());
        r
    }
}

} // verus!
