//! The skeleton of a method to generate: its annotations, visibility, return type, name,
//! parameters and body.
use vstd::prelude::*;

use crate::java::generator::dto::java_annotation_generator::JavaAnnotationGenerator;
use crate::java::generator::dto::java_class_skeleton::annotation_names;
use crate::java::generator::dto::java_data_type::JavaDataType;
use crate::java::generator::dto::java_steps_generator::JavaStepsGenerator;
use crate::java::generator::dto::java_variable_generator::{JavaVariableGenerator, JavaVariableGeneratorView};
use crate::java::generator::dto::java_visibility::JavaVisibility;

verus! {

/// What a method skeleton holds.
pub struct JavaMethodGeneratorView {
    pub annotations: Seq<Seq<char>>,
    pub visibility: JavaVisibility,
    pub return_type: Option<JavaDataType>,
    pub name: Seq<char>,
    pub parameters: Seq<JavaVariableGeneratorView>,
    pub has_body: bool,
}

/// The views of the variables of a sequence.
pub open spec fn parameter_views(v: Seq<JavaVariableGenerator>) -> Seq<JavaVariableGeneratorView> {
    v.map_values(|p: JavaVariableGenerator| p@)
}

/// The skeleton of a method to generate.
pub struct JavaMethodGenerator {
    annotations: Vec<JavaAnnotationGenerator>,
    visibility: JavaVisibility,
    return_type: Option<JavaDataType>,
    name: String,
    parameters: Vec<JavaVariableGenerator>,
    body: Option<JavaStepsGenerator>,
}

impl View for JavaMethodGenerator {
    type V = JavaMethodGeneratorView;

    closed spec fn view(&self) -> JavaMethodGeneratorView {
        JavaMethodGeneratorView {
            annotations: annotation_names(self.annotations@),
            visibility: self.visibility,
            return_type: self.return_type,
            name: self.name@,
            parameters: parameter_views(self.parameters@),
            has_body: self.body is Some,
        }
    }
}

impl JavaMethodGenerator {
    /// A builder with nothing set: private visibility, no return type (`void`), no parameter
    /// and no body.
    pub fn builder() -> (r: JavaMethodGeneratorBuilder)
        ensures
            r.spec_name() is None,
            r.spec_method(Seq::empty()) == (JavaMethodGeneratorView {
                annotations: Seq::empty(),
                visibility: JavaVisibility::Private,
                return_type: None,
                name: Seq::empty(),
                parameters: Seq::empty(),
                has_body: false,
            }),
    {
        let r = JavaMethodGeneratorBuilder {
            annotations: Vec::new(),
            visibility: JavaVisibility::Private,
            return_type: None,
            name: None,
            parameters: Vec::new(),
            body: None,
        };
        proof {
            assert(annotation_names(r.annotations@) =~= Seq::<Seq<char>>::empty());
            assert(parameter_views(r.parameters@) =~= Seq::<JavaVariableGeneratorView>::empty());
        }
        r
    }

    /// The annotations of the method.
    pub fn get_annotations(&self) -> (r: &Vec<JavaAnnotationGenerator>)
        ensures
            annotation_names(r@) == self@.annotations,
    {
        &self.annotations
    }

    /// The visibility of the method.
    pub fn get_visibility(&self) -> (r: &JavaVisibility)
        ensures
            *r == self@.visibility,
    {
        &self.visibility
    }

    /// The return type of the method; `None` for `void`.
    pub fn get_return_type(&self) -> (r: &Option<JavaDataType>)
        ensures
            *r == self@.return_type,
    {
        &self.return_type
    }

    /// The name of the method.
    pub fn get_name(&self) -> (r: &str)
        ensures
            r@ == self@.name,
    {
        self.name.as_str()
    }

    /// The parameters of the method, in order.
    pub fn get_parameters(&self) -> (r: &Vec<JavaVariableGenerator>)
        ensures
            parameter_views(r@) == self@.parameters,
    {
        &self.parameters
    }

    /// The body of the method, if any.
    pub fn get_body(&self) -> (r: &Option<JavaStepsGenerator>)
        ensures
            r is Some == self@.has_body,
    {
        &self.body
    }
}

/// A builder of a method skeleton.
pub struct JavaMethodGeneratorBuilder {
    annotations: Vec<JavaAnnotationGenerator>,
    visibility: JavaVisibility,
    return_type: Option<JavaDataType>,
    name: Option<String>,
    parameters: Vec<JavaVariableGenerator>,
    body: Option<JavaStepsGenerator>,
}

impl JavaMethodGeneratorBuilder {
    /// The name set, if any.
    pub closed spec fn spec_name(&self) -> Option<Seq<char>> {
        match self.name {
            Some(n) => Some(n@),
            None => None,
        }
    }

    /// The method that the builder gives, with the name `name` when none is set.
    pub closed spec fn spec_method(&self, name: Seq<char>) -> JavaMethodGeneratorView {
        JavaMethodGeneratorView {
            annotations: annotation_names(self.annotations@),
            visibility: self.visibility,
            return_type: self.return_type,
            name: match self.name {
                Some(n) => n@,
                None => name,
            },
            parameters: parameter_views(self.parameters@),
            has_body: self.body is Some,
        }
    }

    /// Sets the annotations.
    pub fn annotations(&mut self, input: Vec<JavaAnnotationGenerator>) -> (ret: &mut Self)
        ensures
            ret.spec_name() == old(self).spec_name(),
            forall|n: Seq<char>| ret.spec_method(n) == (JavaMethodGeneratorView {
                annotations: annotation_names(input@),
                ..old(self).spec_method(n)
            }),
            *final(self) == *final(ret),
    {
        self.annotations = input;
        self
    }

    /// Sets the visibility.
    pub fn visibility(&mut self, input: JavaVisibility) -> (ret: &mut Self)
        ensures
            ret.spec_name() == old(self).spec_name(),
            forall|n: Seq<char>| ret.spec_method(n) == (JavaMethodGeneratorView {
                visibility: input,
                ..old(self).spec_method(n)
            }),
            *final(self) == *final(ret),
    {
        self.visibility = input;
        self
    }

    /// Sets the return type.
    pub fn return_type(&mut self, input: JavaDataType) -> (ret: &mut Self)
        ensures
            ret.spec_name() == old(self).spec_name(),
            forall|n: Seq<char>| ret.spec_method(n) == (JavaMethodGeneratorView {
                return_type: Some(input),
                ..old(self).spec_method(n)
            }),
            *final(self) == *final(ret),
    {
        self.return_type = Some(input);
        self
    }

    /// Sets the name.
    pub fn name(&mut self, input: &str) -> (ret: &mut Self)
        ensures
            ret.spec_name() == Some(input@),
            forall|n: Seq<char>| ret.spec_method(n) == (JavaMethodGeneratorView {
                name: input@,
                ..old(self).spec_method(n)
            }),
            *final(self) == *final(ret),
    {
        self.name = Some(input.to_owned());
        self
    }

    /// Sets the parameters.
    pub fn parameters(&mut self, input: Vec<JavaVariableGenerator>) -> (ret: &mut Self)
        ensures
            ret.spec_name() == old(self).spec_name(),
            forall|n: Seq<char>| ret.spec_method(n) == (JavaMethodGeneratorView {
                parameters: parameter_views(input@),
                ..old(self).spec_method(n)
            }),
            *final(self) == *final(ret),
    {
        self.parameters = input;
        self
    }

    /// Sets the body.
    pub fn body(&mut self, input: JavaStepsGenerator) -> (ret: &mut Self)
        ensures
            ret.spec_name() == old(self).spec_name(),
            forall|n: Seq<char>| ret.spec_method(n) == (JavaMethodGeneratorView {
                has_body: true,
                ..old(self).spec_method(n)
            }),
            *final(self) == *final(ret),
    {
        self.body = Some(input);
        self
    }

    /// The method skeleton set so far; the name is set.
    pub fn build(&mut self) -> (r: JavaMethodGenerator)
        requires
            old(self).spec_name() is Some,
        ensures
            r@ == old(self).spec_method(Seq::empty()),
            *final(self) == *old(self),
    {
        let name = match &self.name {
            Some(n) => n.clone(),
            None => String::new(),
        };
        let mut annotations: Vec<JavaAnnotationGenerator> = Vec::new();
        let mut i: usize = 0;
        while i < self.annotations.len()
            invariant
                i <= self.annotations.len(),
                annotation_names(annotations@) == annotation_names(self.annotations@.take(i as int)),
            decreases self.annotations.len() - i,
        {
            let ghost before = annotations@;
            let c = self.annotations[i].clone();
            annotations.push(c);
            proof {
                assert(annotation_names(annotations@) =~= annotation_names(before).push(c@));
                assert(annotation_names(self.annotations@.take(i + 1)) =~= annotation_names(
                    self.annotations@.take(i as int),
                ).push(self.annotations@[i as int]@));
            }
            i = i + 1;
        }
        let mut parameters: Vec<JavaVariableGenerator> = Vec::new();
        let mut k: usize = 0;
        while k < self.parameters.len()
            invariant
                k <= self.parameters.len(),
                parameter_views(parameters@) == parameter_views(self.parameters@.take(k as int)),
            decreases self.parameters.len() - k,
        {
            let ghost before = parameters@;
            let c = self.parameters[k].clone();
            parameters.push(c);
            proof {
                assert(parameter_views(parameters@) =~= parameter_views(before).push(c@));
                assert(parameter_views(self.parameters@.take(k + 1)) =~= parameter_views(
                    self.parameters@.take(k as int),
                ).push(self.parameters@[k as int]@));
            }
            k = k + 1;
        }
        proof {
            assert(self.annotations@.take(self.annotations@.len() as int) == self.annotations@);
            assert(self.parameters@.take(self.parameters@.len() as int) == self.parameters@);
        }
        JavaMethodGenerator {
            annotations,
            visibility: self.visibility,
            return_type: self.return_type,
            name,
            parameters,
            body: self.body,
        }
    }
}

} // verus!
