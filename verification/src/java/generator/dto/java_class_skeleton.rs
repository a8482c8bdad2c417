//! The skeleton of a class to generate: its annotations, visibility, name, super class and
//! interfaces.
use vstd::prelude::*;

use crate::common::text::{clone_strings, views};
use crate::java::generator::dto::java_annotation_generator::JavaAnnotationGenerator;
use crate::java::generator::dto::java_visibility::JavaVisibility;

verus! {

/// What a class skeleton holds.
pub struct JavaClassSkeletonView {
    pub annotations: Seq<Seq<char>>,
    pub visibility: JavaVisibility,
    pub is_abstract: bool,
    pub name: Seq<char>,
    pub extended_class: Option<Seq<char>>,
    pub implemented_interface: Option<Seq<char>>,
    pub implemented_interfaces: Seq<Seq<char>>,
}

/// The skeleton of a class to generate.
pub struct JavaClassSkeleton {
    annotations: Vec<JavaAnnotationGenerator>,
    visibility: JavaVisibility,
    is_abstract: bool,
    name: String,
    extended_class: Option<String>,
    implemented_interface: Option<String>,
    implemented_interfaces: Vec<String>,
}

/// The names of a sequence of annotations.
pub open spec fn annotation_names(v: Seq<JavaAnnotationGenerator>) -> Seq<Seq<char>> {
    v.map_values(|a: JavaAnnotationGenerator| a@)
}


impl View for JavaClassSkeleton {
    type V = JavaClassSkeletonView;

    closed spec fn view(&self) -> JavaClassSkeletonView {
        JavaClassSkeletonView {
            annotations: annotation_names(self.annotations@),
            visibility: self.visibility,
            is_abstract: self.is_abstract,
            name: self.name@,
            extended_class: match self.extended_class {
                Some(c) => Some(c@),
                None => None,
            },
            implemented_interface: match self.implemented_interface {
                Some(c) => Some(c@),
                None => None,
            },
            implemented_interfaces: views(self.implemented_interfaces@),
        }
    }
}

impl JavaClassSkeleton {
    /// A builder with nothing set: package visibility, not abstract, no super class and no
    /// interface.
    pub fn builder() -> (r: JavaClassSkeletonBuilder)
        ensures
            r.spec_name() is None,
            r.spec_skeleton(Seq::empty()) == (JavaClassSkeletonView {
                annotations: Seq::empty(),
                visibility: JavaVisibility::Package,
                is_abstract: false,
                name: Seq::empty(),
                extended_class: None,
                implemented_interface: None,
                implemented_interfaces: Seq::empty(),
            }),
    {
        let r = JavaClassSkeletonBuilder {
            annotations: Vec::new(),
            visibility: JavaVisibility::Package,
            is_abstract: false,
            name: None,
            extended_class: None,
            implemented_interface: None,
            implemented_interfaces: Vec::new(),
        };
        proof {
            assert(annotation_names(r.annotations@) =~= Seq::<Seq<char>>::empty());
            assert(views(r.implemented_interfaces@) =~= Seq::<Seq<char>>::empty());
        }
        r
    }

    /// The annotations of the class.
    pub fn get_annotations(&self) -> (r: &Vec<JavaAnnotationGenerator>)
        ensures
            annotation_names(r@) == self@.annotations,
    {
        &self.annotations
    }

    /// The visibility of the class.
    pub fn get_visibility(&self) -> (r: &JavaVisibility)
        ensures
            *r == self@.visibility,
    {
        &self.visibility
    }

    /// Whether the class is abstract.
    pub fn is_abstract(&self) -> (r: bool)
        ensures
            r == self@.is_abstract,
    {
        self.is_abstract
    }

    /// The name of the class.
    pub fn get_name(&self) -> (r: &str)
        ensures
            r@ == self@.name,
    {
        self.name.as_str()
    }

    /// The class that the class extends, if any.
    pub fn get_extended_class(&self) -> (r: &Option<String>)
        ensures
            match (*r, self@.extended_class) {
                (Some(a), Some(b)) => a@ == b,
                (None, None) => true,
                _ => false,
            },
    {
        &self.extended_class
    }

    /// The interfaces that the class implements: the list set, then the single one set.
    pub fn get_implemented_interfaces(&self) -> (r: Vec<String>)
        ensures
            views(r@) == self@.implemented_interfaces + match self@.implemented_interface {
                Some(i) => seq![i],
                None => Seq::empty(),
            },
    {
        let mut result = clone_strings(&self.implemented_interfaces);
        if let Some(interface) = &self.implemented_interface {
            let ghost before = result@;
            result.push(interface.clone());
            proof {
                assert(views(result@) =~= views(before).push(interface@));
            }
        }
        proof {
            assert(views(result@) =~= self@.implemented_interfaces + match self@.implemented_interface {
                Some(i) => seq![i],
                None => Seq::empty(),
            });
        }
        result
    }
}

/// A builder of a class skeleton.
pub struct JavaClassSkeletonBuilder {
    annotations: Vec<JavaAnnotationGenerator>,
    visibility: JavaVisibility,
    is_abstract: bool,
    name: Option<String>,
    extended_class: Option<String>,
    implemented_interface: Option<String>,
    implemented_interfaces: Vec<String>,
}

impl JavaClassSkeletonBuilder {
    /// The name set, if any.
    pub closed spec fn spec_name(&self) -> Option<Seq<char>> {
        match self.name {
            Some(n) => Some(n@),
            None => None,
        }
    }

    /// The skeleton that the builder gives, with the name `name` when none is set.
    pub closed spec fn spec_skeleton(&self, name: Seq<char>) -> JavaClassSkeletonView {
        JavaClassSkeletonView {
            annotations: annotation_names(self.annotations@),
            visibility: self.visibility,
            is_abstract: self.is_abstract,
            name: match self.name {
                Some(n) => n@,
                None => name,
            },
            extended_class: match self.extended_class {
                Some(c) => Some(c@),
                None => None,
            },
            implemented_interface: match self.implemented_interface {
                Some(c) => Some(c@),
                None => None,
            },
            implemented_interfaces: views(self.implemented_interfaces@),
        }
    }

    /// Sets the annotations.
    pub fn annotations(&mut self, input: Vec<JavaAnnotationGenerator>) -> (ret: &mut Self)
        ensures
            ret.spec_name() == old(self).spec_name(),
            forall|n: Seq<char>| ret.spec_skeleton(n) == (JavaClassSkeletonView {
                annotations: annotation_names(input@),
                ..old(self).spec_skeleton(n)
            }),
            *final(self) == *final(ret),
    {
        self.annotations = input;
        self
    }

    /// Sets the visibility.
    pub fn visibility(&mut self, input: JavaVisibility) -> (ret: &mut Self)
        ensures
            ret.spec_name() == old(self).spec_name(),
            forall|n: Seq<char>| ret.spec_skeleton(n) == (JavaClassSkeletonView {
                visibility: input,
                ..old(self).spec_skeleton(n)
            }),
            *final(self) == *final(ret),
    {
        self.visibility = input;
        self
    }

    /// Sets whether the class is abstract.
    pub fn is_abstract(&mut self, input: bool) -> (ret: &mut Self)
        ensures
            ret.spec_name() == old(self).spec_name(),
            forall|n: Seq<char>| ret.spec_skeleton(n) == (JavaClassSkeletonView {
                is_abstract: input,
                ..old(self).spec_skeleton(n)
            }),
            *final(self) == *final(ret),
    {
        self.is_abstract = input;
        self
    }

    /// Sets the name.
    pub fn name(&mut self, input: &str) -> (ret: &mut Self)
        ensures
            ret.spec_name() == Some(input@),
            forall|n: Seq<char>| ret.spec_skeleton(n) == (JavaClassSkeletonView {
                name: input@,
                ..old(self).spec_skeleton(n)
            }),
            *final(self) == *final(ret),
    {
        self.name = Some(input.to_owned());
        self
    }

    /// Sets the class that the class extends.
    pub fn extended_class(&mut self, input: &str) -> (ret: &mut Self)
        ensures
            ret.spec_name() == old(self).spec_name(),
            forall|n: Seq<char>| ret.spec_skeleton(n) == (JavaClassSkeletonView {
                extended_class: Some(input@),
                ..old(self).spec_skeleton(n)
            }),
            *final(self) == *final(ret),
    {
        self.extended_class = Some(input.to_owned());
        self
    }

    /// Sets a single interface that the class implements.
    pub fn implemented_interface(&mut self, input: &str) -> (ret: &mut Self)
        ensures
            ret.spec_name() == old(self).spec_name(),
            forall|n: Seq<char>| ret.spec_skeleton(n) == (JavaClassSkeletonView {
                implemented_interface: Some(input@),
                ..old(self).spec_skeleton(n)
            }),
            *final(self) == *final(ret),
    {
        self.implemented_interface = Some(input.to_owned());
        self
    }

    /// Sets the interfaces that the class implements.
    pub fn implemented_interfaces(&mut self, input: Vec<String>) -> (ret: &mut Self)
        ensures
            ret.spec_name() == old(self).spec_name(),
            forall|n: Seq<char>| ret.spec_skeleton(n) == (JavaClassSkeletonView {
                implemented_interfaces: views(input@),
                ..old(self).spec_skeleton(n)
            }),
            *final(self) == *final(ret),
    {
        self.implemented_interfaces = input;
        self
    }

    /// The skeleton set so far; the name is set.
    pub fn build(&mut self) -> (r: JavaClassSkeleton)
        requires
            old(self).spec_name() is Some,
        ensures
            r@ == old(self).spec_skeleton(Seq::empty()),
            *final(self) == *old(self),
    {
        let name = match &self.name {
            Some(n) => n.clone(),
            None => String::new(),
        };
        let mut annotations: Vec<JavaAnnotationGenerator> = Vec::new();
        let mut i: usize = 0;
        while i < self.annotations.len()
            invariant
                i <= self.annotations.len(),
                annotation_names(annotations@) == annotation_names(self.annotations@.take(i as int)),
            decreases self.annotations.len() - i,
        {
            let ghost before = annotations@;
            let c = self.annotations[i].clone();
            annotations.push(c);
            proof {
                assert(annotation_names(annotations@) =~= annotation_names(before).push(c@));
                assert(annotation_names(self.annotations@.take(i + 1)) =~= annotation_names(
                    self.annotations@.take(i as int),
                ).push(self.annotations@[i as int]@));
            }
            i = i + 1;
        }
        proof {
            assert(self.annotations@.take(self.annotations@.len() as int) == self.annotations@);
        }
        JavaClassSkeleton {
            annotations,
            visibility: self.visibility,
            is_abstract: self.is_abstract,
            name,
            extended_class: match &self.extended_class {
                Some(c) => Some(c.clone()),
                None => None,
            },
            implemented_interface: match &self.implemented_interface {
                Some(c) => Some(c.clone()),
                None => None,
            },
            implemented_interfaces: clone_strings(&self.implemented_interfaces),
        }
    }
}

} // verus!
