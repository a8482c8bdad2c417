//! An annotation of generated Java code, known by its name.
use vstd::prelude::*;

verus! {

/// An annotation to write on a generated declaration.
pub struct JavaAnnotationGenerator {
    name: String,
}

impl View for JavaAnnotationGenerator {
    type V = Seq<char>;

    closed spec fn view(&self) -> Seq<char> {
        self.name@
    }
}

impl Clone for JavaAnnotationGenerator {
    fn clone(&self) -> (r: Self)
        ensures
            r@ == self@,
    {
        JavaAnnotationGenerator { name: self.name.clone() }
    }
}

impl JavaAnnotationGenerator {
    /// A builder with no name set.
    pub fn builder() -> (r: JavaAnnotationGeneratorBuilder)
        ensures
            r@ is None,
    {
        JavaAnnotationGeneratorBuilder { name: None }
    }

    /// The name of the annotation (such as `Test`).
    pub fn get_name(&self) -> (r: &str)
        ensures
            r@ == self@,
    {
        self.name.as_str()
    }
}

/// A builder of an annotation to generate.
pub struct JavaAnnotationGeneratorBuilder {
    name: Option<String>,
}

impl View for JavaAnnotationGeneratorBuilder {
    type V = Option<Seq<char>>;

    closed spec fn view(&self) -> Option<Seq<char>> {
        match self.name {
            Some(n) => Some(n@),
            None => None,
        }
    }
}

impl JavaAnnotationGeneratorBuilder {
    /// Sets the name.
    pub fn name(&mut self, input: &str) -> (ret: &mut Self)
        ensures
            ret@ == Some(input@),
            *final(self) == *final(ret),
    {
        self.name = Some(input.to_owned());
        self
    }

    /// The annotation with the name set; the name is set.
    pub fn build(&mut self) -> (r: JavaAnnotationGenerator)
        requires
            old(self)@ is Some,
        ensures
            Some(r@) == old(self)@,
            *final(self) == *old(self),
    {
        match &self.name {
            Some(n) => JavaAnnotationGenerator { name: n.clone() },
            None => JavaAnnotationGenerator { name: String::new() },
        }
    }
}

} // verus!
