//! Indentation of generated Java code: a base text repeated once per level.
use vstd::prelude::*;

use crate::common::text::{repeat, spec_repeat};

verus! {

/// An indentation: the base text and the current level.
#[derive(Debug)]
pub struct JavaIndentation {
    base_indentation: String,
    current_level: usize,
}

impl JavaIndentation {
    pub closed spec fn spec_base(&self) -> Seq<char> {
        self.base_indentation@
    }

    pub closed spec fn spec_level(&self) -> nat {
        self.current_level as nat
    }

    /// The indentation written at the current level.
    pub open spec fn spec_current(&self) -> Seq<char> {
        spec_repeat(self.spec_base(), self.spec_level())
    }

    /// A builder of an indentation of four spaces per level, at level zero.
    pub fn builder() -> (r: JavaIndentationBuilder)
        ensures
            r.spec_base() == "    "@,
            r.spec_level() == 0,
    {
        JavaIndentationBuilder::new_builder()
    }

    /// An indentation of four spaces per level, at level zero.
    pub fn default() -> (r: Self)
        ensures
            r.spec_base() == "    "@,
            r.spec_level() == 0,
    {
        JavaIndentationBuilder::new_builder().build()
    }

    /// The base text written once per level.
    pub fn get_current_indentation(&self) -> (r: String)
        ensures
            r@ == self.spec_current(),
    {
        repeat(self.base_indentation.as_str(), self.current_level)
    }

    /// One level deeper.
    pub fn increase_level(&mut self)
        requires
            old(self).spec_level() < usize::MAX,
        ensures
            final(self).spec_level() == old(self).spec_level() + 1,
            final(self).spec_base() == old(self).spec_base(),
    {
        self.current_level = self.current_level + 1;
    }

    /// One level less deep.
    pub fn decrease_level(&mut self)
        requires
            old(self).spec_level() > 0,
        ensures
            final(self).spec_level() == old(self).spec_level() - 1,
            final(self).spec_base() == old(self).spec_base(),
    {
        self.current_level = self.current_level - 1;
    }
}

/// One level deeper adds the base text once: the indentation at level `n + 1` is the one at
/// level `n` followed by the base.
pub proof fn law_increase_level_appends_base(base: Seq<char>, level: nat)
    ensures
        spec_repeat(base, level + 1) == spec_repeat(base, level) + base,
{
}

/// The indentation at level `n` is `n` times as long as its base.
pub proof fn law_indentation_length(base: Seq<char>, level: nat)
    ensures
        spec_repeat(base, level).len() == level * base.len(),
    decreases level,
{
    if level > 0 {
        law_indentation_length(base, (level - 1) as nat);
        assert(level * base.len() == (level - 1) * base.len() + base.len()) by (nonlinear_arith);
    }
}

/// A builder of an indentation.
pub struct JavaIndentationBuilder {
    base_indentation: String,
    current_level: usize,
}

impl JavaIndentationBuilder {
    pub closed spec fn spec_base(&self) -> Seq<char> {
        self.base_indentation@
    }

    pub closed spec fn spec_level(&self) -> nat {
        self.current_level as nat
    }

    fn new_builder() -> (r: JavaIndentationBuilder)
        ensures
            r.spec_base() == "    "@,
            r.spec_level() == 0,
    {
        JavaIndentationBuilder { base_indentation: "    ".to_owned(), current_level: 0 }
    }

    /// Sets the text written once per level.
    pub fn base_indentation(&mut self, input: &str) -> (ret: &mut Self)
        ensures
            ret.spec_base() == input@,
            ret.spec_level() == old(self).spec_level(),
            *final(self) == *final(ret),
    {
        self.base_indentation = input.to_owned();
        self
    }

    /// Sets the level.
    pub fn current_level(&mut self, input: usize) -> (ret: &mut Self)
        ensures
            ret.spec_base() == old(self).spec_base(),
            ret.spec_level() == input,
            *final(self) == *final(ret),
    {
        self.current_level = input;
        self
    }

    /// The indentation with the base text and level set so far.
    pub fn build(&mut self) -> (r: JavaIndentation)
        ensures
            r.spec_base() == old(self).spec_base(),
            r.spec_level() == old(self).spec_level(),
            *final(self) == *old(self),
    {
        JavaIndentation {
            base_indentation: self.base_indentation.clone(),
            current_level: self.current_level,
        }
    }
}

} // verus!
