//! The kinds of Java structure that a file can declare.
use vstd::prelude::*;

verus! {

/// The kind of a Java structure.
#[derive(Debug, PartialEq, Eq, Copy, Clone, Structural)]
pub enum JavaStructureType {
    Class,
    Interface,
    Enum,
    Record,
}

impl JavaStructureType {
    /// The keyword that declares the structure, with its trailing space.
    pub open spec fn spec_keyword(self) -> Seq<char> {
        match self {
            JavaStructureType::Class => "class "@,
            JavaStructureType::Interface => "interface "@,
            JavaStructureType::Enum => "enum "@,
            JavaStructureType::Record => "record "@,
        }
    }

    /// The name of the kind.
    pub open spec fn spec_name(self) -> Seq<char> {
        match self {
            JavaStructureType::Class => "Class"@,
            JavaStructureType::Interface => "Interface"@,
            JavaStructureType::Enum => "Enum"@,
            JavaStructureType::Record => "Record"@,
        }
    }

    /// The keyword that declares the structure, with its trailing space.
    pub fn keyword(&self) -> (r: String)
        ensures
            r@ == self.spec_keyword(),
    {
        match self {
            JavaStructureType::Class => "class ".to_owned(),
            JavaStructureType::Interface => "interface ".to_owned(),
            JavaStructureType::Enum => "enum ".to_owned(),
            JavaStructureType::Record => "record ".to_owned(),
        }
    }

    /// The name of the kind.
    pub fn to_string(&self) -> (r: String)
        ensures
            r@ == self.spec_name(),
    {
        match self {
            JavaStructureType::Class => "Class".to_owned(),
            JavaStructureType::Interface => "Interface".to_owned(),
            JavaStructureType::Enum => "Enum".to_owned(),
            JavaStructureType::Record => "Record".to_owned(),
        }
    }
}

} // verus!
