//! Visibility of generated Java declarations.
use vstd::prelude::*;

use crate::java::parser::java_node_type::{spec_is_visibility_type, JavaNodeType};

verus! {

/// The visibility of a generated declaration.
#[derive(Debug, Copy, Clone, PartialEq, Eq, Structural)]
pub enum JavaVisibility {
    Public,
    Private,
    Package,
    Protected,
}

impl JavaVisibility {
    /// The name of the visibility.
    pub open spec fn spec_name(self) -> Seq<char> {
        match self {
            JavaVisibility::Public => "Public"@,
            JavaVisibility::Private => "Private"@,
            JavaVisibility::Package => "Package"@,
            JavaVisibility::Protected => "Protected"@,
        }
    }

    /// The keyword written in front of a declaration, with its trailing space; nothing for
    /// package visibility.
    pub open spec fn spec_keyword(self) -> Seq<char> {
        match self {
            JavaVisibility::Public => "public "@,
            JavaVisibility::Private => "private "@,
            JavaVisibility::Package => Seq::empty(),
            JavaVisibility::Protected => "protected "@,
        }
    }

    /// The name of the visibility.
    pub fn to_string(&self) -> (r: String)
        ensures
            r@ == self.spec_name(),
    {
        match self {
            JavaVisibility::Public => "Public".to_owned(),
            JavaVisibility::Private => "Private".to_owned(),
            JavaVisibility::Package => "Package".to_owned(),
            JavaVisibility::Protected => "Protected".to_owned(),
        }
    }

    /// The keyword written in front of a declaration, with its trailing space; nothing for
    /// package visibility.
    pub fn keyword(&self) -> (r: String)
        ensures
            r@ == self.spec_keyword(),
    {
        match self {
            JavaVisibility::Public => "public ".to_owned(),
            JavaVisibility::Private => "private ".to_owned(),
            JavaVisibility::Package => String::new(),
            JavaVisibility::Protected => "protected ".to_owned(),
        }
    }
}

/// The visibility that a modifier node kind stands for; the kind is a visibility modifier.
pub fn new(node_type: &JavaNodeType) -> (r: JavaVisibility)
    requires
        spec_is_visibility_type(*node_type),
    ensures
        r == (if *node_type == JavaNodeType::Private {
            JavaVisibility::Private
        } else if *node_type == JavaNodeType::Public {
            JavaVisibility::Public
        } else {
            JavaVisibility::Protected
        }),
{
    if &JavaNodeType::Private == node_type {
        JavaVisibility::Private
    } else if &JavaNodeType::Public == node_type {
        JavaVisibility::Public
    } else {
        JavaVisibility::Protected
    }
}

} // verus!
