//! Visibility of Java classes, fields and methods.
use vstd::prelude::*;

use crate::java::parser::java_node_type::{spec_is_visibility_type, spec_kind_name, JavaNodeType};

verus! {

/// The visibility of a Java declaration.
#[derive(Debug, Copy, Clone, PartialEq, Eq, Structural)]
pub enum JavaVisibility {
    Public,
    Private,
    Package,
    Protected,
}

impl JavaVisibility {
    /// The keyword written in front of a declaration, with its trailing space; nothing for
    /// package visibility.
    pub open spec fn spec_file_string(self) -> Seq<char> {
        match self {
            JavaVisibility::Public => "public "@,
            JavaVisibility::Private => "private "@,
            JavaVisibility::Protected => "protected "@,
            JavaVisibility::Package => Seq::<char>::empty(),
        }
    }

    /// The name of the visibility.
    pub open spec fn spec_name(self) -> Seq<char> {
        match self {
            JavaVisibility::Public => "Public"@,
            JavaVisibility::Private => "Private"@,
            JavaVisibility::Protected => "Protected"@,
            JavaVisibility::Package => "Package"@,
        }
    }

    /// The keyword written in front of a declaration, with its trailing space; nothing for
    /// package visibility.
    pub fn as_file_string(&self) -> (r: String)
        ensures
            r@ == self.spec_file_string(),
    {
        match self {
            JavaVisibility::Public => "public ".to_owned(),
            JavaVisibility::Private => "private ".to_owned(),
            JavaVisibility::Protected => "protected ".to_owned(),
            JavaVisibility::Package => String::new(),
        }
    }

    /// The name of the visibility.
    pub fn to_string(&self) -> (r: String)
        ensures
            r@ == self.spec_name(),
    {
        match self {
            JavaVisibility::Public => "Public".to_owned(),
            JavaVisibility::Private => "Private".to_owned(),
            JavaVisibility::Protected => "Protected".to_owned(),
            JavaVisibility::Package => "Package".to_owned(),
        }
    }
}

/// Whether the node kind is a visibility modifier.
pub fn is_visibility_node_type(node_type: &JavaNodeType) -> (r: bool)
    ensures
        r == spec_is_visibility_type(*node_type),
{
    &JavaNodeType::Private == node_type || &JavaNodeType::Public == node_type
        || &JavaNodeType::Protected == node_type
}

/// The visibility that a modifier node kind stands for.
pub open spec fn spec_visibility_of(node_type: JavaNodeType) -> JavaVisibility {
    if node_type == JavaNodeType::Private {
        JavaVisibility::Private
    } else if node_type == JavaNodeType::Public {
        JavaVisibility::Public
    } else {
        JavaVisibility::Protected
    }
}

/// A visibility read from a modifier keyword is written back as that keyword: the keyword of
/// the visibility that a modifier kind stands for is the grammar's name of the kind, followed
/// by a space.
pub proof fn law_visibility_read_as_written(t: JavaNodeType)
    requires
        spec_is_visibility_type(t),
    ensures
        spec_visibility_of(t).spec_file_string() == spec_kind_name(t) + " "@,
{
    reveal_strlit("public");
    reveal_strlit("private");
    reveal_strlit("protected");
    reveal_strlit("public ");
    reveal_strlit("private ");
    reveal_strlit("protected ");
    reveal_strlit(" ");
    assert("public"@ + " "@ =~= "public "@);
    assert("private"@ + " "@ =~= "private "@);
    assert("protected"@ + " "@ =~= "protected "@);
}

/// The visibility that a modifier node kind stands for.
pub fn new(node_type: &JavaNodeType) -> (r: JavaVisibility)
    requires
        spec_is_visibility_type(*node_type),
    ensures
        r == spec_visibility_of(*node_type),
{
    if &JavaNodeType::Private == node_type {
        return JavaVisibility::Private;
    } else if &JavaNodeType::Public == node_type {
        return JavaVisibility::Public;
    }
    JavaVisibility::Protected
}

} // verus!
