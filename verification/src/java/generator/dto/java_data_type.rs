//! Data types of generated Java code.
use vstd::prelude::*;

use crate::common::text::str_eq;

verus! {

/// A primitive type, the class of one, or `String`.
#[derive(Debug, Copy, Clone, PartialEq, Eq, Structural)]
pub enum JavaBasicDataType {
    Byte,
    ByteClass,
    Short,
    ShortClass,
    Int,
    IntClass,
    Long,
    LongClass,
    Float,
    FloatClass,
    Double,
    DoubleClass,
    Char,
    Boolean,
    BooleanClass,
    String,
}

impl JavaBasicDataType {
    /// The name of the variant (such as `IntClass`).
    pub open spec fn spec_name(self) -> Seq<char> {
        match self {
            JavaBasicDataType::Byte => "Byte"@,
            JavaBasicDataType::ByteClass => "ByteClass"@,
            JavaBasicDataType::Short => "Short"@,
            JavaBasicDataType::ShortClass => "ShortClass"@,
            JavaBasicDataType::Int => "Int"@,
            JavaBasicDataType::IntClass => "IntClass"@,
            JavaBasicDataType::Long => "Long"@,
            JavaBasicDataType::LongClass => "LongClass"@,
            JavaBasicDataType::Float => "Float"@,
            JavaBasicDataType::FloatClass => "FloatClass"@,
            JavaBasicDataType::Double => "Double"@,
            JavaBasicDataType::DoubleClass => "DoubleClass"@,
            JavaBasicDataType::Char => "Char"@,
            JavaBasicDataType::Boolean => "Boolean"@,
            JavaBasicDataType::BooleanClass => "BooleanClass"@,
            JavaBasicDataType::String => "String"@,
        }
    }

    /// The name of the variant (such as `IntClass`).
    pub fn to_string(&self) -> (r: String)
        ensures
            r@ == self.spec_name(),
    {
        match self {
            JavaBasicDataType::Byte => "Byte".to_owned(),
            JavaBasicDataType::ByteClass => "ByteClass".to_owned(),
            JavaBasicDataType::Short => "Short".to_owned(),
            JavaBasicDataType::ShortClass => "ShortClass".to_owned(),
            JavaBasicDataType::Int => "Int".to_owned(),
            JavaBasicDataType::IntClass => "IntClass".to_owned(),
            JavaBasicDataType::Long => "Long".to_owned(),
            JavaBasicDataType::LongClass => "LongClass".to_owned(),
            JavaBasicDataType::Float => "Float".to_owned(),
            JavaBasicDataType::FloatClass => "FloatClass".to_owned(),
            JavaBasicDataType::Double => "Double".to_owned(),
            JavaBasicDataType::DoubleClass => "DoubleClass".to_owned(),
            JavaBasicDataType::Char => "Char".to_owned(),
            JavaBasicDataType::Boolean => "Boolean".to_owned(),
            JavaBasicDataType::BooleanClass => "BooleanClass".to_owned(),
            JavaBasicDataType::String => "String".to_owned(),
        }
    }
}

/// A data type of generated code: a basic type, a compound type or a class.
#[derive(Debug, Copy, Clone, PartialEq, Eq, Structural)]
pub enum JavaDataType {
    Basic(JavaBasicDataType),
    CompoundDataType,
    Class,
}

impl JavaDataType {
    /// The name of a basic type; nothing for any other type.
    pub open spec fn spec_to_string(self) -> Seq<char> {
        match self {
            JavaDataType::Basic(b) => b.spec_name(),
            _ => Seq::empty(),
        }
    }

    /// The name of a basic type; nothing for any other type.
    pub fn to_string(&self) -> (r: String)
        ensures
            r@ == self.spec_to_string(),
    {
        let mut string = String::new();
        if let JavaDataType::Basic(basic_data_type) = self {
            let s = basic_data_type.to_string();
            string.append(s.as_str());
        }
        string
    }
}

/// The basic type that a type name (a primitive keyword, the class of one, or `String`) stands
/// for.
pub open spec fn spec_basic_data_type(name: Seq<char>) -> Option<JavaBasicDataType> {
    if name == "byte"@ {
        Some(JavaBasicDataType::Byte)
    } else if name == "Byte"@ {
        Some(JavaBasicDataType::ByteClass)
    } else if name == "short"@ {
        Some(JavaBasicDataType::Short)
    } else if name == "Short"@ {
        Some(JavaBasicDataType::ShortClass)
    } else if name == "int"@ {
        Some(JavaBasicDataType::Int)
    } else if name == "Integer"@ {
        Some(JavaBasicDataType::IntClass)
    } else if name == "long"@ {
        Some(JavaBasicDataType::Long)
    } else if name == "Long"@ {
        Some(JavaBasicDataType::LongClass)
    } else if name == "float"@ {
        Some(JavaBasicDataType::Float)
    } else if name == "Float"@ {
        Some(JavaBasicDataType::FloatClass)
    } else if name == "double"@ {
        Some(JavaBasicDataType::Double)
    } else if name == "Double"@ {
        Some(JavaBasicDataType::DoubleClass)
    } else if name == "char"@ {
        Some(JavaBasicDataType::Char)
    } else if name == "boolean"@ {
        Some(JavaBasicDataType::Boolean)
    } else if name == "Boolean"@ {
        Some(JavaBasicDataType::BooleanClass)
    } else if name == "String"@ {
        Some(JavaBasicDataType::String)
    } else {
        None
    }
}

/// The data type that a type name stands for: a basic type, or else a class.
pub fn new(java_node_content: &str) -> (r: JavaDataType)
    ensures
        r == match spec_basic_data_type(java_node_content@) {
            Some(b) => JavaDataType::Basic(b),
            None => JavaDataType::Class,
        },
{
    match new_basic_data_type(java_node_content) {
        Some(data_type) => JavaDataType::Basic(data_type),
        None => JavaDataType::Class,
    }
}

/// The basic type that a type name stands for, if any.
pub fn new_basic_data_type(java_node_content: &str) -> (r: Option<JavaBasicDataType>)
    ensures
        r == spec_basic_data_type(java_node_content@),
{
    if str_eq(java_node_content, "byte") {
        return Some(JavaBasicDataType::Byte);
    }
    if str_eq(java_node_content, "Byte") {
        return Some(JavaBasicDataType::ByteClass);
    }
    if str_eq(java_node_content, "short") {
        return Some(JavaBasicDataType::Short);
    }
    if str_eq(java_node_content, "Short") {
        return Some(JavaBasicDataType::ShortClass);
    }
    if str_eq(java_node_content, "int") {
        return Some(JavaBasicDataType::Int);
    }
    if str_eq(java_node_content, "Integer") {
        return Some(JavaBasicDataType::IntClass);
    }
    if str_eq(java_node_content, "long") {
        return Some(JavaBasicDataType::Long);
    }
    if str_eq(java_node_content, "Long") {
        return Some(JavaBasicDataType::LongClass);
    }
    if str_eq(java_node_content, "float") {
        return Some(JavaBasicDataType::Float);
    }
    if str_eq(java_node_content, "Float") {
        return Some(JavaBasicDataType::FloatClass);
    }
    if str_eq(java_node_content, "double") {
        return Some(JavaBasicDataType::Double);
    }
    if str_eq(java_node_content, "Double") {
        return Some(JavaBasicDataType::DoubleClass);
    }
    if str_eq(java_node_content, "char") {
        return Some(JavaBasicDataType::Char);
    }
    if str_eq(java_node_content, "boolean") {
        return Some(JavaBasicDataType::Boolean);
    }
    if str_eq(java_node_content, "Boolean") {
        return Some(JavaBasicDataType::BooleanClass);
    }
    if str_eq(java_node_content, "String") {
        return Some(JavaBasicDataType::String);
    }
    None
}

} // verus!
