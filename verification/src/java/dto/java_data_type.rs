//! Data types of Java values: the basic types, and types known by their import.
use vstd::prelude::*;

use crate::common::file_cache::FileCache;
use crate::common::text::str_eq;
use crate::java::dto::java_import::{spec_import_of_file, JavaImport, JavaImportView};
use crate::java::parser::java_node::JavaNode;
use crate::java::parser::java_node_type::JavaNodeType;
use crate::java::scanner::file::java_file::JavaFile;
use crate::java::scanner::file::java_file_imports::{JavaFileImports, JavaFileImportsView};

verus! {

/// A primitive type, the class of one, or `String`.
#[derive(Debug, Copy, Clone, PartialEq, Eq, Structural)]
pub enum JavaBasicDataType {
    Byte,
    ByteClass,
    Short,
    ShortClass,
    Int,
    IntClass,
    Long,
    LongClass,
    Float,
    FloatClass,
    Double,
    DoubleClass,
    Char,
    Boolean,
    BooleanClass,
    String,
}

impl JavaBasicDataType {
    /// The type as written in Java.
    pub open spec fn spec_name(self) -> Seq<char> {
        match self {
            JavaBasicDataType::Byte => "byte"@,
            JavaBasicDataType::ByteClass => "Byte"@,
            JavaBasicDataType::Short => "short"@,
            JavaBasicDataType::ShortClass => "Short"@,
            JavaBasicDataType::Int => "int"@,
            JavaBasicDataType::IntClass => "Integer"@,
            JavaBasicDataType::Long => "long"@,
            JavaBasicDataType::LongClass => "Long"@,
            JavaBasicDataType::Float => "float"@,
            JavaBasicDataType::FloatClass => "Float"@,
            JavaBasicDataType::Double => "double"@,
            JavaBasicDataType::DoubleClass => "Double"@,
            JavaBasicDataType::Char => "char"@,
            JavaBasicDataType::Boolean => "boolean"@,
            JavaBasicDataType::BooleanClass => "Boolean"@,
            JavaBasicDataType::String => "String"@,
        }
    }

    /// The type as written in Java.
    pub fn to_string(&self) -> (r: String)
        ensures
            r@ == self.spec_name(),
    {
        match self {
            JavaBasicDataType::Byte => "byte".to_owned(),
            JavaBasicDataType::ByteClass => "Byte".to_owned(),
            JavaBasicDataType::Short => "short".to_owned(),
            JavaBasicDataType::ShortClass => "Short".to_owned(),
            JavaBasicDataType::Int => "int".to_owned(),
            JavaBasicDataType::IntClass => "Integer".to_owned(),
            JavaBasicDataType::Long => "long".to_owned(),
            JavaBasicDataType::LongClass => "Long".to_owned(),
            JavaBasicDataType::Float => "float".to_owned(),
            JavaBasicDataType::FloatClass => "Float".to_owned(),
            JavaBasicDataType::Double => "double".to_owned(),
            JavaBasicDataType::DoubleClass => "Double".to_owned(),
            JavaBasicDataType::Char => "char".to_owned(),
            JavaBasicDataType::Boolean => "boolean".to_owned(),
            JavaBasicDataType::BooleanClass => "Boolean".to_owned(),
            JavaBasicDataType::String => "String".to_owned(),
        }
    }
}

/// The basic type that a name stands for.
pub open spec fn spec_basic_data_type(name: Seq<char>) -> Option<JavaBasicDataType> {
    if name == "byte"@ {
        Some(JavaBasicDataType::Byte)
    } else if name == "Byte"@ {
        Some(JavaBasicDataType::ByteClass)
    } else if name == "short"@ {
        Some(JavaBasicDataType::Short)
    } else if name == "Short"@ {
        Some(JavaBasicDataType::ShortClass)
    } else if name == "int"@ {
        Some(JavaBasicDataType::Int)
    } else if name == "Integer"@ {
        Some(JavaBasicDataType::IntClass)
    } else if name == "long"@ {
        Some(JavaBasicDataType::Long)
    } else if name == "Long"@ {
        Some(JavaBasicDataType::LongClass)
    } else if name == "float"@ {
        Some(JavaBasicDataType::Float)
    } else if name == "Float"@ {
        Some(JavaBasicDataType::FloatClass)
    } else if name == "double"@ {
        Some(JavaBasicDataType::Double)
    } else if name == "Double"@ {
        Some(JavaBasicDataType::DoubleClass)
    } else if name == "char"@ {
        Some(JavaBasicDataType::Char)
    } else if name == "boolean"@ {
        Some(JavaBasicDataType::Boolean)
    } else if name == "Boolean"@ {
        Some(JavaBasicDataType::BooleanClass)
    } else if name == "String"@ {
        Some(JavaBasicDataType::String)
    } else {
        None
    }
}

/// The basic type that a name stands for, if any.
pub fn new_basic_data_type(java_node_content: &str) -> (r: Option<JavaBasicDataType>)
    ensures
        r == spec_basic_data_type(java_node_content@),
{
    if str_eq(java_node_content, "byte") {
        return Some(JavaBasicDataType::Byte);
    }
    if str_eq(java_node_content, "Byte") {
        return Some(JavaBasicDataType::ByteClass);
    }
    if str_eq(java_node_content, "short") {
        return Some(JavaBasicDataType::Short);
    }
    if str_eq(java_node_content, "Short") {
        return Some(JavaBasicDataType::ShortClass);
    }
    if str_eq(java_node_content, "int") {
        return Some(JavaBasicDataType::Int);
    }
    if str_eq(java_node_content, "Integer") {
        return Some(JavaBasicDataType::IntClass);
    }
    if str_eq(java_node_content, "long") {
        return Some(JavaBasicDataType::Long);
    }
    if str_eq(java_node_content, "Long") {
        return Some(JavaBasicDataType::LongClass);
    }
    if str_eq(java_node_content, "float") {
        return Some(JavaBasicDataType::Float);
    }
    if str_eq(java_node_content, "Float") {
        return Some(JavaBasicDataType::FloatClass);
    }
    if str_eq(java_node_content, "double") {
        return Some(JavaBasicDataType::Double);
    }
    if str_eq(java_node_content, "Double") {
        return Some(JavaBasicDataType::DoubleClass);
    }
    if str_eq(java_node_content, "char") {
        return Some(JavaBasicDataType::Char);
    }
    if str_eq(java_node_content, "boolean") {
        return Some(JavaBasicDataType::Boolean);
    }
    if str_eq(java_node_content, "Boolean") {
        return Some(JavaBasicDataType::BooleanClass);
    }
    if str_eq(java_node_content, "String") {
        return Some(JavaBasicDataType::String);
    }
    None
}

/// What a data type holds.
pub enum JavaDataTypeView {
    Basic(JavaBasicDataType),
    FromImport(JavaImportView),
}

impl JavaDataTypeView {
    /// The type as written in Java: the basic type, or the name of the imported type.
    pub open spec fn spec_to_string(self) -> Seq<char> {
        match self {
            JavaDataTypeView::Basic(b) => b.spec_name(),
            JavaDataTypeView::FromImport(i) => i.spec_last_node(),
        }
    }

    /// The import that the type needs, if any.
    pub open spec fn spec_import(self) -> Option<JavaImportView> {
        match self {
            JavaDataTypeView::Basic(_) => None,
            JavaDataTypeView::FromImport(i) => Some(i),
        }
    }
}

/// The data type of a Java value.
pub enum JavaDataType {
    Basic(JavaBasicDataType),
    FromImport(JavaImport),
}

impl View for JavaDataType {
    type V = JavaDataTypeView;

    open spec fn view(&self) -> JavaDataTypeView {
        match self {
            JavaDataType::Basic(b) => JavaDataTypeView::Basic(*b),
            JavaDataType::FromImport(i) => JavaDataTypeView::FromImport(i@),
        }
    }
}

impl Clone for JavaDataType {
    fn clone(&self) -> (r: Self)
        ensures
            r@ == self@,
    {
        match self {
            JavaDataType::Basic(b) => JavaDataType::Basic(*b),
            JavaDataType::FromImport(i) => JavaDataType::FromImport(i.clone()),
        }
    }
}

/// Whether the kind names a data type.
pub open spec fn spec_is_data_type_node(t: JavaNodeType) -> bool {
    t == JavaNodeType::TypeIdentifier || t == JavaNodeType::IntegralType || t
        == JavaNodeType::FloatingPointType || t == JavaNodeType::Boolean || t
        == JavaNodeType::VoidType
}

/// The data type of an integral type node, by the kind of its first child.
pub open spec fn spec_integral_type(t: JavaNodeType) -> Option<JavaBasicDataType> {
    if t == JavaNodeType::Int {
        Some(JavaBasicDataType::Int)
    } else if t == JavaNodeType::Long {
        Some(JavaBasicDataType::Long)
    } else if t == JavaNodeType::Byte {
        Some(JavaBasicDataType::Byte)
    } else if t == JavaNodeType::Short {
        Some(JavaBasicDataType::Short)
    } else if t == JavaNodeType::Char {
        Some(JavaBasicDataType::Char)
    } else {
        None
    }
}

/// The data type of a floating point type node, by the kind of its first child.
pub open spec fn spec_floating_point_type(t: JavaNodeType) -> Option<JavaBasicDataType> {
    if t == JavaNodeType::Float {
        Some(JavaBasicDataType::Float)
    } else if t == JavaNodeType::Double {
        Some(JavaBasicDataType::Double)
    } else {
        None
    }
}

/// The kind of the first child of a node, if it has one with a known kind.
pub open spec fn spec_first_child_type(node: JavaNode) -> Option<JavaNodeType> {
    if node.spec_children().len() > 0 {
        node.spec_children()[0].spec_node_type()
    } else {
        None
    }
}

/// The message for a data type node that cannot be read: `prefix`, then the text of the node
/// and the file.
pub open spec fn spec_unrecognized(prefix: Seq<char>, node: JavaNode, file: Seq<char>) -> Seq<char> {
    prefix + node.spec_content() + "\" in file:\n"@ + file + "\n"@
}

/// Why a data type node of the file `file` stands for no data type.
pub open spec fn spec_data_type_error(node: JavaNode, file: Seq<char>) -> Seq<char> {
    match node.spec_node_type() {
        Some(t) => if t == JavaNodeType::TypeIdentifier {
            "Import for \""@ + node.spec_content() + "\" not found."@
        } else if t == JavaNodeType::IntegralType {
            if node.spec_children().len() == 0 {
                spec_unrecognized("Missing mandatory child node building IntegralType JavaNodeType \""@, node, file)
            } else if node.spec_children()[0].spec_node_type() is None {
                spec_unrecognized("Missing mandatory node type building IntegralType JavaNodeType \""@, node, file)
            } else {
                spec_unrecognized("Unrecognized Integral JavaNodeType parsing \""@, node, file)
            }
        } else if t == JavaNodeType::FloatingPointType {
            if node.spec_children().len() == 0 {
                "First java child node expected"@
            } else if node.spec_children()[0].spec_node_type() is None {
                "First java child node type expected"@
            } else {
                spec_unrecognized("Unrecognized FloatingPointType JavaNodeType parsing \""@, node, file)
            }
        } else {
            spec_unrecognized("Unrecognized JavaNodeType parsing \""@, node, file)
        },
        None => spec_unrecognized("Unrecognized JavaNodeType parsing \""@, node, file),
    }
}

/// The data type that a type name stands for: a basic type, or else the type that the file
/// imports by that name.
pub open spec fn spec_from_generic_type_id(type_id: Seq<char>, file_imports: JavaFileImportsView) -> Option<
    JavaDataTypeView,
> {
    match spec_basic_data_type(type_id) {
        Some(b) => Some(JavaDataTypeView::Basic(b)),
        None => match file_imports.spec_get(type_id) {
            Some(i) => Some(JavaDataTypeView::FromImport(i)),
            None => None,
        },
    }
}

/// The data type that a data type node stands for in a file with the imports `file_imports`.
pub open spec fn spec_data_type_of_node(node: JavaNode, file_imports: JavaFileImportsView) -> Option<
    JavaDataTypeView,
> {
    match node.spec_node_type() {
        Some(t) => if t == JavaNodeType::TypeIdentifier {
            spec_from_generic_type_id(node.spec_content(), file_imports)
        } else if t == JavaNodeType::Boolean {
            Some(JavaDataTypeView::Basic(JavaBasicDataType::Boolean))
        } else if t == JavaNodeType::IntegralType {
            match spec_first_child_type(node) {
                Some(c) => match spec_integral_type(c) {
                    Some(b) => Some(JavaDataTypeView::Basic(b)),
                    None => None,
                },
                None => None,
            }
        } else if t == JavaNodeType::FloatingPointType {
            match spec_first_child_type(node) {
                Some(c) => match spec_floating_point_type(c) {
                    Some(b) => Some(JavaDataTypeView::Basic(b)),
                    None => None,
                },
                None => None,
            }
        } else {
            None
        },
        None => None,
    }
}

impl JavaDataType {
    /// The type declared by a scanned Java file: the one that its own import names.
    pub fn new_from_path(java_file: &JavaFile) -> (r: JavaDataType)
        ensures
            r@ == JavaDataTypeView::FromImport(spec_import_of_file(java_file@.path)),
    {
        JavaDataType::FromImport(java_file.get_self_import())
    }
}

impl JavaDataType {
    /// The import that the type needs, if any.
    pub fn get_import(&self) -> (r: Option<JavaImport>)
        ensures
            r matches Some(i) ==> self@.spec_import() == Some(i@),
            r is None ==> self@.spec_import() is None,
    {
        match &self {
            JavaDataType::Basic(_) => None,
            JavaDataType::FromImport(import) => Some(import.clone()),
        }
    }

    /// Whether the kind names a data type, `void` included.
    pub fn is_data_type_node(node_type: &JavaNodeType) -> (r: bool)
        ensures
            r == spec_is_data_type_node(*node_type),
    {
        &JavaNodeType::TypeIdentifier == node_type || &JavaNodeType::IntegralType == node_type
            || &JavaNodeType::FloatingPointType == node_type || &JavaNodeType::Boolean
            == node_type || &JavaNodeType::VoidType == node_type
    }

    /// Whether the optional kind names a data type, `void` included.
    pub fn is_data_type_node_opt(node_type_opt: &Option<JavaNodeType>) -> (r: bool)
        ensures
            r == (*node_type_opt matches Some(t) && spec_is_data_type_node(t)),
    {
        if let Some(node_type) = node_type_opt {
            return Self::is_data_type_node(node_type);
        }
        false
    }

    /// The data type that a data type node stands for; an error when it names no known type.
    pub fn get_data_type(data_type_node: &JavaNode, file_imports: &JavaFileImports, input_java_file: &str) -> (r: Result<
        Self,
        String,
    >)
        ensures
            r is Ok <==> spec_data_type_of_node(*data_type_node, file_imports@) is Some,
            r matches Ok(d) ==> spec_data_type_of_node(*data_type_node, file_imports@) == Some(d@),
            r matches Err(e) ==> e@ == spec_data_type_error(*data_type_node, input_java_file@),
    {
        let node_type = match data_type_node.get_node_type_opt() {
            Some(t) => t,
            None => {
                return Err(Self::unrecognized("Unrecognized JavaNodeType parsing \"", data_type_node, input_java_file));
            },
        };
        if JavaNodeType::TypeIdentifier == node_type {
            let content = data_type_node.get_content();
            return JavaDataType::from_generic_type_id(content.as_str(), file_imports, input_java_file);
        } else if JavaNodeType::Boolean == node_type {
            return Ok(JavaDataType::Basic(JavaBasicDataType::Boolean));
        } else if JavaNodeType::IntegralType == node_type {
            return Self::get_data_type_from_integral_type(data_type_node, input_java_file);
        } else if JavaNodeType::FloatingPointType == node_type {
            return Self::get_data_type_from_floating_point_type(data_type_node, input_java_file);
        }
        Err(Self::unrecognized("Unrecognized JavaNodeType parsing \"", data_type_node, input_java_file))
    }

    fn unrecognized(prefix: &str, data_type_node: &JavaNode, input_java_file: &str) -> (r: String)
        ensures
            r@ == spec_unrecognized(prefix@, *data_type_node, input_java_file@),
    {
        let mut e = prefix.to_owned();
        let content = data_type_node.get_content();
        e.append(content.as_str());
        e.append("\" in file:\n");
        e.append(input_java_file);
        e.append("\n");
        e
    }

    fn get_data_type_from_floating_point_type(data_type_node: &JavaNode, input_java_file: &str) -> (r: Result<
        JavaDataType,
        String,
    >)
        ensures
            ({
                let d = match spec_first_child_type(*data_type_node) {
                    Some(c) => spec_floating_point_type(c),
                    None => None,
                };
                &&& r is Ok <==> d is Some
                &&& r matches Ok(x) ==> d matches Some(b) && x@ == JavaDataTypeView::Basic(b)
            }),
            data_type_node.spec_node_type() == Some(JavaNodeType::FloatingPointType) ==> (r matches Err(
                e,
            ) ==> e@ == spec_data_type_error(*data_type_node, input_java_file@)),
    {
        let children = data_type_node.get_children();
        if children.len() == 0 {
            return Err("First java child node expected".to_owned());
        }
        let child_node_type = match children[0].get_node_type_opt() {
            Some(t) => t,
            None => {
                return Err("First java child node type expected".to_owned());
            },
        };
        if JavaNodeType::Float == child_node_type {
            Ok(JavaDataType::Basic(JavaBasicDataType::Float))
        } else if JavaNodeType::Double == child_node_type {
            Ok(JavaDataType::Basic(JavaBasicDataType::Double))
        } else {
            Err(
                Self::unrecognized(
                    "Unrecognized FloatingPointType JavaNodeType parsing \"",
                    data_type_node,
                    input_java_file,
                ),
            )
        }
    }

    fn get_data_type_from_integral_type(data_type_node: &JavaNode, input_java_file: &str) -> (r: Result<
        JavaDataType,
        String,
    >)
        ensures
            ({
                let d = match spec_first_child_type(*data_type_node) {
                    Some(c) => spec_integral_type(c),
                    None => None,
                };
                &&& r is Ok <==> d is Some
                &&& r matches Ok(x) ==> d matches Some(b) && x@ == JavaDataTypeView::Basic(b)
            }),
            data_type_node.spec_node_type() == Some(JavaNodeType::IntegralType) ==> (r matches Err(e)
                ==> e@ == spec_data_type_error(*data_type_node, input_java_file@)),
    {
        let children = data_type_node.get_children();
        if children.len() == 0 {
            return Err(
                Self::unrecognized(
                    "Missing mandatory child node building IntegralType JavaNodeType \"",
                    data_type_node,
                    input_java_file,
                ),
            );
        }
        let child_node_type = match children[0].get_node_type_opt() {
            Some(t) => t,
            None => {
                return Err(
                    Self::unrecognized(
                        "Missing mandatory node type building IntegralType JavaNodeType \"",
                        data_type_node,
                        input_java_file,
                    ),
                );
            },
        };
        if JavaNodeType::Int == child_node_type {
            Ok(JavaDataType::Basic(JavaBasicDataType::Int))
        } else if JavaNodeType::Long == child_node_type {
            Ok(JavaDataType::Basic(JavaBasicDataType::Long))
        } else if JavaNodeType::Byte == child_node_type {
            Ok(JavaDataType::Basic(JavaBasicDataType::Byte))
        } else if JavaNodeType::Short == child_node_type {
            Ok(JavaDataType::Basic(JavaBasicDataType::Short))
        } else if JavaNodeType::Char == child_node_type {
            Ok(JavaDataType::Basic(JavaBasicDataType::Char))
        } else {
            Err(
                Self::unrecognized(
                    "Unrecognized Integral JavaNodeType parsing \"",
                    data_type_node,
                    input_java_file,
                ),
            )
        }
    }

    /// The data type that a type name stands for: a basic type, or else the type that the file
    /// imports by that name; an error when it is neither.
    pub fn from_generic_type_id(type_id: &str, file_imports: &JavaFileImports, input_java_file: &str) -> (r: Result<
        JavaDataType,
        String,
    >)
        ensures
            r is Ok <==> spec_from_generic_type_id(type_id@, file_imports@) is Some,
            r matches Ok(d) ==> spec_from_generic_type_id(type_id@, file_imports@) == Some(d@),
            r matches Err(e) ==> e@ == "Import for \""@ + type_id@ + "\" not found."@,
    {
        let basic_data_type = new_basic_data_type(type_id);
        if let Some(data_type) = basic_data_type {
            return Ok(JavaDataType::Basic(data_type));
        }
        Self::from_import_type_id(type_id, file_imports, input_java_file)
    }

    /// The type that the file imports by the name `type_id`; an error when there is none.
    pub fn from_import_type_id(type_id: &str, file_imports: &JavaFileImports, _input_java_file: &str) -> (r: Result<
        JavaDataType,
        String,
    >)
        ensures
            r is Ok <==> file_imports.spec_get(type_id@) is Some,
            r matches Ok(d) ==> file_imports.spec_get(type_id@) matches Some(i) && d@
                == JavaDataTypeView::FromImport(i),
            r matches Err(e) ==> e@ == "Import for \""@ + type_id@ + "\" not found."@,
    {
        match file_imports.get_explicit_import(type_id) {
            Ok(import) => Ok(JavaDataType::FromImport(import.clone())),
            Err(err) => Err(err),
        }
    }

    /// The type as written in Java: the basic type, or the name of the imported type.
    pub fn to_string(&self) -> (r: String)
        ensures
            r@ == self@.spec_to_string(),
    {
        match self {
            JavaDataType::Basic(basic_data_type) => basic_data_type.to_string(),
            JavaDataType::FromImport(import) => import.get_last_node(),
        }
    }
}

} // verus!
