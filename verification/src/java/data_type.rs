//! Data types of Java values: primitive types, their classes, `String`, and imported types.
use vstd::prelude::*;

use crate::common::file_cache::FileCache;
use crate::common::text::str_eq;
use crate::java::dto::java_import::{JavaImport, JavaImportView};
use crate::java::parser::java_node::JavaNode;
use crate::java::parser::java_node_type::JavaNodeType;
use crate::java::scanner::file::java_file::JavaFile;
use crate::java::scanner::file::java_file_imports::{spec_identifier_error, JavaFileImports, JavaFileImportsView};
use crate::java::dto::java_import::spec_import_of_file;

verus! {

/// A primitive Java type.
#[derive(Debug, Clone, Copy, PartialEq, Eq, Structural)]
pub enum JavaPrimitiveDataType {
    Byte,
    Short,
    Int,
    Long,
    Float,
    Double,
    Char,
    Boolean,
}

/// A class of the Java language that needs no import.
#[derive(Debug, Clone, Copy, PartialEq, Eq, Structural)]
pub enum JavaNonPrimitiveDataTypeWithoutImport {
    ByteClass,
    ShortClass,
    IntClass,
    LongClass,
    FloatClass,
    DoubleClass,
    BooleanClass,
    String,
}

impl JavaPrimitiveDataType {
    /// The Java keyword of the type.
    pub open spec fn spec_name(self) -> Seq<char> {
        match self {
            JavaPrimitiveDataType::Byte => "byte"@,
            JavaPrimitiveDataType::Short => "short"@,
            JavaPrimitiveDataType::Int => "int"@,
            JavaPrimitiveDataType::Long => "long"@,
            JavaPrimitiveDataType::Float => "float"@,
            JavaPrimitiveDataType::Double => "double"@,
            JavaPrimitiveDataType::Char => "char"@,
            JavaPrimitiveDataType::Boolean => "boolean"@,
        }
    }

    /// The Java keyword of the type.
    pub fn to_string(&self) -> (r: String)
        ensures
            r@ == self.spec_name(),
    {
        match self {
            JavaPrimitiveDataType::Byte => "byte".to_owned(),
            JavaPrimitiveDataType::Short => "short".to_owned(),
            JavaPrimitiveDataType::Int => "int".to_owned(),
            JavaPrimitiveDataType::Long => "long".to_owned(),
            JavaPrimitiveDataType::Float => "float".to_owned(),
            JavaPrimitiveDataType::Double => "double".to_owned(),
            JavaPrimitiveDataType::Char => "char".to_owned(),
            JavaPrimitiveDataType::Boolean => "boolean".to_owned(),
        }
    }
}

impl JavaNonPrimitiveDataTypeWithoutImport {
    /// The Java name of the class.
    pub open spec fn spec_name(self) -> Seq<char> {
        match self {
            JavaNonPrimitiveDataTypeWithoutImport::ByteClass => "Byte"@,
            JavaNonPrimitiveDataTypeWithoutImport::ShortClass => "Short"@,
            JavaNonPrimitiveDataTypeWithoutImport::IntClass => "Integer"@,
            JavaNonPrimitiveDataTypeWithoutImport::LongClass => "Long"@,
            JavaNonPrimitiveDataTypeWithoutImport::FloatClass => "Float"@,
            JavaNonPrimitiveDataTypeWithoutImport::DoubleClass => "Double"@,
            JavaNonPrimitiveDataTypeWithoutImport::BooleanClass => "Boolean"@,
            JavaNonPrimitiveDataTypeWithoutImport::String => "String"@,
        }
    }

    /// The Java name of the class.
    pub fn to_string(&self) -> (r: String)
        ensures
            r@ == self.spec_name(),
    {
        match self {
            JavaNonPrimitiveDataTypeWithoutImport::ByteClass => "Byte".to_owned(),
            JavaNonPrimitiveDataTypeWithoutImport::ShortClass => "Short".to_owned(),
            JavaNonPrimitiveDataTypeWithoutImport::IntClass => "Integer".to_owned(),
            JavaNonPrimitiveDataTypeWithoutImport::LongClass => "Long".to_owned(),
            JavaNonPrimitiveDataTypeWithoutImport::FloatClass => "Float".to_owned(),
            JavaNonPrimitiveDataTypeWithoutImport::DoubleClass => "Double".to_owned(),
            JavaNonPrimitiveDataTypeWithoutImport::BooleanClass => "Boolean".to_owned(),
            JavaNonPrimitiveDataTypeWithoutImport::String => "String".to_owned(),
        }
    }
}

/// What a data type holds: a primitive type, or a class known without import or by its import.
pub struct JavaDataTypeView {
    pub primitive: Option<JavaPrimitiveDataType>,
    pub without_import: Option<JavaNonPrimitiveDataTypeWithoutImport>,
    pub import: Option<JavaImportView>,
    pub non_primitive: bool,
}

impl JavaDataTypeView {
    /// The type as written in Java.
    pub open spec fn spec_to_string(self) -> Seq<char> {
        (match self.primitive {
            Some(p) => p.spec_name(),
            None => Seq::empty(),
        }) + (match self.without_import {
            Some(w) => w.spec_name(),
            None => Seq::empty(),
        }) + (match self.import {
            Some(i) => i.spec_last_node(),
            None => Seq::empty(),
        })
    }

    /// A primitive type.
    pub open spec fn primitive(p: JavaPrimitiveDataType) -> Self {
        JavaDataTypeView { primitive: Some(p), without_import: None, import: None, non_primitive: false }
    }

    /// A class of the language.
    pub open spec fn without_import(w: JavaNonPrimitiveDataTypeWithoutImport) -> Self {
        JavaDataTypeView { primitive: None, without_import: Some(w), import: None, non_primitive: true }
    }

    /// A type known by its import.
    pub open spec fn from_import(i: JavaImportView) -> Self {
        JavaDataTypeView { primitive: None, without_import: None, import: Some(i), non_primitive: true }
    }
}

/// A class, known without import or by its import.
pub struct JavaNonPrimitiveDataType {
    without_import_opt: Option<JavaNonPrimitiveDataTypeWithoutImport>,
    java_import_opt: Option<JavaImport>,
}

impl Clone for JavaNonPrimitiveDataType {
    fn clone(&self) -> (r: Self)
        ensures
            r.spec_without_import() == self.spec_without_import(),
            r.spec_import() == self.spec_import(),
    {
        JavaNonPrimitiveDataType {
            without_import_opt: self.without_import_opt,
            java_import_opt: match &self.java_import_opt {
                Some(i) => Some(i.clone()),
                None => None,
            },
        }
    }
}

impl JavaNonPrimitiveDataType {
    pub closed spec fn spec_without_import(&self) -> Option<JavaNonPrimitiveDataTypeWithoutImport> {
        self.without_import_opt
    }

    pub closed spec fn spec_import(&self) -> Option<JavaImportView> {
        match self.java_import_opt {
            Some(i) => Some(i@),
            None => None,
        }
    }

    fn get_import(&self) -> (r: Option<JavaImport>)
        ensures
            r matches Some(i) ==> self.spec_import() == Some(i@),
            r is None ==> self.spec_import() is None,
    {
        if let Some(java_import) = &self.java_import_opt {
            return Some(java_import.clone());
        }
        None
    }

    fn from_explicit_import(import: JavaImport) -> (r: Self)
        ensures
            r.spec_without_import() is None,
            r.spec_import() == Some(import@),
    {
        Self { without_import_opt: None, java_import_opt: Some(import) }
    }

    fn without_import(input_type: JavaNonPrimitiveDataTypeWithoutImport) -> (r: Self)
        ensures
            r.spec_without_import() == Some(input_type),
            r.spec_import() is None,
    {
        Self { without_import_opt: Some(input_type), java_import_opt: None }
    }

    /// The class as written in Java.
    pub fn to_string(&self) -> (r: String)
        ensures
            r@ == (match self.spec_without_import() {
                Some(w) => w.spec_name(),
                None => Seq::empty(),
            }) + (match self.spec_import() {
                Some(i) => i.spec_last_node(),
                None => Seq::empty(),
            }),
    {
        let mut r = String::new();
        if let Some(without_import) = &self.without_import_opt {
            let s = without_import.to_string();
            r.append(s.as_str());
        }
        if let Some(with_import) = &self.java_import_opt {
            let s = with_import.get_last_node();
            r.append(s.as_str());
        }
        r
    }
}

/// The data type of a Java value.
pub struct JavaDataType {
    primitive: Option<JavaPrimitiveDataType>,
    non_primitive: Option<JavaNonPrimitiveDataType>,
}

impl View for JavaDataType {
    type V = JavaDataTypeView;

    closed spec fn view(&self) -> JavaDataTypeView {
        JavaDataTypeView {
            primitive: self.primitive,
            without_import: match self.non_primitive {
                Some(n) => n.spec_without_import(),
                None => None,
            },
            import: match self.non_primitive {
                Some(n) => n.spec_import(),
                None => None,
            },
            non_primitive: self.non_primitive is Some,
        }
    }
}

impl Clone for JavaDataType {
    fn clone(&self) -> (r: Self)
        ensures
            r@ == self@,
    {
        JavaDataType {
            primitive: self.primitive,
            non_primitive: match &self.non_primitive {
                Some(n) => Some(n.clone()),
                None => None,
            },
        }
    }
}

/// The data type that a basic type name (a primitive keyword, the class of one, or `String`)
/// stands for.
pub open spec fn spec_basic_data_type(name: Seq<char>) -> Option<JavaDataTypeView> {
    if name == "int"@ {
        Some(JavaDataTypeView::primitive(JavaPrimitiveDataType::Int))
    } else if name == "long"@ {
        Some(JavaDataTypeView::primitive(JavaPrimitiveDataType::Long))
    } else if name == "float"@ {
        Some(JavaDataTypeView::primitive(JavaPrimitiveDataType::Float))
    } else if name == "double"@ {
        Some(JavaDataTypeView::primitive(JavaPrimitiveDataType::Double))
    } else if name == "char"@ {
        Some(JavaDataTypeView::primitive(JavaPrimitiveDataType::Char))
    } else if name == "boolean"@ {
        Some(JavaDataTypeView::primitive(JavaPrimitiveDataType::Boolean))
    } else if name == "byte"@ {
        Some(JavaDataTypeView::primitive(JavaPrimitiveDataType::Byte))
    } else if name == "short"@ {
        Some(JavaDataTypeView::primitive(JavaPrimitiveDataType::Short))
    } else if name == "Integer"@ {
        Some(JavaDataTypeView::without_import(JavaNonPrimitiveDataTypeWithoutImport::IntClass))
    } else if name == "Long"@ {
        Some(JavaDataTypeView::without_import(JavaNonPrimitiveDataTypeWithoutImport::LongClass))
    } else if name == "Float"@ {
        Some(JavaDataTypeView::without_import(JavaNonPrimitiveDataTypeWithoutImport::FloatClass))
    } else if name == "Double"@ {
        Some(JavaDataTypeView::without_import(JavaNonPrimitiveDataTypeWithoutImport::DoubleClass))
    } else if name == "Boolean"@ {
        Some(JavaDataTypeView::without_import(JavaNonPrimitiveDataTypeWithoutImport::BooleanClass))
    } else if name == "String"@ {
        Some(JavaDataTypeView::without_import(JavaNonPrimitiveDataTypeWithoutImport::String))
    } else if name == "Byte"@ {
        Some(JavaDataTypeView::without_import(JavaNonPrimitiveDataTypeWithoutImport::ByteClass))
    } else if name == "Short"@ {
        Some(JavaDataTypeView::without_import(JavaNonPrimitiveDataTypeWithoutImport::ShortClass))
    } else {
        None
    }
}

/// The data type of an integral type node, by the kind of its first child.
pub open spec fn spec_integral_type(t: JavaNodeType) -> Option<JavaDataTypeView> {
    if t == JavaNodeType::Int {
        Some(JavaDataTypeView::primitive(JavaPrimitiveDataType::Int))
    } else if t == JavaNodeType::Long {
        Some(JavaDataTypeView::primitive(JavaPrimitiveDataType::Long))
    } else if t == JavaNodeType::Byte {
        Some(JavaDataTypeView::primitive(JavaPrimitiveDataType::Byte))
    } else if t == JavaNodeType::Short {
        Some(JavaDataTypeView::primitive(JavaPrimitiveDataType::Short))
    } else if t == JavaNodeType::Char {
        Some(JavaDataTypeView::primitive(JavaPrimitiveDataType::Char))
    } else {
        None
    }
}

/// The data type of a floating point type node, by the kind of its first child.
pub open spec fn spec_floating_point_type(t: JavaNodeType) -> Option<JavaDataTypeView> {
    if t == JavaNodeType::Float {
        Some(JavaDataTypeView::primitive(JavaPrimitiveDataType::Float))
    } else if t == JavaNodeType::Double {
        Some(JavaDataTypeView::primitive(JavaPrimitiveDataType::Double))
    } else {
        None
    }
}

/// The data type that the kind of the first child of `node` gives by `f`, if any.
pub open spec fn spec_by_first_child(
    node: JavaNode,
    f: spec_fn(JavaNodeType) -> Option<JavaDataTypeView>,
) -> Option<JavaDataTypeView> {
    if node.spec_children().len() > 0 {
        match node.spec_children()[0].spec_node_type() {
            Some(t) => f(t),
            None => None,
        }
    } else {
        None
    }
}

/// The message for a data type node of the cached file that cannot be read: `prefix`, then
/// the text of the node and the path of the file.
pub open spec fn spec_unrecognized_in(prefix: Seq<char>, node: JavaNode, cache: FileCache) -> Seq<char> {
    prefix + node.spec_content() + "\" in file:\n"@ + cache.spec_path() + "\n"@
}

/// Why a data type node of the cached file stands for no data type.
pub open spec fn spec_data_type_error_in(node: JavaNode, cache: FileCache) -> Seq<char> {
    match node.spec_node_type() {
        Some(t) => if t == JavaNodeType::TypeIdentifier || t == JavaNodeType::ScopedTypeIdentifier {
            spec_identifier_error(node)
        } else if t == JavaNodeType::IntegralType {
            if node.spec_children().len() == 0 {
                spec_unrecognized_in("Missing mandatory child node building IntegralType JavaNodeType \""@, node, cache)
            } else if node.spec_children()[0].spec_node_type() is None {
                spec_unrecognized_in("Missing mandatory node type building IntegralType JavaNodeType \""@, node, cache)
            } else {
                spec_unrecognized_in("Unrecognized Integral JavaNodeType parsing \""@, node, cache)
            }
        } else if t == JavaNodeType::FloatingPointType {
            if node.spec_children().len() == 0 {
                "First java child node expected"@
            } else if node.spec_children()[0].spec_node_type() is None {
                "First java child node type expected"@
            } else {
                spec_unrecognized_in("Unrecognized FloatingPointType JavaNodeType parsing \""@, node, cache)
            }
        } else {
            spec_unrecognized_in("Unrecognized JavaNodeType parsing \""@, node, cache)
        },
        None => "Unexpected node type"@,
    }
}

/// The data type that a data type node stands for in a file with the imports `file_imports`.
pub open spec fn spec_data_type_of_node(
    node: JavaNode,
    file_imports: JavaFileImportsView,
    cache: FileCache,
) -> Option<JavaDataTypeView> {
    match node.spec_node_type() {
        Some(t) => if t == JavaNodeType::TypeIdentifier || t == JavaNodeType::ScopedTypeIdentifier {
            match spec_basic_data_type(node.spec_content()) {
                Some(d) => Some(d),
                None => match file_imports.spec_identifier_import(node, cache) {
                    Some(i) => Some(JavaDataTypeView::from_import(i)),
                    None => None,
                },
            }
        } else if t == JavaNodeType::Boolean {
            Some(JavaDataTypeView::primitive(JavaPrimitiveDataType::Boolean))
        } else if t == JavaNodeType::IntegralType {
            spec_by_first_child(node, |t: JavaNodeType| spec_integral_type(t))
        } else if t == JavaNodeType::FloatingPointType {
            spec_by_first_child(node, |t: JavaNodeType| spec_floating_point_type(t))
        } else {
            None
        },
        None => None,
    }
}

impl JavaDataType {
    /// `int` (the word `int` is reserved in this language, so the function has a longer name).
    pub fn int_type() -> (r: Self)
        ensures
            r@ == JavaDataTypeView::primitive(JavaPrimitiveDataType::Int),
    {
        Self::from_primitive(JavaPrimitiveDataType::Int)
    }

    /// `long`.
    pub fn long() -> (r: Self)
        ensures
            r@ == JavaDataTypeView::primitive(JavaPrimitiveDataType::Long),
    {
        Self::from_primitive(JavaPrimitiveDataType::Long)
    }

    /// `float`.
    pub fn float() -> (r: Self)
        ensures
            r@ == JavaDataTypeView::primitive(JavaPrimitiveDataType::Float),
    {
        Self::from_primitive(JavaPrimitiveDataType::Float)
    }

    /// `double`.
    pub fn double() -> (r: Self)
        ensures
            r@ == JavaDataTypeView::primitive(JavaPrimitiveDataType::Double),
    {
        Self::from_primitive(JavaPrimitiveDataType::Double)
    }

    /// `boolean`.
    pub fn boolean() -> (r: Self)
        ensures
            r@ == JavaDataTypeView::primitive(JavaPrimitiveDataType::Boolean),
    {
        Self::from_primitive(JavaPrimitiveDataType::Boolean)
    }

    /// `String`.
    pub fn string() -> (r: Self)
        ensures
            r@ == JavaDataTypeView::without_import(JavaNonPrimitiveDataTypeWithoutImport::String),
    {
        let non_primitive = JavaNonPrimitiveDataType::without_import(
            JavaNonPrimitiveDataTypeWithoutImport::String,
        );
        Self::from_non_primitive(non_primitive)
    }

    /// `char`.
    pub fn char() -> (r: Self)
        ensures
            r@ == JavaDataTypeView::primitive(JavaPrimitiveDataType::Char),
    {
        Self::from_primitive(JavaPrimitiveDataType::Char)
    }

    /// `byte`.
    pub fn byte() -> (r: Self)
        ensures
            r@ == JavaDataTypeView::primitive(JavaPrimitiveDataType::Byte),
    {
        Self::from_primitive(JavaPrimitiveDataType::Byte)
    }

    /// `short`.
    pub fn short() -> (r: Self)
        ensures
            r@ == JavaDataTypeView::primitive(JavaPrimitiveDataType::Short),
    {
        Self::from_primitive(JavaPrimitiveDataType::Short)
    }

    fn get_primitive(&self) -> (r: &Option<JavaPrimitiveDataType>)
        ensures
            *r == self@.primitive,
    {
        &self.primitive
    }

    fn get_non_primitive(&self) -> (r: &Option<JavaNonPrimitiveDataType>)
        ensures
            r is Some == self@.non_primitive,
            r matches Some(n) ==> n.spec_without_import() == self@.without_import
                && n.spec_import() == self@.import,
    {
        &self.non_primitive
    }

    /// The type imported by `import`.
    pub fn from_import(import: JavaImport) -> (r: Self)
        ensures
            r@ == JavaDataTypeView::from_import(import@),
    {
        Self::from_non_primitive(JavaNonPrimitiveDataType::from_explicit_import(import))
    }

    /// The type declared by a scanned Java file: the one that its own import names.
    pub fn from_path(java_file: &JavaFile) -> (r: Self)
        ensures
            r@ == JavaDataTypeView::from_import(spec_import_of_file(java_file@.path)),
    {
        Self::from_import(java_file.get_self_import())
    }

    /// The import that the type needs, if any.
    pub fn get_import_opt(&self) -> (r: Option<JavaImport>)
        ensures
            r matches Some(i) ==> self@.import == Some(i@),
            r is None ==> self@.import is None,
    {
        if let Some(non_primitive) = &self.non_primitive {
            return non_primitive.get_import();
        }
        None
    }

    /// The data type that a data type node stands for; an error when the node names no known
    /// type.
    pub fn get_data_type(
        data_type_node: &JavaNode,
        file_imports: &JavaFileImports,
        java_file_cache: &FileCache,
    ) -> (r: Result<Self, String>)
        ensures
            r is Ok <==> spec_data_type_of_node(*data_type_node, file_imports@, *java_file_cache) is Some,
            r matches Ok(d) ==> spec_data_type_of_node(*data_type_node, file_imports@, *java_file_cache)
                == Some(d@),
            r matches Err(e) ==> e@ == spec_data_type_error_in(*data_type_node, *java_file_cache),
    {
        let node_type = match data_type_node.get_node_type() {
            Some(t) => t,
            None => {
                return Err("Unexpected node type".to_owned());
            },
        };
        if node_type.is_data_type_id_identifier() {
            return JavaDataType::from_data_type_identifier_including_basic_data_type(
                data_type_node,
                file_imports,
                java_file_cache,
            );
        } else if JavaNodeType::Boolean == node_type {
            return Ok(JavaDataType::boolean());
        } else if JavaNodeType::IntegralType == node_type {
            return Self::get_data_type_from_integral_type(data_type_node, java_file_cache);
        } else if JavaNodeType::FloatingPointType == node_type {
            return Self::get_data_type_from_floating_point_type(data_type_node, java_file_cache);
        }
        Err(Self::unrecognized("Unrecognized JavaNodeType parsing \"", data_type_node, java_file_cache))
    }

    fn unrecognized(prefix: &str, data_type_node: &JavaNode, java_file_cache: &FileCache) -> (r: String)
        ensures
            r@ == spec_unrecognized_in(prefix@, *data_type_node, *java_file_cache),
    {
        let mut e = prefix.to_owned();
        let content = data_type_node.get_content_from_cache(java_file_cache);
        e.append(content.as_str());
        e.append("\" in file:\n");
        e.append(java_file_cache.get_path());
        e.append("\n");
        e
    }

    /// The type that the file imports for a type identifier; an error when there is none.
    pub fn from_data_type_identifier_with_import(
        type_id_node: &JavaNode,
        file_imports: &JavaFileImports,
        java_file_cache: &FileCache,
    ) -> (r: Result<JavaDataType, String>)
        ensures
            r is Ok <==> file_imports.spec_identifier_import(*type_id_node, *java_file_cache) is Some,
            r matches Ok(d) ==> file_imports.spec_identifier_import(*type_id_node, *java_file_cache)
                matches Some(i) && d@ == JavaDataTypeView::from_import(i),
            r matches Err(e) ==> e@ == spec_identifier_error(*type_id_node),
    {
        match file_imports.get_explicit_import_from_identifier(type_id_node, java_file_cache) {
            Ok(explicit_import) => Ok(JavaDataType::from_import(explicit_import)),
            Err(e) => Err(e),
        }
    }

    /// The data type that a basic type name (a primitive keyword, the class of one, or
    /// `String`) stands for, if any.
    pub fn new_basic_data_type(basic_type: &str) -> (r: Option<Self>)
        ensures
            r matches Some(d) ==> spec_basic_data_type(basic_type@) == Some(d@),
            r is None ==> spec_basic_data_type(basic_type@) is None,
    {
        let primitive = if str_eq(basic_type, "int") {
            Some(JavaPrimitiveDataType::Int)
        } else if str_eq(basic_type, "long") {
            Some(JavaPrimitiveDataType::Long)
        } else if str_eq(basic_type, "float") {
            Some(JavaPrimitiveDataType::Float)
        } else if str_eq(basic_type, "double") {
            Some(JavaPrimitiveDataType::Double)
        } else if str_eq(basic_type, "char") {
            Some(JavaPrimitiveDataType::Char)
        } else if str_eq(basic_type, "boolean") {
            Some(JavaPrimitiveDataType::Boolean)
        } else if str_eq(basic_type, "byte") {
            Some(JavaPrimitiveDataType::Byte)
        } else if str_eq(basic_type, "short") {
            Some(JavaPrimitiveDataType::Short)
        } else {
            None
        };
        if let Some(primitive) = primitive {
            return Some(Self::from_primitive(primitive));
        }
        let non_primitive = if str_eq(basic_type, "Integer") {
            Some(JavaNonPrimitiveDataTypeWithoutImport::IntClass)
        } else if str_eq(basic_type, "Long") {
            Some(JavaNonPrimitiveDataTypeWithoutImport::LongClass)
        } else if str_eq(basic_type, "Float") {
            Some(JavaNonPrimitiveDataTypeWithoutImport::FloatClass)
        } else if str_eq(basic_type, "Double") {
            Some(JavaNonPrimitiveDataTypeWithoutImport::DoubleClass)
        } else if str_eq(basic_type, "Boolean") {
            Some(JavaNonPrimitiveDataTypeWithoutImport::BooleanClass)
        } else if str_eq(basic_type, "String") {
            Some(JavaNonPrimitiveDataTypeWithoutImport::String)
        } else if str_eq(basic_type, "Byte") {
            Some(JavaNonPrimitiveDataTypeWithoutImport::ByteClass)
        } else if str_eq(basic_type, "Short") {
            Some(JavaNonPrimitiveDataTypeWithoutImport::ShortClass)
        } else {
            None
        };
        if let Some(non_primitive) = non_primitive {
            let result_non_primitive = JavaNonPrimitiveDataType::without_import(non_primitive);
            return Some(Self::from_non_primitive(result_non_primitive));
        }
        None
    }

    fn from_non_primitive(result: JavaNonPrimitiveDataType) -> (r: JavaDataType)
        ensures
            r@ == (JavaDataTypeView {
                primitive: None,
                without_import: result.spec_without_import(),
                import: result.spec_import(),
                non_primitive: true,
            }),
    {
        Self { primitive: None, non_primitive: Some(result) }
    }

    fn from_primitive(primitive: JavaPrimitiveDataType) -> (r: JavaDataType)
        ensures
            r@ == JavaDataTypeView::primitive(primitive),
    {
        Self { primitive: Some(primitive), non_primitive: None }
    }

    fn from_data_type_identifier_including_basic_data_type(
        type_id_node: &JavaNode,
        file_imports: &JavaFileImports,
        java_file_cache: &FileCache,
    ) -> (r: Result<JavaDataType, String>)
        ensures
            ({
                let d = match spec_basic_data_type(type_id_node.spec_content()) {
                    Some(d) => Some(d),
                    None => match file_imports.spec_identifier_import(*type_id_node, *java_file_cache) {
                        Some(i) => Some(JavaDataTypeView::from_import(i)),
                        None => None,
                    },
                };
                &&& r is Ok <==> d is Some
                &&& r matches Ok(x) ==> d == Some(x@)
                &&& r matches Err(e) ==> e@ == spec_identifier_error(*type_id_node)
            }),
    {
        let type_id = type_id_node.get_content_from_cache(java_file_cache);
        let basic_data_type = Self::new_basic_data_type(type_id.as_str());
        if let Some(data_type) = basic_data_type {
            return Ok(data_type);
        }
        Self::from_data_type_identifier_with_import(type_id_node, file_imports, java_file_cache)
    }

    fn get_data_type_from_floating_point_type(data_type_node: &JavaNode, java_file_cache: &FileCache) -> (r: Result<
        JavaDataType,
        String,
    >)
        ensures
            r is Ok <==> spec_by_first_child(
                *data_type_node,
                |t: JavaNodeType| spec_floating_point_type(t),
            ) is Some,
            r matches Ok(d) ==> spec_by_first_child(
                *data_type_node,
                |t: JavaNodeType| spec_floating_point_type(t),
            ) == Some(d@),
            data_type_node.spec_node_type() == Some(JavaNodeType::FloatingPointType) ==> (r matches Err(
                e,
            ) ==> e@ == spec_data_type_error_in(*data_type_node, *java_file_cache)),
    {
        let children = data_type_node.get_children();
        if children.len() == 0 {
            return Err("First java child node expected".to_owned());
        }
        let child_node_type = match children[0].get_node_type() {
            Some(t) => t,
            None => {
                return Err("First java child node type expected".to_owned());
            },
        };
        if JavaNodeType::Float == child_node_type {
            Ok(JavaDataType::float())
        } else if JavaNodeType::Double == child_node_type {
            Ok(JavaDataType::double())
        } else {
            Err(
                Self::unrecognized(
                    "Unrecognized FloatingPointType JavaNodeType parsing \"",
                    data_type_node,
                    java_file_cache,
                ),
            )
        }
    }

    fn get_data_type_from_integral_type(data_type_node: &JavaNode, java_file_cache: &FileCache) -> (r: Result<
        JavaDataType,
        String,
    >)
        ensures
            r is Ok <==> spec_by_first_child(*data_type_node, |t: JavaNodeType| spec_integral_type(t))
                is Some,
            r matches Ok(d) ==> spec_by_first_child(
                *data_type_node,
                |t: JavaNodeType| spec_integral_type(t),
            ) == Some(d@),
            data_type_node.spec_node_type() == Some(JavaNodeType::IntegralType) ==> (r matches Err(e)
                ==> e@ == spec_data_type_error_in(*data_type_node, *java_file_cache)),
    {
        let children = data_type_node.get_children();
        if children.len() == 0 {
            return Err(
                Self::unrecognized(
                    "Missing mandatory child node building IntegralType JavaNodeType \"",
                    data_type_node,
                    java_file_cache,
                ),
            );
        }
        let child_node_type = match children[0].get_node_type() {
            Some(t) => t,
            None => {
                return Err(
                    Self::unrecognized(
                        "Missing mandatory node type building IntegralType JavaNodeType \"",
                        data_type_node,
                        java_file_cache,
                    ),
                );
            },
        };
        if JavaNodeType::Int == child_node_type {
            Ok(JavaDataType::int_type())
        } else if JavaNodeType::Long == child_node_type {
            Ok(JavaDataType::long())
        } else if JavaNodeType::Byte == child_node_type {
            Ok(JavaDataType::byte())
        } else if JavaNodeType::Short == child_node_type {
            Ok(JavaDataType::short())
        } else if JavaNodeType::Char == child_node_type {
            Ok(JavaDataType::char())
        } else {
            Err(
                Self::unrecognized(
                    "Unrecognized Integral JavaNodeType parsing \"",
                    data_type_node,
                    java_file_cache,
                ),
            )
        }
    }

    /// The type as written in Java.
    pub fn to_string(&self) -> (r: String)
        ensures
            r@ == self@.spec_to_string(),
    {
        let mut r = String::new();
        if let Some(primitive) = self.get_primitive() {
            let s = primitive.to_string();
            r.append(s.as_str());
        }
        if let Some(non_primitive) = self.get_non_primitive() {
            let s = non_primitive.to_string();
            r.append(s.as_str());
        }
        r
    }
}

} // verus!
