//! The node kinds of the Java grammar, and their names in the parser's output.
use vstd::prelude::*;

use crate::common::text::str_eq;

verus! {

/// A kind of node in a parsed Java source file.
#[derive(Debug, PartialEq, Eq, Copy, Clone, Structural)]
pub enum JavaNodeType {
    Program,
    PackageDecl,
    Package,
    ScopedIdentifier,
    ImportDecl,
    Import,
    Id,
    Modifiers,
    StatementExpr,
    MethodInvocation,
    FieldAccess,
    ArgumentList,
    StringLiteral,
    ReturnStatement,
    Return,
    ParenthesizedExpr,
    BinaryExpression,
    CastExpression,
    LambdaExpression,
    LambdaArrow,
    ObjectCreationExpression,
    FileOverwriting,
    AssignmentExpression,
    TernaryExpression,
    InstanceofExpression,
    Instanceof,
    FieldDeclaration,
    Throws,
    TryStatement,
    Try,
    CatchClause,
    Catch,
    CatchFormalParameter,
    CatchType,
    ThrowStatement,
    Throw,
    FinallyClause,
    Finally,
    AssertStatement,
    Assert,
    UnaryExpression,
    DecimalIntegerLiteral,
    FloatingPointType,
    DecimalFloatingPointLiteral,
    CharacterLiteral,
    True,
    False,
    NullLiteral,
    ArrayInitializer,
    ClassDecl,
    RecordDeclaration,
    Class,
    ClassBody,
    Superclass,
    Extends,
    Implements,
    ConstructorDeclaration,
    ConstructorBody,
    Super,
    ExplicitConstructorInvocation,
    ClassLiteral,
    Wildcard,
    Abstract,
    EnumDeclaration,
    Enum,
    EnumBody,
    EnumConstant,
    InterfaceDeclaration,
    SuperInterfaces,
    InterfaceTypeList,
    TypeList,
    Interface,
    InterfaceBody,
    AtInterface,
    MarkerAnnotation,
    At,
    AnnotationTypeDeclaration,
    Annotation,
    AnnotationArgumentList,
    ElementValuePair,
    AnnotationTypeBody,
    MethodDecl,
    FormalParams,
    FormalParam,
    Block,
    LocalVarDecl,
    VariableDeclarator,
    MethodReference,
    MethodReferenceOperator,
    SpreadParameters,
    SpreadParameter,
    ThreeDots,
    Synchronized,
    TypeParameters,
    TypeParameter,
    Final,
    VoidType,
    Void,
    GenericType,
    TypeArguments,
    ArrayType,
    New,
    ScopedTypeIdentifier,
    TypeIdentifier,
    Dimensions,
    IntegralType,
    Int,
    Float,
    Double,
    Long,
    Char,
    Boolean,
    String,
    Byte,
    Short,
    Public,
    Private,
    Protected,
    Static,
    Volatile,
    Transient,
    This,
    Dot,
    Equals,
    Semicolon,
    Comma,
    Comment,
    LineComment,
    BlockComment,
    IfStatement,
    If,
    Else,
    Equality,
    NoEquality,
    Or,
    And,
    ExclamationMark,
    LessOrEqual,
    GreaterOrEqual,
    OrComposition,
    AndComposition,
    QuestionMark,
    Colon,
    SwitchExpression,
    SwitchBlock,
    Switch,
    SwitchStatement,
    SwitchBlockStatementGroup,
    SwitchLabel,
    Case,
    BreakStatement,
    Break,
    Default,
    SwitchRule,
    ForStatement,
    EnhancedForStatement,
    For,
    DoStatement,
    Do,
    WhileStatement,
    While,
    ContinueStatement,
    Continue,
    Plus,
    Minus,
    Modulus,
    Multiplication,
    Division,
    UpdateExpression,
    PlusPlus,
    MinusMinus,
    PlusComposition,
    MinusComposition,
    MultiplicationComposition,
    DivisionComposition,
    ModuleComposition,
    ExponentComposition,
    BitwiseShiftLeft,
    BitwiseShiftRight,
    BitwiseShiftRightUnsigned,
    BitwiseShiftRightUnsignedComposition,
    BitwiseShiftLeftComposition,
    BitwiseShiftRightComposition,
    Ampersand,
    Tilde,
    LParentheses,
    RParentheses,
    LBrace,
    RBrace,
    LBracket,
    RBracket,
    LessThan,
    GreaterThan,
}

/// The name that the Java grammar gives to each node kind.
pub open spec fn spec_kind_name(t: JavaNodeType) -> Seq<char> {
    match t {
        JavaNodeType::Program => "program"@,
        JavaNodeType::PackageDecl => "package_declaration"@,
        JavaNodeType::Package => "package"@,
        JavaNodeType::ScopedIdentifier => "scoped_identifier"@,
        JavaNodeType::ImportDecl => "import_declaration"@,
        JavaNodeType::Import => "import"@,
        JavaNodeType::Id => "identifier"@,
        JavaNodeType::Modifiers => "modifiers"@,
        JavaNodeType::StatementExpr => "expression_statement"@,
        JavaNodeType::MethodInvocation => "method_invocation"@,
        JavaNodeType::FieldAccess => "field_access"@,
        JavaNodeType::ArgumentList => "argument_list"@,
        JavaNodeType::StringLiteral => "string_literal"@,
        JavaNodeType::ReturnStatement => "return_statement"@,
        JavaNodeType::Return => "return"@,
        JavaNodeType::ParenthesizedExpr => "parenthesized_expression"@,
        JavaNodeType::BinaryExpression => "binary_expression"@,
        JavaNodeType::CastExpression => "cast_expression"@,
        JavaNodeType::LambdaExpression => "lambda_expression"@,
        JavaNodeType::LambdaArrow => "->"@,
        JavaNodeType::ObjectCreationExpression => "object_creation_expression"@,
        JavaNodeType::FileOverwriting => "file_overwriting"@,
        JavaNodeType::AssignmentExpression => "assignment_expression"@,
        JavaNodeType::TernaryExpression => "ternary_expression"@,
        JavaNodeType::InstanceofExpression => "instanceof_expression"@,
        JavaNodeType::Instanceof => "instanceof"@,
        JavaNodeType::FieldDeclaration => "field_declaration"@,
        JavaNodeType::Throws => "throws"@,
        JavaNodeType::TryStatement => "try_statement"@,
        JavaNodeType::Try => "try"@,
        JavaNodeType::CatchClause => "catch_clause"@,
        JavaNodeType::Catch => "catch"@,
        JavaNodeType::CatchFormalParameter => "catch_formal_parameter"@,
        JavaNodeType::CatchType => "catch_type"@,
        JavaNodeType::ThrowStatement => "throw_statement"@,
        JavaNodeType::Throw => "throw"@,
        JavaNodeType::FinallyClause => "finally_clause"@,
        JavaNodeType::Finally => "finally"@,
        JavaNodeType::AssertStatement => "assert_statement"@,
        JavaNodeType::Assert => "assert"@,
        JavaNodeType::UnaryExpression => "unary_expression"@,
        JavaNodeType::DecimalIntegerLiteral => "decimal_integer_literal"@,
        JavaNodeType::FloatingPointType => "floating_point_type"@,
        JavaNodeType::DecimalFloatingPointLiteral => "decimal_floating_point_literal"@,
        JavaNodeType::CharacterLiteral => "character_literal"@,
        JavaNodeType::True => "true"@,
        JavaNodeType::False => "false"@,
        JavaNodeType::NullLiteral => "null_literal"@,
        JavaNodeType::ArrayInitializer => "array_initializer"@,
        JavaNodeType::ClassDecl => "class_declaration"@,
        JavaNodeType::RecordDeclaration => "record_declaration"@,
        JavaNodeType::Class => "class"@,
        JavaNodeType::ClassBody => "class_body"@,
        JavaNodeType::Superclass => "superclass"@,
        JavaNodeType::Extends => "extends"@,
        JavaNodeType::Implements => "implements"@,
        JavaNodeType::ConstructorDeclaration => "constructor_declaration"@,
        JavaNodeType::ConstructorBody => "constructor_body"@,
        JavaNodeType::Super => "super"@,
        JavaNodeType::ExplicitConstructorInvocation => "explicit_constructor_invocation"@,
        JavaNodeType::ClassLiteral => "class_literal"@,
        JavaNodeType::Wildcard => "wildcard"@,
        JavaNodeType::Abstract => "abstract"@,
        JavaNodeType::EnumDeclaration => "enum_declaration"@,
        JavaNodeType::Enum => "enum"@,
        JavaNodeType::EnumBody => "enum_body"@,
        JavaNodeType::EnumConstant => "enum_constant"@,
        JavaNodeType::InterfaceDeclaration => "interface_declaration"@,
        JavaNodeType::SuperInterfaces => "super_interfaces"@,
        JavaNodeType::InterfaceTypeList => "interface_type_list"@,
        JavaNodeType::TypeList => "type_list"@,
        JavaNodeType::Interface => "interface"@,
        JavaNodeType::InterfaceBody => "interface_body"@,
        JavaNodeType::AtInterface => "@interface"@,
        JavaNodeType::MarkerAnnotation => "marker_annotation"@,
        JavaNodeType::At => "@"@,
        JavaNodeType::AnnotationTypeDeclaration => "annotation_type_declaration"@,
        JavaNodeType::Annotation => "annotation"@,
        JavaNodeType::AnnotationArgumentList => "annotation_argument_list"@,
        JavaNodeType::ElementValuePair => "element_value_pair"@,
        JavaNodeType::AnnotationTypeBody => "annotation_type_body"@,
        JavaNodeType::MethodDecl => "method_declaration"@,
        JavaNodeType::FormalParams => "formal_parameters"@,
        JavaNodeType::FormalParam => "formal_parameter"@,
        JavaNodeType::Block => "block"@,
        JavaNodeType::LocalVarDecl => "local_variable_declaration"@,
        JavaNodeType::VariableDeclarator => "variable_declarator"@,
        JavaNodeType::MethodReference => "method_reference"@,
        JavaNodeType::MethodReferenceOperator => "::"@,
        JavaNodeType::SpreadParameters => "spread_parameters"@,
        JavaNodeType::SpreadParameter => "spread_parameter"@,
        JavaNodeType::ThreeDots => "..."@,
        JavaNodeType::Synchronized => "synchronized"@,
        JavaNodeType::TypeParameters => "type_parameters"@,
        JavaNodeType::TypeParameter => "type_parameter"@,
        JavaNodeType::Final => "final"@,
        JavaNodeType::VoidType => "void_type"@,
        JavaNodeType::Void => "void"@,
        JavaNodeType::GenericType => "generic_type"@,
        JavaNodeType::TypeArguments => "type_arguments"@,
        JavaNodeType::ArrayType => "array_type"@,
        JavaNodeType::New => "new"@,
        JavaNodeType::ScopedTypeIdentifier => "scoped_type_identifier"@,
        JavaNodeType::TypeIdentifier => "type_identifier"@,
        JavaNodeType::Dimensions => "dimensions"@,
        JavaNodeType::IntegralType => "integral_type"@,
        JavaNodeType::Int => "int"@,
        JavaNodeType::Float => "float"@,
        JavaNodeType::Double => "double"@,
        JavaNodeType::Long => "long"@,
        JavaNodeType::Char => "char"@,
        JavaNodeType::Boolean => "boolean_type"@,
        JavaNodeType::String => "string"@,
        JavaNodeType::Byte => "byte"@,
        JavaNodeType::Short => "short"@,
        JavaNodeType::Public => "public"@,
        JavaNodeType::Private => "private"@,
        JavaNodeType::Protected => "protected"@,
        JavaNodeType::Static => "static"@,
        JavaNodeType::Volatile => "volatile"@,
        JavaNodeType::Transient => "transient"@,
        JavaNodeType::This => "this"@,
        JavaNodeType::Dot => "."@,
        JavaNodeType::Equals => "="@,
        JavaNodeType::Semicolon => ";"@,
        JavaNodeType::Comma => ","@,
        JavaNodeType::Comment => "comment"@,
        JavaNodeType::LineComment => "line_comment"@,
        JavaNodeType::BlockComment => "block_comment"@,
        JavaNodeType::IfStatement => "if_statement"@,
        JavaNodeType::If => "if"@,
        JavaNodeType::Else => "else"@,
        JavaNodeType::Equality => "=="@,
        JavaNodeType::NoEquality => "!="@,
        JavaNodeType::Or => "||"@,
        JavaNodeType::And => "&&"@,
        JavaNodeType::ExclamationMark => "!"@,
        JavaNodeType::LessOrEqual => "<="@,
        JavaNodeType::GreaterOrEqual => ">="@,
        JavaNodeType::OrComposition => "|="@,
        JavaNodeType::AndComposition => "&="@,
        JavaNodeType::QuestionMark => "?"@,
        JavaNodeType::Colon => ":"@,
        JavaNodeType::SwitchExpression => "switch_expression"@,
        JavaNodeType::SwitchBlock => "switch_block"@,
        JavaNodeType::Switch => "switch"@,
        JavaNodeType::SwitchStatement => "switch_statement"@,
        JavaNodeType::SwitchBlockStatementGroup => "switch_block_statement_group"@,
        JavaNodeType::SwitchLabel => "switch_label"@,
        JavaNodeType::Case => "case"@,
        JavaNodeType::BreakStatement => "break_statement"@,
        JavaNodeType::Break => "break"@,
        JavaNodeType::Default => "default"@,
        JavaNodeType::SwitchRule => "switch_rule"@,
        JavaNodeType::ForStatement => "for_statement"@,
        JavaNodeType::EnhancedForStatement => "enhanced_for_statement"@,
        JavaNodeType::For => "for"@,
        JavaNodeType::DoStatement => "do_statement"@,
        JavaNodeType::Do => "do"@,
        JavaNodeType::WhileStatement => "while_statement"@,
        JavaNodeType::While => "while"@,
        JavaNodeType::ContinueStatement => "continue_statement"@,
        JavaNodeType::Continue => "continue"@,
        JavaNodeType::Plus => "+"@,
        JavaNodeType::Minus => "-"@,
        JavaNodeType::Modulus => "%"@,
        JavaNodeType::Multiplication => "*"@,
        JavaNodeType::Division => "/"@,
        JavaNodeType::UpdateExpression => "update_expression"@,
        JavaNodeType::PlusPlus => "++"@,
        JavaNodeType::MinusMinus => "--"@,
        JavaNodeType::PlusComposition => "+="@,
        JavaNodeType::MinusComposition => "-="@,
        JavaNodeType::MultiplicationComposition => "*="@,
        JavaNodeType::DivisionComposition => "/="@,
        JavaNodeType::ModuleComposition => "%="@,
        JavaNodeType::ExponentComposition => "^="@,
        JavaNodeType::BitwiseShiftLeft => "<<"@,
        JavaNodeType::BitwiseShiftRight => ">>"@,
        JavaNodeType::BitwiseShiftRightUnsigned => ">>>"@,
        JavaNodeType::BitwiseShiftRightUnsignedComposition => ">>>="@,
        JavaNodeType::BitwiseShiftLeftComposition => "<<="@,
        JavaNodeType::BitwiseShiftRightComposition => ">>="@,
        JavaNodeType::Ampersand => "&"@,
        JavaNodeType::Tilde => "~"@,
        JavaNodeType::LParentheses => "("@,
        JavaNodeType::RParentheses => ")"@,
        JavaNodeType::LBrace => "{"@,
        JavaNodeType::RBrace => "}"@,
        JavaNodeType::LBracket => "["@,
        JavaNodeType::RBracket => "]"@,
        JavaNodeType::LessThan => "<"@,
        JavaNodeType::GreaterThan => ">"@,
    }
}

/// The group of kinds in which `from_str` looks for each kind.
pub open spec fn spec_kind_group(t: JavaNodeType) -> int {
    match t {
        JavaNodeType::Program => 0,
        JavaNodeType::PackageDecl => 0,
        JavaNodeType::Package => 0,
        JavaNodeType::ScopedIdentifier => 0,
        JavaNodeType::ImportDecl => 0,
        JavaNodeType::Import => 0,
        JavaNodeType::Id => 0,
        JavaNodeType::Modifiers => 0,
        JavaNodeType::StatementExpr => 1,
        JavaNodeType::MethodInvocation => 1,
        JavaNodeType::FieldAccess => 1,
        JavaNodeType::ArgumentList => 1,
        JavaNodeType::StringLiteral => 1,
        JavaNodeType::ReturnStatement => 1,
        JavaNodeType::Return => 1,
        JavaNodeType::ParenthesizedExpr => 1,
        JavaNodeType::BinaryExpression => 1,
        JavaNodeType::CastExpression => 1,
        JavaNodeType::LambdaExpression => 1,
        JavaNodeType::LambdaArrow => 1,
        JavaNodeType::ObjectCreationExpression => 1,
        JavaNodeType::FileOverwriting => 1,
        JavaNodeType::AssignmentExpression => 1,
        JavaNodeType::TernaryExpression => 1,
        JavaNodeType::InstanceofExpression => 1,
        JavaNodeType::Instanceof => 1,
        JavaNodeType::FieldDeclaration => 1,
        JavaNodeType::Throws => 2,
        JavaNodeType::TryStatement => 2,
        JavaNodeType::Try => 2,
        JavaNodeType::CatchClause => 2,
        JavaNodeType::Catch => 2,
        JavaNodeType::CatchFormalParameter => 2,
        JavaNodeType::CatchType => 2,
        JavaNodeType::ThrowStatement => 2,
        JavaNodeType::Throw => 2,
        JavaNodeType::FinallyClause => 2,
        JavaNodeType::Finally => 2,
        JavaNodeType::AssertStatement => 2,
        JavaNodeType::Assert => 2,
        JavaNodeType::UnaryExpression => 3,
        JavaNodeType::DecimalIntegerLiteral => 3,
        JavaNodeType::FloatingPointType => 3,
        JavaNodeType::DecimalFloatingPointLiteral => 3,
        JavaNodeType::CharacterLiteral => 3,
        JavaNodeType::True => 3,
        JavaNodeType::False => 3,
        JavaNodeType::NullLiteral => 3,
        JavaNodeType::ArrayInitializer => 3,
        JavaNodeType::ClassDecl => 4,
        JavaNodeType::RecordDeclaration => 4,
        JavaNodeType::Class => 4,
        JavaNodeType::ClassBody => 4,
        JavaNodeType::Superclass => 4,
        JavaNodeType::Extends => 4,
        JavaNodeType::Implements => 4,
        JavaNodeType::ConstructorDeclaration => 4,
        JavaNodeType::ConstructorBody => 4,
        JavaNodeType::Super => 4,
        JavaNodeType::ExplicitConstructorInvocation => 4,
        JavaNodeType::ClassLiteral => 4,
        JavaNodeType::Wildcard => 4,
        JavaNodeType::Abstract => 4,
        JavaNodeType::EnumDeclaration => 5,
        JavaNodeType::Enum => 5,
        JavaNodeType::EnumBody => 5,
        JavaNodeType::EnumConstant => 5,
        JavaNodeType::InterfaceDeclaration => 6,
        JavaNodeType::SuperInterfaces => 6,
        JavaNodeType::InterfaceTypeList => 6,
        JavaNodeType::TypeList => 6,
        JavaNodeType::Interface => 6,
        JavaNodeType::InterfaceBody => 6,
        JavaNodeType::AtInterface => 6,
        JavaNodeType::MarkerAnnotation => 7,
        JavaNodeType::At => 7,
        JavaNodeType::AnnotationTypeDeclaration => 7,
        JavaNodeType::Annotation => 7,
        JavaNodeType::AnnotationArgumentList => 7,
        JavaNodeType::ElementValuePair => 7,
        JavaNodeType::AnnotationTypeBody => 7,
        JavaNodeType::MethodDecl => 8,
        JavaNodeType::FormalParams => 8,
        JavaNodeType::FormalParam => 8,
        JavaNodeType::Block => 8,
        JavaNodeType::LocalVarDecl => 8,
        JavaNodeType::VariableDeclarator => 8,
        JavaNodeType::MethodReference => 8,
        JavaNodeType::MethodReferenceOperator => 8,
        JavaNodeType::SpreadParameters => 8,
        JavaNodeType::SpreadParameter => 8,
        JavaNodeType::ThreeDots => 8,
        JavaNodeType::Synchronized => 8,
        JavaNodeType::TypeParameters => 8,
        JavaNodeType::TypeParameter => 8,
        JavaNodeType::Final => 9,
        JavaNodeType::VoidType => 9,
        JavaNodeType::Void => 9,
        JavaNodeType::GenericType => 9,
        JavaNodeType::TypeArguments => 9,
        JavaNodeType::ArrayType => 9,
        JavaNodeType::New => 9,
        JavaNodeType::ScopedTypeIdentifier => 9,
        JavaNodeType::TypeIdentifier => 9,
        JavaNodeType::Dimensions => 9,
        JavaNodeType::IntegralType => 9,
        JavaNodeType::Int => 9,
        JavaNodeType::Float => 9,
        JavaNodeType::Double => 9,
        JavaNodeType::Long => 9,
        JavaNodeType::Char => 9,
        JavaNodeType::Boolean => 9,
        JavaNodeType::String => 9,
        JavaNodeType::Byte => 9,
        JavaNodeType::Short => 9,
        JavaNodeType::Public => 10,
        JavaNodeType::Private => 10,
        JavaNodeType::Protected => 10,
        JavaNodeType::Static => 10,
        JavaNodeType::Volatile => 10,
        JavaNodeType::Transient => 10,
        JavaNodeType::This => 10,
        JavaNodeType::Dot => 11,
        JavaNodeType::Equals => 11,
        JavaNodeType::Semicolon => 11,
        JavaNodeType::Comma => 11,
        JavaNodeType::Comment => 12,
        JavaNodeType::LineComment => 12,
        JavaNodeType::BlockComment => 12,
        JavaNodeType::IfStatement => 13,
        JavaNodeType::If => 13,
        JavaNodeType::Else => 13,
        JavaNodeType::Equality => 13,
        JavaNodeType::NoEquality => 13,
        JavaNodeType::Or => 13,
        JavaNodeType::And => 13,
        JavaNodeType::ExclamationMark => 13,
        JavaNodeType::LessOrEqual => 13,
        JavaNodeType::GreaterOrEqual => 13,
        JavaNodeType::OrComposition => 13,
        JavaNodeType::AndComposition => 13,
        JavaNodeType::QuestionMark => 13,
        JavaNodeType::Colon => 13,
        JavaNodeType::SwitchExpression => 13,
        JavaNodeType::SwitchBlock => 13,
        JavaNodeType::Switch => 13,
        JavaNodeType::SwitchStatement => 13,
        JavaNodeType::SwitchBlockStatementGroup => 13,
        JavaNodeType::SwitchLabel => 13,
        JavaNodeType::Case => 13,
        JavaNodeType::BreakStatement => 13,
        JavaNodeType::Break => 13,
        JavaNodeType::Default => 13,
        JavaNodeType::SwitchRule => 13,
        JavaNodeType::ForStatement => 13,
        JavaNodeType::EnhancedForStatement => 13,
        JavaNodeType::For => 13,
        JavaNodeType::DoStatement => 13,
        JavaNodeType::Do => 13,
        JavaNodeType::WhileStatement => 13,
        JavaNodeType::While => 13,
        JavaNodeType::ContinueStatement => 13,
        JavaNodeType::Continue => 13,
        JavaNodeType::Plus => 14,
        JavaNodeType::Minus => 14,
        JavaNodeType::Modulus => 14,
        JavaNodeType::Multiplication => 14,
        JavaNodeType::Division => 14,
        JavaNodeType::UpdateExpression => 14,
        JavaNodeType::PlusPlus => 14,
        JavaNodeType::MinusMinus => 14,
        JavaNodeType::PlusComposition => 14,
        JavaNodeType::MinusComposition => 14,
        JavaNodeType::MultiplicationComposition => 14,
        JavaNodeType::DivisionComposition => 14,
        JavaNodeType::ModuleComposition => 14,
        JavaNodeType::ExponentComposition => 14,
        JavaNodeType::BitwiseShiftLeft => 14,
        JavaNodeType::BitwiseShiftRight => 14,
        JavaNodeType::BitwiseShiftRightUnsigned => 14,
        JavaNodeType::BitwiseShiftRightUnsignedComposition => 14,
        JavaNodeType::BitwiseShiftLeftComposition => 14,
        JavaNodeType::BitwiseShiftRightComposition => 14,
        JavaNodeType::Ampersand => 14,
        JavaNodeType::Tilde => 14,
        JavaNodeType::LParentheses => 15,
        JavaNodeType::RParentheses => 15,
        JavaNodeType::LBrace => 15,
        JavaNodeType::RBrace => 15,
        JavaNodeType::LBracket => 15,
        JavaNodeType::RBracket => 15,
        JavaNodeType::LessThan => 15,
        JavaNodeType::GreaterThan => 15,
    }
}

fn kind_in_group_modularization(input: &str) -> (r: Option<JavaNodeType>)
    ensures
        r matches Some(t) ==> spec_kind_name(t) == input@ && spec_kind_group(t) == 0,
        r is None ==> forall|t: JavaNodeType| spec_kind_group(t) == 0 ==> spec_kind_name(t) != input@,
{
    if str_eq(input, "program") {
        return Some(JavaNodeType::Program);
    }
    if str_eq(input, "package_declaration") {
        return Some(JavaNodeType::PackageDecl);
    }
    if str_eq(input, "package") {
        return Some(JavaNodeType::Package);
    }
    if str_eq(input, "scoped_identifier") {
        return Some(JavaNodeType::ScopedIdentifier);
    }
    if str_eq(input, "import_declaration") {
        return Some(JavaNodeType::ImportDecl);
    }
    if str_eq(input, "import") {
        return Some(JavaNodeType::Import);
    }
    if str_eq(input, "identifier") {
        return Some(JavaNodeType::Id);
    }
    if str_eq(input, "modifiers") {
        return Some(JavaNodeType::Modifiers);
    }
    None
}

fn kind_in_group_expressions(input: &str) -> (r: Option<JavaNodeType>)
    ensures
        r matches Some(t) ==> spec_kind_name(t) == input@ && spec_kind_group(t) == 1,
        r is None ==> forall|t: JavaNodeType| spec_kind_group(t) == 1 ==> spec_kind_name(t) != input@,
{
    if str_eq(input, "expression_statement") {
        return Some(JavaNodeType::StatementExpr);
    }
    if str_eq(input, "method_invocation") {
        return Some(JavaNodeType::MethodInvocation);
    }
    if str_eq(input, "field_access") {
        return Some(JavaNodeType::FieldAccess);
    }
    if str_eq(input, "argument_list") {
        return Some(JavaNodeType::ArgumentList);
    }
    if str_eq(input, "string_literal") {
        return Some(JavaNodeType::StringLiteral);
    }
    if str_eq(input, "return_statement") {
        return Some(JavaNodeType::ReturnStatement);
    }
    if str_eq(input, "return") {
        return Some(JavaNodeType::Return);
    }
    if str_eq(input, "parenthesized_expression") {
        return Some(JavaNodeType::ParenthesizedExpr);
    }
    if str_eq(input, "binary_expression") {
        return Some(JavaNodeType::BinaryExpression);
    }
    if str_eq(input, "cast_expression") {
        return Some(JavaNodeType::CastExpression);
    }
    if str_eq(input, "lambda_expression") {
        return Some(JavaNodeType::LambdaExpression);
    }
    if str_eq(input, "->") {
        return Some(JavaNodeType::LambdaArrow);
    }
    if str_eq(input, "object_creation_expression") {
        return Some(JavaNodeType::ObjectCreationExpression);
    }
    if str_eq(input, "file_overwriting") {
        return Some(JavaNodeType::FileOverwriting);
    }
    if str_eq(input, "assignment_expression") {
        return Some(JavaNodeType::AssignmentExpression);
    }
    if str_eq(input, "ternary_expression") {
        return Some(JavaNodeType::TernaryExpression);
    }
    if str_eq(input, "instanceof_expression") {
        return Some(JavaNodeType::InstanceofExpression);
    }
    if str_eq(input, "instanceof") {
        return Some(JavaNodeType::Instanceof);
    }
    if str_eq(input, "field_declaration") {
        return Some(JavaNodeType::FieldDeclaration);
    }
    None
}

fn kind_in_group_exceptions(input: &str) -> (r: Option<JavaNodeType>)
    ensures
        r matches Some(t) ==> spec_kind_name(t) == input@ && spec_kind_group(t) == 2,
        r is None ==> forall|t: JavaNodeType| spec_kind_group(t) == 2 ==> spec_kind_name(t) != input@,
{
    if str_eq(input, "throws") {
        return Some(JavaNodeType::Throws);
    }
    if str_eq(input, "try_statement") {
        return Some(JavaNodeType::TryStatement);
    }
    if str_eq(input, "try") {
        return Some(JavaNodeType::Try);
    }
    if str_eq(input, "catch_clause") {
        return Some(JavaNodeType::CatchClause);
    }
    if str_eq(input, "catch") {
        return Some(JavaNodeType::Catch);
    }
    if str_eq(input, "catch_formal_parameter") {
        return Some(JavaNodeType::CatchFormalParameter);
    }
    if str_eq(input, "catch_type") {
        return Some(JavaNodeType::CatchType);
    }
    if str_eq(input, "throw_statement") {
        return Some(JavaNodeType::ThrowStatement);
    }
    if str_eq(input, "throw") {
        return Some(JavaNodeType::Throw);
    }
    if str_eq(input, "finally_clause") {
        return Some(JavaNodeType::FinallyClause);
    }
    if str_eq(input, "finally") {
        return Some(JavaNodeType::Finally);
    }
    if str_eq(input, "assert_statement") {
        return Some(JavaNodeType::AssertStatement);
    }
    if str_eq(input, "assert") {
        return Some(JavaNodeType::Assert);
    }
    None
}

fn kind_in_group_literals(input: &str) -> (r: Option<JavaNodeType>)
    ensures
        r matches Some(t) ==> spec_kind_name(t) == input@ && spec_kind_group(t) == 3,
        r is None ==> forall|t: JavaNodeType| spec_kind_group(t) == 3 ==> spec_kind_name(t) != input@,
{
    if str_eq(input, "unary_expression") {
        return Some(JavaNodeType::UnaryExpression);
    }
    if str_eq(input, "decimal_integer_literal") {
        return Some(JavaNodeType::DecimalIntegerLiteral);
    }
    if str_eq(input, "floating_point_type") {
        return Some(JavaNodeType::FloatingPointType);
    }
    if str_eq(input, "decimal_floating_point_literal") {
        return Some(JavaNodeType::DecimalFloatingPointLiteral);
    }
    if str_eq(input, "character_literal") {
        return Some(JavaNodeType::CharacterLiteral);
    }
    if str_eq(input, "true") {
        return Some(JavaNodeType::True);
    }
    if str_eq(input, "false") {
        return Some(JavaNodeType::False);
    }
    if str_eq(input, "null_literal") {
        return Some(JavaNodeType::NullLiteral);
    }
    if str_eq(input, "array_initializer") {
        return Some(JavaNodeType::ArrayInitializer);
    }
    None
}

fn kind_in_group_class(input: &str) -> (r: Option<JavaNodeType>)
    ensures
        r matches Some(t) ==> spec_kind_name(t) == input@ && spec_kind_group(t) == 4,
        r is None ==> forall|t: JavaNodeType| spec_kind_group(t) == 4 ==> spec_kind_name(t) != input@,
{
    if str_eq(input, "class_declaration") {
        return Some(JavaNodeType::ClassDecl);
    }
    if str_eq(input, "record_declaration") {
        return Some(JavaNodeType::RecordDeclaration);
    }
    if str_eq(input, "class") {
        return Some(JavaNodeType::Class);
    }
    if str_eq(input, "class_body") {
        return Some(JavaNodeType::ClassBody);
    }
    if str_eq(input, "superclass") {
        return Some(JavaNodeType::Superclass);
    }
    if str_eq(input, "extends") {
        return Some(JavaNodeType::Extends);
    }
    if str_eq(input, "implements") {
        return Some(JavaNodeType::Implements);
    }
    if str_eq(input, "constructor_declaration") {
        return Some(JavaNodeType::ConstructorDeclaration);
    }
    if str_eq(input, "constructor_body") {
        return Some(JavaNodeType::ConstructorBody);
    }
    if str_eq(input, "super") {
        return Some(JavaNodeType::Super);
    }
    if str_eq(input, "explicit_constructor_invocation") {
        return Some(JavaNodeType::ExplicitConstructorInvocation);
    }
    if str_eq(input, "class_literal") {
        return Some(JavaNodeType::ClassLiteral);
    }
    if str_eq(input, "wildcard") {
        return Some(JavaNodeType::Wildcard);
    }
    if str_eq(input, "abstract") {
        return Some(JavaNodeType::Abstract);
    }
    None
}

fn kind_in_group_enum(input: &str) -> (r: Option<JavaNodeType>)
    ensures
        r matches Some(t) ==> spec_kind_name(t) == input@ && spec_kind_group(t) == 5,
        r is None ==> forall|t: JavaNodeType| spec_kind_group(t) == 5 ==> spec_kind_name(t) != input@,
{
    if str_eq(input, "enum_declaration") {
        return Some(JavaNodeType::EnumDeclaration);
    }
    if str_eq(input, "enum") {
        return Some(JavaNodeType::Enum);
    }
    if str_eq(input, "enum_body") {
        return Some(JavaNodeType::EnumBody);
    }
    if str_eq(input, "enum_constant") {
        return Some(JavaNodeType::EnumConstant);
    }
    None
}

fn kind_in_group_interface(input: &str) -> (r: Option<JavaNodeType>)
    ensures
        r matches Some(t) ==> spec_kind_name(t) == input@ && spec_kind_group(t) == 6,
        r is None ==> forall|t: JavaNodeType| spec_kind_group(t) == 6 ==> spec_kind_name(t) != input@,
{
    if str_eq(input, "interface_declaration") {
        return Some(JavaNodeType::InterfaceDeclaration);
    }
    if str_eq(input, "super_interfaces") {
        return Some(JavaNodeType::SuperInterfaces);
    }
    if str_eq(input, "interface_type_list") {
        return Some(JavaNodeType::InterfaceTypeList);
    }
    if str_eq(input, "type_list") {
        return Some(JavaNodeType::TypeList);
    }
    if str_eq(input, "interface") {
        return Some(JavaNodeType::Interface);
    }
    if str_eq(input, "interface_body") {
        return Some(JavaNodeType::InterfaceBody);
    }
    if str_eq(input, "@interface") {
        return Some(JavaNodeType::AtInterface);
    }
    None
}

fn kind_in_group_annotations(input: &str) -> (r: Option<JavaNodeType>)
    ensures
        r matches Some(t) ==> spec_kind_name(t) == input@ && spec_kind_group(t) == 7,
        r is None ==> forall|t: JavaNodeType| spec_kind_group(t) == 7 ==> spec_kind_name(t) != input@,
{
    if str_eq(input, "marker_annotation") {
        return Some(JavaNodeType::MarkerAnnotation);
    }
    if str_eq(input, "@") {
        return Some(JavaNodeType::At);
    }
    if str_eq(input, "annotation_type_declaration") {
        return Some(JavaNodeType::AnnotationTypeDeclaration);
    }
    if str_eq(input, "annotation") {
        return Some(JavaNodeType::Annotation);
    }
    if str_eq(input, "annotation_argument_list") {
        return Some(JavaNodeType::AnnotationArgumentList);
    }
    if str_eq(input, "element_value_pair") {
        return Some(JavaNodeType::ElementValuePair);
    }
    if str_eq(input, "annotation_type_body") {
        return Some(JavaNodeType::AnnotationTypeBody);
    }
    None
}

fn kind_in_group_method(input: &str) -> (r: Option<JavaNodeType>)
    ensures
        r matches Some(t) ==> spec_kind_name(t) == input@ && spec_kind_group(t) == 8,
        r is None ==> forall|t: JavaNodeType| spec_kind_group(t) == 8 ==> spec_kind_name(t) != input@,
{
    if str_eq(input, "method_declaration") {
        return Some(JavaNodeType::MethodDecl);
    }
    if str_eq(input, "formal_parameters") {
        return Some(JavaNodeType::FormalParams);
    }
    if str_eq(input, "formal_parameter") {
        return Some(JavaNodeType::FormalParam);
    }
    if str_eq(input, "block") {
        return Some(JavaNodeType::Block);
    }
    if str_eq(input, "local_variable_declaration") {
        return Some(JavaNodeType::LocalVarDecl);
    }
    if str_eq(input, "variable_declarator") {
        return Some(JavaNodeType::VariableDeclarator);
    }
    if str_eq(input, "method_reference") {
        return Some(JavaNodeType::MethodReference);
    }
    if str_eq(input, "::") {
        return Some(JavaNodeType::MethodReferenceOperator);
    }
    if str_eq(input, "spread_parameters") {
        return Some(JavaNodeType::SpreadParameters);
    }
    if str_eq(input, "spread_parameter") {
        return Some(JavaNodeType::SpreadParameter);
    }
    if str_eq(input, "...") {
        return Some(JavaNodeType::ThreeDots);
    }
    if str_eq(input, "synchronized") {
        return Some(JavaNodeType::Synchronized);
    }
    if str_eq(input, "type_parameters") {
        return Some(JavaNodeType::TypeParameters);
    }
    if str_eq(input, "type_parameter") {
        return Some(JavaNodeType::TypeParameter);
    }
    None
}

fn kind_in_group_types(input: &str) -> (r: Option<JavaNodeType>)
    ensures
        r matches Some(t) ==> spec_kind_name(t) == input@ && spec_kind_group(t) == 9,
        r is None ==> forall|t: JavaNodeType| spec_kind_group(t) == 9 ==> spec_kind_name(t) != input@,
{
    if str_eq(input, "final") {
        return Some(JavaNodeType::Final);
    }
    if str_eq(input, "void_type") {
        return Some(JavaNodeType::VoidType);
    }
    if str_eq(input, "void") {
        return Some(JavaNodeType::Void);
    }
    if str_eq(input, "generic_type") {
        return Some(JavaNodeType::GenericType);
    }
    if str_eq(input, "type_arguments") {
        return Some(JavaNodeType::TypeArguments);
    }
    if str_eq(input, "array_type") {
        return Some(JavaNodeType::ArrayType);
    }
    if str_eq(input, "new") {
        return Some(JavaNodeType::New);
    }
    if str_eq(input, "scoped_type_identifier") {
        return Some(JavaNodeType::ScopedTypeIdentifier);
    }
    if str_eq(input, "type_identifier") {
        return Some(JavaNodeType::TypeIdentifier);
    }
    if str_eq(input, "dimensions") {
        return Some(JavaNodeType::Dimensions);
    }
    if str_eq(input, "integral_type") {
        return Some(JavaNodeType::IntegralType);
    }
    if str_eq(input, "int") {
        return Some(JavaNodeType::Int);
    }
    if str_eq(input, "float") {
        return Some(JavaNodeType::Float);
    }
    if str_eq(input, "double") {
        return Some(JavaNodeType::Double);
    }
    if str_eq(input, "long") {
        return Some(JavaNodeType::Long);
    }
    if str_eq(input, "char") {
        return Some(JavaNodeType::Char);
    }
    if str_eq(input, "boolean_type") {
        return Some(JavaNodeType::Boolean);
    }
    if str_eq(input, "string") {
        return Some(JavaNodeType::String);
    }
    if str_eq(input, "byte") {
        return Some(JavaNodeType::Byte);
    }
    if str_eq(input, "short") {
        return Some(JavaNodeType::Short);
    }
    None
}

fn kind_in_group_visibility(input: &str) -> (r: Option<JavaNodeType>)
    ensures
        r matches Some(t) ==> spec_kind_name(t) == input@ && spec_kind_group(t) == 10,
        r is None ==> forall|t: JavaNodeType| spec_kind_group(t) == 10 ==> spec_kind_name(t) != input@,
{
    if str_eq(input, "public") {
        return Some(JavaNodeType::Public);
    }
    if str_eq(input, "private") {
        return Some(JavaNodeType::Private);
    }
    if str_eq(input, "protected") {
        return Some(JavaNodeType::Protected);
    }
    if str_eq(input, "static") {
        return Some(JavaNodeType::Static);
    }
    if str_eq(input, "volatile") {
        return Some(JavaNodeType::Volatile);
    }
    if str_eq(input, "transient") {
        return Some(JavaNodeType::Transient);
    }
    if str_eq(input, "this") {
        return Some(JavaNodeType::This);
    }
    None
}

fn kind_in_group_simple_signs(input: &str) -> (r: Option<JavaNodeType>)
    ensures
        r matches Some(t) ==> spec_kind_name(t) == input@ && spec_kind_group(t) == 11,
        r is None ==> forall|t: JavaNodeType| spec_kind_group(t) == 11 ==> spec_kind_name(t) != input@,
{
    if str_eq(input, ".") {
        return Some(JavaNodeType::Dot);
    }
    if str_eq(input, "=") {
        return Some(JavaNodeType::Equals);
    }
    if str_eq(input, ";") {
        return Some(JavaNodeType::Semicolon);
    }
    if str_eq(input, ",") {
        return Some(JavaNodeType::Comma);
    }
    None
}

fn kind_in_group_comments(input: &str) -> (r: Option<JavaNodeType>)
    ensures
        r matches Some(t) ==> spec_kind_name(t) == input@ && spec_kind_group(t) == 12,
        r is None ==> forall|t: JavaNodeType| spec_kind_group(t) == 12 ==> spec_kind_name(t) != input@,
{
    if str_eq(input, "comment") {
        return Some(JavaNodeType::Comment);
    }
    if str_eq(input, "line_comment") {
        return Some(JavaNodeType::LineComment);
    }
    if str_eq(input, "block_comment") {
        return Some(JavaNodeType::BlockComment);
    }
    None
}

fn kind_in_group_control_flow(input: &str) -> (r: Option<JavaNodeType>)
    ensures
        r matches Some(t) ==> spec_kind_name(t) == input@ && spec_kind_group(t) == 13,
        r is None ==> forall|t: JavaNodeType| spec_kind_group(t) == 13 ==> spec_kind_name(t) != input@,
{
    if str_eq(input, "if_statement") {
        return Some(JavaNodeType::IfStatement);
    }
    if str_eq(input, "if") {
        return Some(JavaNodeType::If);
    }
    if str_eq(input, "else") {
        return Some(JavaNodeType::Else);
    }
    if str_eq(input, "==") {
        return Some(JavaNodeType::Equality);
    }
    if str_eq(input, "!=") {
        return Some(JavaNodeType::NoEquality);
    }
    if str_eq(input, "||") {
        return Some(JavaNodeType::Or);
    }
    if str_eq(input, "&&") {
        return Some(JavaNodeType::And);
    }
    if str_eq(input, "!") {
        return Some(JavaNodeType::ExclamationMark);
    }
    if str_eq(input, "<=") {
        return Some(JavaNodeType::LessOrEqual);
    }
    if str_eq(input, ">=") {
        return Some(JavaNodeType::GreaterOrEqual);
    }
    if str_eq(input, "|=") {
        return Some(JavaNodeType::OrComposition);
    }
    if str_eq(input, "&=") {
        return Some(JavaNodeType::AndComposition);
    }
    if str_eq(input, "?") {
        return Some(JavaNodeType::QuestionMark);
    }
    if str_eq(input, ":") {
        return Some(JavaNodeType::Colon);
    }
    if str_eq(input, "switch_expression") {
        return Some(JavaNodeType::SwitchExpression);
    }
    if str_eq(input, "switch_block") {
        return Some(JavaNodeType::SwitchBlock);
    }
    if str_eq(input, "switch") {
        return Some(JavaNodeType::Switch);
    }
    if str_eq(input, "switch_statement") {
        return Some(JavaNodeType::SwitchStatement);
    }
    if str_eq(input, "switch_block_statement_group") {
        return Some(JavaNodeType::SwitchBlockStatementGroup);
    }
    if str_eq(input, "switch_label") {
        return Some(JavaNodeType::SwitchLabel);
    }
    if str_eq(input, "case") {
        return Some(JavaNodeType::Case);
    }
    if str_eq(input, "break_statement") {
        return Some(JavaNodeType::BreakStatement);
    }
    if str_eq(input, "break") {
        return Some(JavaNodeType::Break);
    }
    if str_eq(input, "default") {
        return Some(JavaNodeType::Default);
    }
    if str_eq(input, "switch_rule") {
        return Some(JavaNodeType::SwitchRule);
    }
    if str_eq(input, "for_statement") {
        return Some(JavaNodeType::ForStatement);
    }
    if str_eq(input, "enhanced_for_statement") {
        return Some(JavaNodeType::EnhancedForStatement);
    }
    if str_eq(input, "for") {
        return Some(JavaNodeType::For);
    }
    if str_eq(input, "do_statement") {
        return Some(JavaNodeType::DoStatement);
    }
    if str_eq(input, "do") {
        return Some(JavaNodeType::Do);
    }
    if str_eq(input, "while_statement") {
        return Some(JavaNodeType::WhileStatement);
    }
    if str_eq(input, "while") {
        return Some(JavaNodeType::While);
    }
    if str_eq(input, "continue_statement") {
        return Some(JavaNodeType::ContinueStatement);
    }
    if str_eq(input, "continue") {
        return Some(JavaNodeType::Continue);
    }
    None
}

fn kind_in_group_mathematical_operators(input: &str) -> (r: Option<JavaNodeType>)
    ensures
        r matches Some(t) ==> spec_kind_name(t) == input@ && spec_kind_group(t) == 14,
        r is None ==> forall|t: JavaNodeType| spec_kind_group(t) == 14 ==> spec_kind_name(t) != input@,
{
    if str_eq(input, "+") {
        return Some(JavaNodeType::Plus);
    }
    if str_eq(input, "-") {
        return Some(JavaNodeType::Minus);
    }
    if str_eq(input, "%") {
        return Some(JavaNodeType::Modulus);
    }
    if str_eq(input, "*") {
        return Some(JavaNodeType::Multiplication);
    }
    if str_eq(input, "/") {
        return Some(JavaNodeType::Division);
    }
    if str_eq(input, "update_expression") {
        return Some(JavaNodeType::UpdateExpression);
    }
    if str_eq(input, "++") {
        return Some(JavaNodeType::PlusPlus);
    }
    if str_eq(input, "--") {
        return Some(JavaNodeType::MinusMinus);
    }
    if str_eq(input, "+=") {
        return Some(JavaNodeType::PlusComposition);
    }
    if str_eq(input, "-=") {
        return Some(JavaNodeType::MinusComposition);
    }
    if str_eq(input, "*=") {
        return Some(JavaNodeType::MultiplicationComposition);
    }
    if str_eq(input, "/=") {
        return Some(JavaNodeType::DivisionComposition);
    }
    if str_eq(input, "%=") {
        return Some(JavaNodeType::ModuleComposition);
    }
    if str_eq(input, "^=") {
        return Some(JavaNodeType::ExponentComposition);
    }
    if str_eq(input, "<<") {
        return Some(JavaNodeType::BitwiseShiftLeft);
    }
    if str_eq(input, ">>") {
        return Some(JavaNodeType::BitwiseShiftRight);
    }
    if str_eq(input, ">>>") {
        return Some(JavaNodeType::BitwiseShiftRightUnsigned);
    }
    if str_eq(input, ">>>=") {
        return Some(JavaNodeType::BitwiseShiftRightUnsignedComposition);
    }
    if str_eq(input, "<<=") {
        return Some(JavaNodeType::BitwiseShiftLeftComposition);
    }
    if str_eq(input, ">>=") {
        return Some(JavaNodeType::BitwiseShiftRightComposition);
    }
    if str_eq(input, "&") {
        return Some(JavaNodeType::Ampersand);
    }
    if str_eq(input, "~") {
        return Some(JavaNodeType::Tilde);
    }
    None
}

fn kind_in_group_brackets(input: &str) -> (r: Option<JavaNodeType>)
    ensures
        r matches Some(t) ==> spec_kind_name(t) == input@ && spec_kind_group(t) == 15,
        r is None ==> forall|t: JavaNodeType| spec_kind_group(t) == 15 ==> spec_kind_name(t) != input@,
{
    if str_eq(input, "(") {
        return Some(JavaNodeType::LParentheses);
    }
    if str_eq(input, ")") {
        return Some(JavaNodeType::RParentheses);
    }
    if str_eq(input, "{") {
        return Some(JavaNodeType::LBrace);
    }
    if str_eq(input, "}") {
        return Some(JavaNodeType::RBrace);
    }
    if str_eq(input, "[") {
        return Some(JavaNodeType::LBracket);
    }
    if str_eq(input, "]") {
        return Some(JavaNodeType::RBracket);
    }
    if str_eq(input, "<") {
        return Some(JavaNodeType::LessThan);
    }
    if str_eq(input, ">") {
        return Some(JavaNodeType::GreaterThan);
    }
    None
}

/// The node kind whose grammar name is `name`, if any.
pub open spec fn spec_kind_of(name: Seq<char>) -> Option<JavaNodeType> {
    if name.len() == 1 {
        if name == "@"@ {
            Some(JavaNodeType::At)
        } else if name == "."@ {
            Some(JavaNodeType::Dot)
        } else if name == "="@ {
            Some(JavaNodeType::Equals)
        } else if name == ";"@ {
            Some(JavaNodeType::Semicolon)
        } else if name == ","@ {
            Some(JavaNodeType::Comma)
        } else if name == "!"@ {
            Some(JavaNodeType::ExclamationMark)
        } else if name == "?"@ {
            Some(JavaNodeType::QuestionMark)
        } else if name == ":"@ {
            Some(JavaNodeType::Colon)
        } else if name == "+"@ {
            Some(JavaNodeType::Plus)
        } else if name == "-"@ {
            Some(JavaNodeType::Minus)
        } else if name == "%"@ {
            Some(JavaNodeType::Modulus)
        } else if name == "*"@ {
            Some(JavaNodeType::Multiplication)
        } else if name == "/"@ {
            Some(JavaNodeType::Division)
        } else if name == "&"@ {
            Some(JavaNodeType::Ampersand)
        } else if name == "~"@ {
            Some(JavaNodeType::Tilde)
        } else if name == "("@ {
            Some(JavaNodeType::LParentheses)
        } else if name == ")"@ {
            Some(JavaNodeType::RParentheses)
        } else if name == "{"@ {
            Some(JavaNodeType::LBrace)
        } else if name == "}"@ {
            Some(JavaNodeType::RBrace)
        } else if name == "["@ {
            Some(JavaNodeType::LBracket)
        } else if name == "]"@ {
            Some(JavaNodeType::RBracket)
        } else if name == "<"@ {
            Some(JavaNodeType::LessThan)
        } else if name == ">"@ {
            Some(JavaNodeType::GreaterThan)
        } else {
            None
        }
    } else if name.len() == 2 {
        if name == "->"@ {
            Some(JavaNodeType::LambdaArrow)
        } else if name == "::"@ {
            Some(JavaNodeType::MethodReferenceOperator)
        } else if name == "if"@ {
            Some(JavaNodeType::If)
        } else if name == "=="@ {
            Some(JavaNodeType::Equality)
        } else if name == "!="@ {
            Some(JavaNodeType::NoEquality)
        } else if name == "||"@ {
            Some(JavaNodeType::Or)
        } else if name == "&&"@ {
            Some(JavaNodeType::And)
        } else if name == "<="@ {
            Some(JavaNodeType::LessOrEqual)
        } else if name == ">="@ {
            Some(JavaNodeType::GreaterOrEqual)
        } else if name == "|="@ {
            Some(JavaNodeType::OrComposition)
        } else if name == "&="@ {
            Some(JavaNodeType::AndComposition)
        } else if name == "do"@ {
            Some(JavaNodeType::Do)
        } else if name == "++"@ {
            Some(JavaNodeType::PlusPlus)
        } else if name == "--"@ {
            Some(JavaNodeType::MinusMinus)
        } else if name == "+="@ {
            Some(JavaNodeType::PlusComposition)
        } else if name == "-="@ {
            Some(JavaNodeType::MinusComposition)
        } else if name == "*="@ {
            Some(JavaNodeType::MultiplicationComposition)
        } else if name == "/="@ {
            Some(JavaNodeType::DivisionComposition)
        } else if name == "%="@ {
            Some(JavaNodeType::ModuleComposition)
        } else if name == "^="@ {
            Some(JavaNodeType::ExponentComposition)
        } else if name == "<<"@ {
            Some(JavaNodeType::BitwiseShiftLeft)
        } else if name == ">>"@ {
            Some(JavaNodeType::BitwiseShiftRight)
        } else {
            None
        }
    } else if name.len() == 3 {
        if name == "try"@ {
            Some(JavaNodeType::Try)
        } else if name == "..."@ {
            Some(JavaNodeType::ThreeDots)
        } else if name == "new"@ {
            Some(JavaNodeType::New)
        } else if name == "int"@ {
            Some(JavaNodeType::Int)
        } else if name == "for"@ {
            Some(JavaNodeType::For)
        } else if name == ">>>"@ {
            Some(JavaNodeType::BitwiseShiftRightUnsigned)
        } else if name == "<<="@ {
            Some(JavaNodeType::BitwiseShiftLeftComposition)
        } else if name == ">>="@ {
            Some(JavaNodeType::BitwiseShiftRightComposition)
        } else {
            None
        }
    } else if name.len() == 4 {
        if name == "true"@ {
            Some(JavaNodeType::True)
        } else if name == "enum"@ {
            Some(JavaNodeType::Enum)
        } else if name == "void"@ {
            Some(JavaNodeType::Void)
        } else if name == "long"@ {
            Some(JavaNodeType::Long)
        } else if name == "char"@ {
            Some(JavaNodeType::Char)
        } else if name == "byte"@ {
            Some(JavaNodeType::Byte)
        } else if name == "this"@ {
            Some(JavaNodeType::This)
        } else if name == "else"@ {
            Some(JavaNodeType::Else)
        } else if name == "case"@ {
            Some(JavaNodeType::Case)
        } else if name == ">>>="@ {
            Some(JavaNodeType::BitwiseShiftRightUnsignedComposition)
        } else {
            None
        }
    } else if name.len() == 5 {
        if name == "catch"@ {
            Some(JavaNodeType::Catch)
        } else if name == "throw"@ {
            Some(JavaNodeType::Throw)
        } else if name == "false"@ {
            Some(JavaNodeType::False)
        } else if name == "class"@ {
            Some(JavaNodeType::Class)
        } else if name == "super"@ {
            Some(JavaNodeType::Super)
        } else if name == "block"@ {
            Some(JavaNodeType::Block)
        } else if name == "final"@ {
            Some(JavaNodeType::Final)
        } else if name == "float"@ {
            Some(JavaNodeType::Float)
        } else if name == "short"@ {
            Some(JavaNodeType::Short)
        } else if name == "break"@ {
            Some(JavaNodeType::Break)
        } else if name == "while"@ {
            Some(JavaNodeType::While)
        } else {
            None
        }
    } else if name.len() == 6 {
        if name == "import"@ {
            Some(JavaNodeType::Import)
        } else if name == "return"@ {
            Some(JavaNodeType::Return)
        } else if name == "throws"@ {
            Some(JavaNodeType::Throws)
        } else if name == "assert"@ {
            Some(JavaNodeType::Assert)
        } else if name == "double"@ {
            Some(JavaNodeType::Double)
        } else if name == "string"@ {
            Some(JavaNodeType::String)
        } else if name == "public"@ {
            Some(JavaNodeType::Public)
        } else if name == "static"@ {
            Some(JavaNodeType::Static)
        } else if name == "switch"@ {
            Some(JavaNodeType::Switch)
        } else {
            None
        }
    } else if name.len() == 7 {
        if name == "program"@ {
            Some(JavaNodeType::Program)
        } else if name == "package"@ {
            Some(JavaNodeType::Package)
        } else if name == "finally"@ {
            Some(JavaNodeType::Finally)
        } else if name == "extends"@ {
            Some(JavaNodeType::Extends)
        } else if name == "private"@ {
            Some(JavaNodeType::Private)
        } else if name == "comment"@ {
            Some(JavaNodeType::Comment)
        } else if name == "default"@ {
            Some(JavaNodeType::Default)
        } else {
            None
        }
    } else if name.len() == 8 {
        if name == "wildcard"@ {
            Some(JavaNodeType::Wildcard)
        } else if name == "abstract"@ {
            Some(JavaNodeType::Abstract)
        } else if name == "volatile"@ {
            Some(JavaNodeType::Volatile)
        } else if name == "continue"@ {
            Some(JavaNodeType::Continue)
        } else {
            None
        }
    } else if name.len() == 9 {
        if name == "modifiers"@ {
            Some(JavaNodeType::Modifiers)
        } else if name == "enum_body"@ {
            Some(JavaNodeType::EnumBody)
        } else if name == "type_list"@ {
            Some(JavaNodeType::TypeList)
        } else if name == "interface"@ {
            Some(JavaNodeType::Interface)
        } else if name == "void_type"@ {
            Some(JavaNodeType::VoidType)
        } else if name == "protected"@ {
            Some(JavaNodeType::Protected)
        } else if name == "transient"@ {
            Some(JavaNodeType::Transient)
        } else {
            None
        }
    } else if name.len() == 10 {
        if name == "identifier"@ {
            Some(JavaNodeType::Id)
        } else if name == "instanceof"@ {
            Some(JavaNodeType::Instanceof)
        } else if name == "catch_type"@ {
            Some(JavaNodeType::CatchType)
        } else if name == "class_body"@ {
            Some(JavaNodeType::ClassBody)
        } else if name == "superclass"@ {
            Some(JavaNodeType::Superclass)
        } else if name == "implements"@ {
            Some(JavaNodeType::Implements)
        } else if name == "@interface"@ {
            Some(JavaNodeType::AtInterface)
        } else if name == "annotation"@ {
            Some(JavaNodeType::Annotation)
        } else if name == "array_type"@ {
            Some(JavaNodeType::ArrayType)
        } else if name == "dimensions"@ {
            Some(JavaNodeType::Dimensions)
        } else {
            None
        }
    } else if name.len() == 11 {
        if name == "switch_rule"@ {
            Some(JavaNodeType::SwitchRule)
        } else {
            None
        }
    } else if name.len() == 12 {
        if name == "field_access"@ {
            Some(JavaNodeType::FieldAccess)
        } else if name == "catch_clause"@ {
            Some(JavaNodeType::CatchClause)
        } else if name == "null_literal"@ {
            Some(JavaNodeType::NullLiteral)
        } else if name == "synchronized"@ {
            Some(JavaNodeType::Synchronized)
        } else if name == "generic_type"@ {
            Some(JavaNodeType::GenericType)
        } else if name == "boolean_type"@ {
            Some(JavaNodeType::Boolean)
        } else if name == "line_comment"@ {
            Some(JavaNodeType::LineComment)
        } else if name == "if_statement"@ {
            Some(JavaNodeType::IfStatement)
        } else if name == "switch_block"@ {
            Some(JavaNodeType::SwitchBlock)
        } else if name == "switch_label"@ {
            Some(JavaNodeType::SwitchLabel)
        } else if name == "do_statement"@ {
            Some(JavaNodeType::DoStatement)
        } else {
            None
        }
    } else if name.len() == 13 {
        if name == "argument_list"@ {
            Some(JavaNodeType::ArgumentList)
        } else if name == "try_statement"@ {
            Some(JavaNodeType::TryStatement)
        } else if name == "class_literal"@ {
            Some(JavaNodeType::ClassLiteral)
        } else if name == "enum_constant"@ {
            Some(JavaNodeType::EnumConstant)
        } else if name == "integral_type"@ {
            Some(JavaNodeType::IntegralType)
        } else if name == "block_comment"@ {
            Some(JavaNodeType::BlockComment)
        } else if name == "for_statement"@ {
            Some(JavaNodeType::ForStatement)
        } else {
            None
        }
    } else if name.len() == 14 {
        if name == "string_literal"@ {
            Some(JavaNodeType::StringLiteral)
        } else if name == "finally_clause"@ {
            Some(JavaNodeType::FinallyClause)
        } else if name == "interface_body"@ {
            Some(JavaNodeType::InterfaceBody)
        } else if name == "type_parameter"@ {
            Some(JavaNodeType::TypeParameter)
        } else if name == "type_arguments"@ {
            Some(JavaNodeType::TypeArguments)
        } else {
            None
        }
    } else if name.len() == 15 {
        if name == "cast_expression"@ {
            Some(JavaNodeType::CastExpression)
        } else if name == "throw_statement"@ {
            Some(JavaNodeType::ThrowStatement)
        } else if name == "type_parameters"@ {
            Some(JavaNodeType::TypeParameters)
        } else if name == "type_identifier"@ {
            Some(JavaNodeType::TypeIdentifier)
        } else if name == "break_statement"@ {
            Some(JavaNodeType::BreakStatement)
        } else if name == "while_statement"@ {
            Some(JavaNodeType::WhileStatement)
        } else {
            None
        }
    } else if name.len() == 16 {
        if name == "return_statement"@ {
            Some(JavaNodeType::ReturnStatement)
        } else if name == "file_overwriting"@ {
            Some(JavaNodeType::FileOverwriting)
        } else if name == "assert_statement"@ {
            Some(JavaNodeType::AssertStatement)
        } else if name == "unary_expression"@ {
            Some(JavaNodeType::UnaryExpression)
        } else if name == "constructor_body"@ {
            Some(JavaNodeType::ConstructorBody)
        } else if name == "enum_declaration"@ {
            Some(JavaNodeType::EnumDeclaration)
        } else if name == "super_interfaces"@ {
            Some(JavaNodeType::SuperInterfaces)
        } else if name == "formal_parameter"@ {
            Some(JavaNodeType::FormalParam)
        } else if name == "method_reference"@ {
            Some(JavaNodeType::MethodReference)
        } else if name == "spread_parameter"@ {
            Some(JavaNodeType::SpreadParameter)
        } else if name == "switch_statement"@ {
            Some(JavaNodeType::SwitchStatement)
        } else {
            None
        }
    } else if name.len() == 17 {
        if name == "scoped_identifier"@ {
            Some(JavaNodeType::ScopedIdentifier)
        } else if name == "method_invocation"@ {
            Some(JavaNodeType::MethodInvocation)
        } else if name == "binary_expression"@ {
            Some(JavaNodeType::BinaryExpression)
        } else if name == "lambda_expression"@ {
            Some(JavaNodeType::LambdaExpression)
        } else if name == "field_declaration"@ {
            Some(JavaNodeType::FieldDeclaration)
        } else if name == "character_literal"@ {
            Some(JavaNodeType::CharacterLiteral)
        } else if name == "array_initializer"@ {
            Some(JavaNodeType::ArrayInitializer)
        } else if name == "class_declaration"@ {
            Some(JavaNodeType::ClassDecl)
        } else if name == "marker_annotation"@ {
            Some(JavaNodeType::MarkerAnnotation)
        } else if name == "formal_parameters"@ {
            Some(JavaNodeType::FormalParams)
        } else if name == "spread_parameters"@ {
            Some(JavaNodeType::SpreadParameters)
        } else if name == "switch_expression"@ {
            Some(JavaNodeType::SwitchExpression)
        } else if name == "update_expression"@ {
            Some(JavaNodeType::UpdateExpression)
        } else {
            None
        }
    } else if name.len() == 18 {
        if name == "import_declaration"@ {
            Some(JavaNodeType::ImportDecl)
        } else if name == "ternary_expression"@ {
            Some(JavaNodeType::TernaryExpression)
        } else if name == "record_declaration"@ {
            Some(JavaNodeType::RecordDeclaration)
        } else if name == "element_value_pair"@ {
            Some(JavaNodeType::ElementValuePair)
        } else if name == "method_declaration"@ {
            Some(JavaNodeType::MethodDecl)
        } else if name == "continue_statement"@ {
            Some(JavaNodeType::ContinueStatement)
        } else {
            None
        }
    } else if name.len() == 19 {
        if name == "package_declaration"@ {
            Some(JavaNodeType::PackageDecl)
        } else if name == "floating_point_type"@ {
            Some(JavaNodeType::FloatingPointType)
        } else if name == "interface_type_list"@ {
            Some(JavaNodeType::InterfaceTypeList)
        } else if name == "variable_declarator"@ {
            Some(JavaNodeType::VariableDeclarator)
        } else {
            None
        }
    } else if name.len() == 20 {
        if name == "expression_statement"@ {
            Some(JavaNodeType::StatementExpr)
        } else if name == "annotation_type_body"@ {
            Some(JavaNodeType::AnnotationTypeBody)
        } else {
            None
        }
    } else if name.len() == 21 {
        if name == "assignment_expression"@ {
            Some(JavaNodeType::AssignmentExpression)
        } else if name == "instanceof_expression"@ {
            Some(JavaNodeType::InstanceofExpression)
        } else if name == "interface_declaration"@ {
            Some(JavaNodeType::InterfaceDeclaration)
        } else {
            None
        }
    } else if name.len() == 22 {
        if name == "catch_formal_parameter"@ {
            Some(JavaNodeType::CatchFormalParameter)
        } else if name == "scoped_type_identifier"@ {
            Some(JavaNodeType::ScopedTypeIdentifier)
        } else if name == "enhanced_for_statement"@ {
            Some(JavaNodeType::EnhancedForStatement)
        } else {
            None
        }
    } else if name.len() == 23 {
        if name == "decimal_integer_literal"@ {
            Some(JavaNodeType::DecimalIntegerLiteral)
        } else if name == "constructor_declaration"@ {
            Some(JavaNodeType::ConstructorDeclaration)
        } else {
            None
        }
    } else if name.len() == 24 {
        if name == "parenthesized_expression"@ {
            Some(JavaNodeType::ParenthesizedExpr)
        } else if name == "annotation_argument_list"@ {
            Some(JavaNodeType::AnnotationArgumentList)
        } else {
            None
        }
    } else if name.len() == 26 {
        if name == "object_creation_expression"@ {
            Some(JavaNodeType::ObjectCreationExpression)
        } else if name == "local_variable_declaration"@ {
            Some(JavaNodeType::LocalVarDecl)
        } else {
            None
        }
    } else if name.len() == 27 {
        if name == "annotation_type_declaration"@ {
            Some(JavaNodeType::AnnotationTypeDeclaration)
        } else {
            None
        }
    } else if name.len() == 28 {
        if name == "switch_block_statement_group"@ {
            Some(JavaNodeType::SwitchBlockStatementGroup)
        } else {
            None
        }
    } else if name.len() == 30 {
        if name == "decimal_floating_point_literal"@ {
            Some(JavaNodeType::DecimalFloatingPointLiteral)
        } else {
            None
        }
    } else if name.len() == 31 {
        if name == "explicit_constructor_invocation"@ {
            Some(JavaNodeType::ExplicitConstructorInvocation)
        } else {
            None
        }
    } else {
        None
    }
}

/// Each node kind is the one that its grammar name names.
pub proof fn lemma_kind_of_name(t: JavaNodeType)
    ensures
        spec_kind_of(spec_kind_name(t)) == Some(t),
{
    match t {
        JavaNodeType::At => {
            reveal_strlit("@");
        },
        JavaNodeType::Dot => {
            reveal_strlit(".");
            reveal_strlit("@");
            assert("."@[0] != "@"@[0]);
        },
        JavaNodeType::Equals => {
            reveal_strlit("=");
            reveal_strlit("@");
            assert("="@[0] != "@"@[0]);
            reveal_strlit(".");
            assert("="@[0] != "."@[0]);
        },
        JavaNodeType::Semicolon => {
            reveal_strlit(";");
            reveal_strlit("@");
            assert(";"@[0] != "@"@[0]);
            reveal_strlit(".");
            assert(";"@[0] != "."@[0]);
            reveal_strlit("=");
            assert(";"@[0] != "="@[0]);
        },
        JavaNodeType::Comma => {
            reveal_strlit(",");
            reveal_strlit("@");
            assert(","@[0] != "@"@[0]);
            reveal_strlit(".");
            assert(","@[0] != "."@[0]);
            reveal_strlit("=");
            assert(","@[0] != "="@[0]);
            reveal_strlit(";");
            assert(","@[0] != ";"@[0]);
        },
        JavaNodeType::ExclamationMark => {
            reveal_strlit("!");
            reveal_strlit("@");
            assert("!"@[0] != "@"@[0]);
            reveal_strlit(".");
            assert("!"@[0] != "."@[0]);
            reveal_strlit("=");
            assert("!"@[0] != "="@[0]);
            reveal_strlit(";");
            assert("!"@[0] != ";"@[0]);
            reveal_strlit(",");
            assert("!"@[0] != ","@[0]);
        },
        JavaNodeType::QuestionMark => {
            reveal_strlit("?");
            reveal_strlit("@");
            assert("?"@[0] != "@"@[0]);
            reveal_strlit(".");
            assert("?"@[0] != "."@[0]);
            reveal_strlit("=");
            assert("?"@[0] != "="@[0]);
            reveal_strlit(";");
            assert("?"@[0] != ";"@[0]);
            reveal_strlit(",");
            assert("?"@[0] != ","@[0]);
            reveal_strlit("!");
            assert("?"@[0] != "!"@[0]);
        },
        JavaNodeType::Colon => {
            reveal_strlit(":");
            reveal_strlit("@");
            assert(":"@[0] != "@"@[0]);
            reveal_strlit(".");
            assert(":"@[0] != "."@[0]);
            reveal_strlit("=");
            assert(":"@[0] != "="@[0]);
            reveal_strlit(";");
            assert(":"@[0] != ";"@[0]);
            reveal_strlit(",");
            assert(":"@[0] != ","@[0]);
            reveal_strlit("!");
            assert(":"@[0] != "!"@[0]);
            reveal_strlit("?");
            assert(":"@[0] != "?"@[0]);
        },
        JavaNodeType::Plus => {
            reveal_strlit("+");
            reveal_strlit("@");
            assert("+"@[0] != "@"@[0]);
            reveal_strlit(".");
            assert("+"@[0] != "."@[0]);
            reveal_strlit("=");
            assert("+"@[0] != "="@[0]);
            reveal_strlit(";");
            assert("+"@[0] != ";"@[0]);
            reveal_strlit(",");
            assert("+"@[0] != ","@[0]);
            reveal_strlit("!");
            assert("+"@[0] != "!"@[0]);
            reveal_strlit("?");
            assert("+"@[0] != "?"@[0]);
            reveal_strlit(":");
            assert("+"@[0] != ":"@[0]);
        },
        JavaNodeType::Minus => {
            reveal_strlit("-");
            reveal_strlit("@");
            assert("-"@[0] != "@"@[0]);
            reveal_strlit(".");
            assert("-"@[0] != "."@[0]);
            reveal_strlit("=");
            assert("-"@[0] != "="@[0]);
            reveal_strlit(";");
            assert("-"@[0] != ";"@[0]);
            reveal_strlit(",");
            assert("-"@[0] != ","@[0]);
            reveal_strlit("!");
            assert("-"@[0] != "!"@[0]);
            reveal_strlit("?");
            assert("-"@[0] != "?"@[0]);
            reveal_strlit(":");
            assert("-"@[0] != ":"@[0]);
            reveal_strlit("+");
            assert("-"@[0] != "+"@[0]);
        },
        JavaNodeType::Modulus => {
            reveal_strlit("%");
            reveal_strlit("@");
            assert("%"@[0] != "@"@[0]);
            reveal_strlit(".");
            assert("%"@[0] != "."@[0]);
            reveal_strlit("=");
            assert("%"@[0] != "="@[0]);
            reveal_strlit(";");
            assert("%"@[0] != ";"@[0]);
            reveal_strlit(",");
            assert("%"@[0] != ","@[0]);
            reveal_strlit("!");
            assert("%"@[0] != "!"@[0]);
            reveal_strlit("?");
            assert("%"@[0] != "?"@[0]);
            reveal_strlit(":");
            assert("%"@[0] != ":"@[0]);
            reveal_strlit("+");
            assert("%"@[0] != "+"@[0]);
            reveal_strlit("-");
            assert("%"@[0] != "-"@[0]);
        },
        JavaNodeType::Multiplication => {
            reveal_strlit("*");
            reveal_strlit("@");
            assert("*"@[0] != "@"@[0]);
            reveal_strlit(".");
            assert("*"@[0] != "."@[0]);
            reveal_strlit("=");
            assert("*"@[0] != "="@[0]);
            reveal_strlit(";");
            assert("*"@[0] != ";"@[0]);
            reveal_strlit(",");
            assert("*"@[0] != ","@[0]);
            reveal_strlit("!");
            assert("*"@[0] != "!"@[0]);
            reveal_strlit("?");
            assert("*"@[0] != "?"@[0]);
            reveal_strlit(":");
            assert("*"@[0] != ":"@[0]);
            reveal_strlit("+");
            assert("*"@[0] != "+"@[0]);
            reveal_strlit("-");
            assert("*"@[0] != "-"@[0]);
            reveal_strlit("%");
            assert("*"@[0] != "%"@[0]);
        },
        JavaNodeType::Division => {
            reveal_strlit("/");
            reveal_strlit("@");
            assert("/"@[0] != "@"@[0]);
            reveal_strlit(".");
            assert("/"@[0] != "."@[0]);
            reveal_strlit("=");
            assert("/"@[0] != "="@[0]);
            reveal_strlit(";");
            assert("/"@[0] != ";"@[0]);
            reveal_strlit(",");
            assert("/"@[0] != ","@[0]);
            reveal_strlit("!");
            assert("/"@[0] != "!"@[0]);
            reveal_strlit("?");
            assert("/"@[0] != "?"@[0]);
            reveal_strlit(":");
            assert("/"@[0] != ":"@[0]);
            reveal_strlit("+");
            assert("/"@[0] != "+"@[0]);
            reveal_strlit("-");
            assert("/"@[0] != "-"@[0]);
            reveal_strlit("%");
            assert("/"@[0] != "%"@[0]);
            reveal_strlit("*");
            assert("/"@[0] != "*"@[0]);
        },
        JavaNodeType::Ampersand => {
            reveal_strlit("&");
            reveal_strlit("@");
            assert("&"@[0] != "@"@[0]);
            reveal_strlit(".");
            assert("&"@[0] != "."@[0]);
            reveal_strlit("=");
            assert("&"@[0] != "="@[0]);
            reveal_strlit(";");
            assert("&"@[0] != ";"@[0]);
            reveal_strlit(",");
            assert("&"@[0] != ","@[0]);
            reveal_strlit("!");
            assert("&"@[0] != "!"@[0]);
            reveal_strlit("?");
            assert("&"@[0] != "?"@[0]);
            reveal_strlit(":");
            assert("&"@[0] != ":"@[0]);
            reveal_strlit("+");
            assert("&"@[0] != "+"@[0]);
            reveal_strlit("-");
            assert("&"@[0] != "-"@[0]);
            reveal_strlit("%");
            assert("&"@[0] != "%"@[0]);
            reveal_strlit("*");
            assert("&"@[0] != "*"@[0]);
            reveal_strlit("/");
            assert("&"@[0] != "/"@[0]);
        },
        JavaNodeType::Tilde => {
            reveal_strlit("~");
            reveal_strlit("@");
            assert("~"@[0] != "@"@[0]);
            reveal_strlit(".");
            assert("~"@[0] != "."@[0]);
            reveal_strlit("=");
            assert("~"@[0] != "="@[0]);
            reveal_strlit(";");
            assert("~"@[0] != ";"@[0]);
            reveal_strlit(",");
            assert("~"@[0] != ","@[0]);
            reveal_strlit("!");
            assert("~"@[0] != "!"@[0]);
            reveal_strlit("?");
            assert("~"@[0] != "?"@[0]);
            reveal_strlit(":");
            assert("~"@[0] != ":"@[0]);
            reveal_strlit("+");
            assert("~"@[0] != "+"@[0]);
            reveal_strlit("-");
            assert("~"@[0] != "-"@[0]);
            reveal_strlit("%");
            assert("~"@[0] != "%"@[0]);
            reveal_strlit("*");
            assert("~"@[0] != "*"@[0]);
            reveal_strlit("/");
            assert("~"@[0] != "/"@[0]);
            reveal_strlit("&");
            assert("~"@[0] != "&"@[0]);
        },
        JavaNodeType::LParentheses => {
            reveal_strlit("(");
            reveal_strlit("@");
            assert("("@[0] != "@"@[0]);
            reveal_strlit(".");
            assert("("@[0] != "."@[0]);
            reveal_strlit("=");
            assert("("@[0] != "="@[0]);
            reveal_strlit(";");
            assert("("@[0] != ";"@[0]);
            reveal_strlit(",");
            assert("("@[0] != ","@[0]);
            reveal_strlit("!");
            assert("("@[0] != "!"@[0]);
            reveal_strlit("?");
            assert("("@[0] != "?"@[0]);
            reveal_strlit(":");
            assert("("@[0] != ":"@[0]);
            reveal_strlit("+");
            assert("("@[0] != "+"@[0]);
            reveal_strlit("-");
            assert("("@[0] != "-"@[0]);
            reveal_strlit("%");
            assert("("@[0] != "%"@[0]);
            reveal_strlit("*");
            assert("("@[0] != "*"@[0]);
            reveal_strlit("/");
            assert("("@[0] != "/"@[0]);
            reveal_strlit("&");
            assert("("@[0] != "&"@[0]);
            reveal_strlit("~");
            assert("("@[0] != "~"@[0]);
        },
        JavaNodeType::RParentheses => {
            reveal_strlit(")");
            reveal_strlit("@");
            assert(")"@[0] != "@"@[0]);
            reveal_strlit(".");
            assert(")"@[0] != "."@[0]);
            reveal_strlit("=");
            assert(")"@[0] != "="@[0]);
            reveal_strlit(";");
            assert(")"@[0] != ";"@[0]);
            reveal_strlit(",");
            assert(")"@[0] != ","@[0]);
            reveal_strlit("!");
            assert(")"@[0] != "!"@[0]);
            reveal_strlit("?");
            assert(")"@[0] != "?"@[0]);
            reveal_strlit(":");
            assert(")"@[0] != ":"@[0]);
            reveal_strlit("+");
            assert(")"@[0] != "+"@[0]);
            reveal_strlit("-");
            assert(")"@[0] != "-"@[0]);
            reveal_strlit("%");
            assert(")"@[0] != "%"@[0]);
            reveal_strlit("*");
            assert(")"@[0] != "*"@[0]);
            reveal_strlit("/");
            assert(")"@[0] != "/"@[0]);
            reveal_strlit("&");
            assert(")"@[0] != "&"@[0]);
            reveal_strlit("~");
            assert(")"@[0] != "~"@[0]);
            reveal_strlit("(");
            assert(")"@[0] != "("@[0]);
        },
        JavaNodeType::LBrace => {
            reveal_strlit("{");
            reveal_strlit("@");
            assert("{"@[0] != "@"@[0]);
            reveal_strlit(".");
            assert("{"@[0] != "."@[0]);
            reveal_strlit("=");
            assert("{"@[0] != "="@[0]);
            reveal_strlit(";");
            assert("{"@[0] != ";"@[0]);
            reveal_strlit(",");
            assert("{"@[0] != ","@[0]);
            reveal_strlit("!");
            assert("{"@[0] != "!"@[0]);
            reveal_strlit("?");
            assert("{"@[0] != "?"@[0]);
            reveal_strlit(":");
            assert("{"@[0] != ":"@[0]);
            reveal_strlit("+");
            assert("{"@[0] != "+"@[0]);
            reveal_strlit("-");
            assert("{"@[0] != "-"@[0]);
            reveal_strlit("%");
            assert("{"@[0] != "%"@[0]);
            reveal_strlit("*");
            assert("{"@[0] != "*"@[0]);
            reveal_strlit("/");
            assert("{"@[0] != "/"@[0]);
            reveal_strlit("&");
            assert("{"@[0] != "&"@[0]);
            reveal_strlit("~");
            assert("{"@[0] != "~"@[0]);
            reveal_strlit("(");
            assert("{"@[0] != "("@[0]);
            reveal_strlit(")");
            assert("{"@[0] != ")"@[0]);
        },
        JavaNodeType::RBrace => {
            reveal_strlit("}");
            reveal_strlit("@");
            assert("}"@[0] != "@"@[0]);
            reveal_strlit(".");
            assert("}"@[0] != "."@[0]);
            reveal_strlit("=");
            assert("}"@[0] != "="@[0]);
            reveal_strlit(";");
            assert("}"@[0] != ";"@[0]);
            reveal_strlit(",");
            assert("}"@[0] != ","@[0]);
            reveal_strlit("!");
            assert("}"@[0] != "!"@[0]);
            reveal_strlit("?");
            assert("}"@[0] != "?"@[0]);
            reveal_strlit(":");
            assert("}"@[0] != ":"@[0]);
            reveal_strlit("+");
            assert("}"@[0] != "+"@[0]);
            reveal_strlit("-");
            assert("}"@[0] != "-"@[0]);
            reveal_strlit("%");
            assert("}"@[0] != "%"@[0]);
            reveal_strlit("*");
            assert("}"@[0] != "*"@[0]);
            reveal_strlit("/");
            assert("}"@[0] != "/"@[0]);
            reveal_strlit("&");
            assert("}"@[0] != "&"@[0]);
            reveal_strlit("~");
            assert("}"@[0] != "~"@[0]);
            reveal_strlit("(");
            assert("}"@[0] != "("@[0]);
            reveal_strlit(")");
            assert("}"@[0] != ")"@[0]);
            reveal_strlit("{");
            assert("}"@[0] != "{"@[0]);
        },
        JavaNodeType::LBracket => {
            reveal_strlit("[");
            reveal_strlit("@");
            assert("["@[0] != "@"@[0]);
            reveal_strlit(".");
            assert("["@[0] != "."@[0]);
            reveal_strlit("=");
            assert("["@[0] != "="@[0]);
            reveal_strlit(";");
            assert("["@[0] != ";"@[0]);
            reveal_strlit(",");
            assert("["@[0] != ","@[0]);
            reveal_strlit("!");
            assert("["@[0] != "!"@[0]);
            reveal_strlit("?");
            assert("["@[0] != "?"@[0]);
            reveal_strlit(":");
            assert("["@[0] != ":"@[0]);
            reveal_strlit("+");
            assert("["@[0] != "+"@[0]);
            reveal_strlit("-");
            assert("["@[0] != "-"@[0]);
            reveal_strlit("%");
            assert("["@[0] != "%"@[0]);
            reveal_strlit("*");
            assert("["@[0] != "*"@[0]);
            reveal_strlit("/");
            assert("["@[0] != "/"@[0]);
            reveal_strlit("&");
            assert("["@[0] != "&"@[0]);
            reveal_strlit("~");
            assert("["@[0] != "~"@[0]);
            reveal_strlit("(");
            assert("["@[0] != "("@[0]);
            reveal_strlit(")");
            assert("["@[0] != ")"@[0]);
            reveal_strlit("{");
            assert("["@[0] != "{"@[0]);
            reveal_strlit("}");
            assert("["@[0] != "}"@[0]);
        },
        JavaNodeType::RBracket => {
            reveal_strlit("]");
            reveal_strlit("@");
            assert("]"@[0] != "@"@[0]);
            reveal_strlit(".");
            assert("]"@[0] != "."@[0]);
            reveal_strlit("=");
            assert("]"@[0] != "="@[0]);
            reveal_strlit(";");
            assert("]"@[0] != ";"@[0]);
            reveal_strlit(",");
            assert("]"@[0] != ","@[0]);
            reveal_strlit("!");
            assert("]"@[0] != "!"@[0]);
            reveal_strlit("?");
            assert("]"@[0] != "?"@[0]);
            reveal_strlit(":");
            assert("]"@[0] != ":"@[0]);
            reveal_strlit("+");
            assert("]"@[0] != "+"@[0]);
            reveal_strlit("-");
            assert("]"@[0] != "-"@[0]);
            reveal_strlit("%");
            assert("]"@[0] != "%"@[0]);
            reveal_strlit("*");
            assert("]"@[0] != "*"@[0]);
            reveal_strlit("/");
            assert("]"@[0] != "/"@[0]);
            reveal_strlit("&");
            assert("]"@[0] != "&"@[0]);
            reveal_strlit("~");
            assert("]"@[0] != "~"@[0]);
            reveal_strlit("(");
            assert("]"@[0] != "("@[0]);
            reveal_strlit(")");
            assert("]"@[0] != ")"@[0]);
            reveal_strlit("{");
            assert("]"@[0] != "{"@[0]);
            reveal_strlit("}");
            assert("]"@[0] != "}"@[0]);
            reveal_strlit("[");
            assert("]"@[0] != "["@[0]);
        },
        JavaNodeType::LessThan => {
            reveal_strlit("<");
            reveal_strlit("@");
            assert("<"@[0] != "@"@[0]);
            reveal_strlit(".");
            assert("<"@[0] != "."@[0]);
            reveal_strlit("=");
            assert("<"@[0] != "="@[0]);
            reveal_strlit(";");
            assert("<"@[0] != ";"@[0]);
            reveal_strlit(",");
            assert("<"@[0] != ","@[0]);
            reveal_strlit("!");
            assert("<"@[0] != "!"@[0]);
            reveal_strlit("?");
            assert("<"@[0] != "?"@[0]);
            reveal_strlit(":");
            assert("<"@[0] != ":"@[0]);
            reveal_strlit("+");
            assert("<"@[0] != "+"@[0]);
            reveal_strlit("-");
            assert("<"@[0] != "-"@[0]);
            reveal_strlit("%");
            assert("<"@[0] != "%"@[0]);
            reveal_strlit("*");
            assert("<"@[0] != "*"@[0]);
            reveal_strlit("/");
            assert("<"@[0] != "/"@[0]);
            reveal_strlit("&");
            assert("<"@[0] != "&"@[0]);
            reveal_strlit("~");
            assert("<"@[0] != "~"@[0]);
            reveal_strlit("(");
            assert("<"@[0] != "("@[0]);
            reveal_strlit(")");
            assert("<"@[0] != ")"@[0]);
            reveal_strlit("{");
            assert("<"@[0] != "{"@[0]);
            reveal_strlit("}");
            assert("<"@[0] != "}"@[0]);
            reveal_strlit("[");
            assert("<"@[0] != "["@[0]);
            reveal_strlit("]");
            assert("<"@[0] != "]"@[0]);
        },
        JavaNodeType::GreaterThan => {
            reveal_strlit(">");
            reveal_strlit("@");
            assert(">"@[0] != "@"@[0]);
            reveal_strlit(".");
            assert(">"@[0] != "."@[0]);
            reveal_strlit("=");
            assert(">"@[0] != "="@[0]);
            reveal_strlit(";");
            assert(">"@[0] != ";"@[0]);
            reveal_strlit(",");
            assert(">"@[0] != ","@[0]);
            reveal_strlit("!");
            assert(">"@[0] != "!"@[0]);
            reveal_strlit("?");
            assert(">"@[0] != "?"@[0]);
            reveal_strlit(":");
            assert(">"@[0] != ":"@[0]);
            reveal_strlit("+");
            assert(">"@[0] != "+"@[0]);
            reveal_strlit("-");
            assert(">"@[0] != "-"@[0]);
            reveal_strlit("%");
            assert(">"@[0] != "%"@[0]);
            reveal_strlit("*");
            assert(">"@[0] != "*"@[0]);
            reveal_strlit("/");
            assert(">"@[0] != "/"@[0]);
            reveal_strlit("&");
            assert(">"@[0] != "&"@[0]);
            reveal_strlit("~");
            assert(">"@[0] != "~"@[0]);
            reveal_strlit("(");
            assert(">"@[0] != "("@[0]);
            reveal_strlit(")");
            assert(">"@[0] != ")"@[0]);
            reveal_strlit("{");
            assert(">"@[0] != "{"@[0]);
            reveal_strlit("}");
            assert(">"@[0] != "}"@[0]);
            reveal_strlit("[");
            assert(">"@[0] != "["@[0]);
            reveal_strlit("]");
            assert(">"@[0] != "]"@[0]);
            reveal_strlit("<");
            assert(">"@[0] != "<"@[0]);
        },
        JavaNodeType::LambdaArrow => {
            reveal_strlit("->");
        },
        JavaNodeType::MethodReferenceOperator => {
            reveal_strlit("::");
            reveal_strlit("->");
            assert("::"@[0] != "->"@[0]);
        },
        JavaNodeType::If => {
            reveal_strlit("if");
            reveal_strlit("->");
            assert("if"@[0] != "->"@[0]);
            reveal_strlit("::");
            assert("if"@[0] != "::"@[0]);
        },
        JavaNodeType::Equality => {
            reveal_strlit("==");
            reveal_strlit("->");
            assert("=="@[0] != "->"@[0]);
            reveal_strlit("::");
            assert("=="@[0] != "::"@[0]);
            reveal_strlit("if");
            assert("=="@[0] != "if"@[0]);
        },
        JavaNodeType::NoEquality => {
            reveal_strlit("!=");
            reveal_strlit("->");
            assert("!="@[0] != "->"@[0]);
            reveal_strlit("::");
            assert("!="@[0] != "::"@[0]);
            reveal_strlit("if");
            assert("!="@[0] != "if"@[0]);
            reveal_strlit("==");
            assert("!="@[0] != "=="@[0]);
        },
        JavaNodeType::Or => {
            reveal_strlit("||");
            reveal_strlit("->");
            assert("||"@[0] != "->"@[0]);
            reveal_strlit("::");
            assert("||"@[0] != "::"@[0]);
            reveal_strlit("if");
            assert("||"@[0] != "if"@[0]);
            reveal_strlit("==");
            assert("||"@[0] != "=="@[0]);
            reveal_strlit("!=");
            assert("||"@[0] != "!="@[0]);
        },
        JavaNodeType::And => {
            reveal_strlit("&&");
            reveal_strlit("->");
            assert("&&"@[0] != "->"@[0]);
            reveal_strlit("::");
            assert("&&"@[0] != "::"@[0]);
            reveal_strlit("if");
            assert("&&"@[0] != "if"@[0]);
            reveal_strlit("==");
            assert("&&"@[0] != "=="@[0]);
            reveal_strlit("!=");
            assert("&&"@[0] != "!="@[0]);
            reveal_strlit("||");
            assert("&&"@[0] != "||"@[0]);
        },
        JavaNodeType::LessOrEqual => {
            reveal_strlit("<=");
            reveal_strlit("->");
            assert("<="@[0] != "->"@[0]);
            reveal_strlit("::");
            assert("<="@[0] != "::"@[0]);
            reveal_strlit("if");
            assert("<="@[0] != "if"@[0]);
            reveal_strlit("==");
            assert("<="@[0] != "=="@[0]);
            reveal_strlit("!=");
            assert("<="@[0] != "!="@[0]);
            reveal_strlit("||");
            assert("<="@[0] != "||"@[0]);
            reveal_strlit("&&");
            assert("<="@[0] != "&&"@[0]);
        },
        JavaNodeType::GreaterOrEqual => {
            reveal_strlit(">=");
            reveal_strlit("->");
            assert(">="@[0] != "->"@[0]);
            reveal_strlit("::");
            assert(">="@[0] != "::"@[0]);
            reveal_strlit("if");
            assert(">="@[0] != "if"@[0]);
            reveal_strlit("==");
            assert(">="@[0] != "=="@[0]);
            reveal_strlit("!=");
            assert(">="@[0] != "!="@[0]);
            reveal_strlit("||");
            assert(">="@[0] != "||"@[0]);
            reveal_strlit("&&");
            assert(">="@[0] != "&&"@[0]);
            reveal_strlit("<=");
            assert(">="@[0] != "<="@[0]);
        },
        JavaNodeType::OrComposition => {
            reveal_strlit("|=");
            reveal_strlit("->");
            assert("|="@[0] != "->"@[0]);
            reveal_strlit("::");
            assert("|="@[0] != "::"@[0]);
            reveal_strlit("if");
            assert("|="@[0] != "if"@[0]);
            reveal_strlit("==");
            assert("|="@[0] != "=="@[0]);
            reveal_strlit("!=");
            assert("|="@[0] != "!="@[0]);
            reveal_strlit("||");
            assert("|="@[1] != "||"@[1]);
            reveal_strlit("&&");
            assert("|="@[0] != "&&"@[0]);
            reveal_strlit("<=");
            assert("|="@[0] != "<="@[0]);
            reveal_strlit(">=");
            assert("|="@[0] != ">="@[0]);
        },
        JavaNodeType::AndComposition => {
            reveal_strlit("&=");
            reveal_strlit("->");
            assert("&="@[0] != "->"@[0]);
            reveal_strlit("::");
            assert("&="@[0] != "::"@[0]);
            reveal_strlit("if");
            assert("&="@[0] != "if"@[0]);
            reveal_strlit("==");
            assert("&="@[0] != "=="@[0]);
            reveal_strlit("!=");
            assert("&="@[0] != "!="@[0]);
            reveal_strlit("||");
            assert("&="@[0] != "||"@[0]);
            reveal_strlit("&&");
            assert("&="@[1] != "&&"@[1]);
            reveal_strlit("<=");
            assert("&="@[0] != "<="@[0]);
            reveal_strlit(">=");
            assert("&="@[0] != ">="@[0]);
            reveal_strlit("|=");
            assert("&="@[0] != "|="@[0]);
        },
        JavaNodeType::Do => {
            reveal_strlit("do");
            reveal_strlit("->");
            assert("do"@[0] != "->"@[0]);
            reveal_strlit("::");
            assert("do"@[0] != "::"@[0]);
            reveal_strlit("if");
            assert("do"@[0] != "if"@[0]);
            reveal_strlit("==");
            assert("do"@[0] != "=="@[0]);
            reveal_strlit("!=");
            assert("do"@[0] != "!="@[0]);
            reveal_strlit("||");
            assert("do"@[0] != "||"@[0]);
            reveal_strlit("&&");
            assert("do"@[0] != "&&"@[0]);
            reveal_strlit("<=");
            assert("do"@[0] != "<="@[0]);
            reveal_strlit(">=");
            assert("do"@[0] != ">="@[0]);
            reveal_strlit("|=");
            assert("do"@[0] != "|="@[0]);
            reveal_strlit("&=");
            assert("do"@[0] != "&="@[0]);
        },
        JavaNodeType::PlusPlus => {
            reveal_strlit("++");
            reveal_strlit("->");
            assert("++"@[0] != "->"@[0]);
            reveal_strlit("::");
            assert("++"@[0] != "::"@[0]);
            reveal_strlit("if");
            assert("++"@[0] != "if"@[0]);
            reveal_strlit("==");
            assert("++"@[0] != "=="@[0]);
            reveal_strlit("!=");
            assert("++"@[0] != "!="@[0]);
            reveal_strlit("||");
            assert("++"@[0] != "||"@[0]);
            reveal_strlit("&&");
            assert("++"@[0] != "&&"@[0]);
            reveal_strlit("<=");
            assert("++"@[0] != "<="@[0]);
            reveal_strlit(">=");
            assert("++"@[0] != ">="@[0]);
            reveal_strlit("|=");
            assert("++"@[0] != "|="@[0]);
            reveal_strlit("&=");
            assert("++"@[0] != "&="@[0]);
            reveal_strlit("do");
            assert("++"@[0] != "do"@[0]);
        },
        JavaNodeType::MinusMinus => {
            reveal_strlit("--");
            reveal_strlit("->");
            assert("--"@[1] != "->"@[1]);
            reveal_strlit("::");
            assert("--"@[0] != "::"@[0]);
            reveal_strlit("if");
            assert("--"@[0] != "if"@[0]);
            reveal_strlit("==");
            assert("--"@[0] != "=="@[0]);
            reveal_strlit("!=");
            assert("--"@[0] != "!="@[0]);
            reveal_strlit("||");
            assert("--"@[0] != "||"@[0]);
            reveal_strlit("&&");
            assert("--"@[0] != "&&"@[0]);
            reveal_strlit("<=");
            assert("--"@[0] != "<="@[0]);
            reveal_strlit(">=");
            assert("--"@[0] != ">="@[0]);
            reveal_strlit("|=");
            assert("--"@[0] != "|="@[0]);
            reveal_strlit("&=");
            assert("--"@[0] != "&="@[0]);
            reveal_strlit("do");
            assert("--"@[0] != "do"@[0]);
            reveal_strlit("++");
            assert("--"@[0] != "++"@[0]);
        },
        JavaNodeType::PlusComposition => {
            reveal_strlit("+=");
            reveal_strlit("->");
            assert("+="@[0] != "->"@[0]);
            reveal_strlit("::");
            assert("+="@[0] != "::"@[0]);
            reveal_strlit("if");
            assert("+="@[0] != "if"@[0]);
            reveal_strlit("==");
            assert("+="@[0] != "=="@[0]);
            reveal_strlit("!=");
            assert("+="@[0] != "!="@[0]);
            reveal_strlit("||");
            assert("+="@[0] != "||"@[0]);
            reveal_strlit("&&");
            assert("+="@[0] != "&&"@[0]);
            reveal_strlit("<=");
            assert("+="@[0] != "<="@[0]);
            reveal_strlit(">=");
            assert("+="@[0] != ">="@[0]);
            reveal_strlit("|=");
            assert("+="@[0] != "|="@[0]);
            reveal_strlit("&=");
            assert("+="@[0] != "&="@[0]);
            reveal_strlit("do");
            assert("+="@[0] != "do"@[0]);
            reveal_strlit("++");
            assert("+="@[1] != "++"@[1]);
            reveal_strlit("--");
            assert("+="@[0] != "--"@[0]);
        },
        JavaNodeType::MinusComposition => {
            reveal_strlit("-=");
            reveal_strlit("->");
            assert("-="@[1] != "->"@[1]);
            reveal_strlit("::");
            assert("-="@[0] != "::"@[0]);
            reveal_strlit("if");
            assert("-="@[0] != "if"@[0]);
            reveal_strlit("==");
            assert("-="@[0] != "=="@[0]);
            reveal_strlit("!=");
            assert("-="@[0] != "!="@[0]);
            reveal_strlit("||");
            assert("-="@[0] != "||"@[0]);
            reveal_strlit("&&");
            assert("-="@[0] != "&&"@[0]);
            reveal_strlit("<=");
            assert("-="@[0] != "<="@[0]);
            reveal_strlit(">=");
            assert("-="@[0] != ">="@[0]);
            reveal_strlit("|=");
            assert("-="@[0] != "|="@[0]);
            reveal_strlit("&=");
            assert("-="@[0] != "&="@[0]);
            reveal_strlit("do");
            assert("-="@[0] != "do"@[0]);
            reveal_strlit("++");
            assert("-="@[0] != "++"@[0]);
            reveal_strlit("--");
            assert("-="@[1] != "--"@[1]);
            reveal_strlit("+=");
            assert("-="@[0] != "+="@[0]);
        },
        JavaNodeType::MultiplicationComposition => {
            reveal_strlit("*=");
            reveal_strlit("->");
            assert("*="@[0] != "->"@[0]);
            reveal_strlit("::");
            assert("*="@[0] != "::"@[0]);
            reveal_strlit("if");
            assert("*="@[0] != "if"@[0]);
            reveal_strlit("==");
            assert("*="@[0] != "=="@[0]);
            reveal_strlit("!=");
            assert("*="@[0] != "!="@[0]);
            reveal_strlit("||");
            assert("*="@[0] != "||"@[0]);
            reveal_strlit("&&");
            assert("*="@[0] != "&&"@[0]);
            reveal_strlit("<=");
            assert("*="@[0] != "<="@[0]);
            reveal_strlit(">=");
            assert("*="@[0] != ">="@[0]);
            reveal_strlit("|=");
            assert("*="@[0] != "|="@[0]);
            reveal_strlit("&=");
            assert("*="@[0] != "&="@[0]);
            reveal_strlit("do");
            assert("*="@[0] != "do"@[0]);
            reveal_strlit("++");
            assert("*="@[0] != "++"@[0]);
            reveal_strlit("--");
            assert("*="@[0] != "--"@[0]);
            reveal_strlit("+=");
            assert("*="@[0] != "+="@[0]);
            reveal_strlit("-=");
            assert("*="@[0] != "-="@[0]);
        },
        JavaNodeType::DivisionComposition => {
            reveal_strlit("/=");
            reveal_strlit("->");
            assert("/="@[0] != "->"@[0]);
            reveal_strlit("::");
            assert("/="@[0] != "::"@[0]);
            reveal_strlit("if");
            assert("/="@[0] != "if"@[0]);
            reveal_strlit("==");
            assert("/="@[0] != "=="@[0]);
            reveal_strlit("!=");
            assert("/="@[0] != "!="@[0]);
            reveal_strlit("||");
            assert("/="@[0] != "||"@[0]);
            reveal_strlit("&&");
            assert("/="@[0] != "&&"@[0]);
            reveal_strlit("<=");
            assert("/="@[0] != "<="@[0]);
            reveal_strlit(">=");
            assert("/="@[0] != ">="@[0]);
            reveal_strlit("|=");
            assert("/="@[0] != "|="@[0]);
            reveal_strlit("&=");
            assert("/="@[0] != "&="@[0]);
            reveal_strlit("do");
            assert("/="@[0] != "do"@[0]);
            reveal_strlit("++");
            assert("/="@[0] != "++"@[0]);
            reveal_strlit("--");
            assert("/="@[0] != "--"@[0]);
            reveal_strlit("+=");
            assert("/="@[0] != "+="@[0]);
            reveal_strlit("-=");
            assert("/="@[0] != "-="@[0]);
            reveal_strlit("*=");
            assert("/="@[0] != "*="@[0]);
        },
        JavaNodeType::ModuleComposition => {
            reveal_strlit("%=");
            reveal_strlit("->");
            assert("%="@[0] != "->"@[0]);
            reveal_strlit("::");
            assert("%="@[0] != "::"@[0]);
            reveal_strlit("if");
            assert("%="@[0] != "if"@[0]);
            reveal_strlit("==");
            assert("%="@[0] != "=="@[0]);
            reveal_strlit("!=");
            assert("%="@[0] != "!="@[0]);
            reveal_strlit("||");
            assert("%="@[0] != "||"@[0]);
            reveal_strlit("&&");
            assert("%="@[0] != "&&"@[0]);
            reveal_strlit("<=");
            assert("%="@[0] != "<="@[0]);
            reveal_strlit(">=");
            assert("%="@[0] != ">="@[0]);
            reveal_strlit("|=");
            assert("%="@[0] != "|="@[0]);
            reveal_strlit("&=");
            assert("%="@[0] != "&="@[0]);
            reveal_strlit("do");
            assert("%="@[0] != "do"@[0]);
            reveal_strlit("++");
            assert("%="@[0] != "++"@[0]);
            reveal_strlit("--");
            assert("%="@[0] != "--"@[0]);
            reveal_strlit("+=");
            assert("%="@[0] != "+="@[0]);
            reveal_strlit("-=");
            assert("%="@[0] != "-="@[0]);
            reveal_strlit("*=");
            assert("%="@[0] != "*="@[0]);
            reveal_strlit("/=");
            assert("%="@[0] != "/="@[0]);
        },
        JavaNodeType::ExponentComposition => {
            reveal_strlit("^=");
            reveal_strlit("->");
            assert("^="@[0] != "->"@[0]);
            reveal_strlit("::");
            assert("^="@[0] != "::"@[0]);
            reveal_strlit("if");
            assert("^="@[0] != "if"@[0]);
            reveal_strlit("==");
            assert("^="@[0] != "=="@[0]);
            reveal_strlit("!=");
            assert("^="@[0] != "!="@[0]);
            reveal_strlit("||");
            assert("^="@[0] != "||"@[0]);
            reveal_strlit("&&");
            assert("^="@[0] != "&&"@[0]);
            reveal_strlit("<=");
            assert("^="@[0] != "<="@[0]);
            reveal_strlit(">=");
            assert("^="@[0] != ">="@[0]);
            reveal_strlit("|=");
            assert("^="@[0] != "|="@[0]);
            reveal_strlit("&=");
            assert("^="@[0] != "&="@[0]);
            reveal_strlit("do");
            assert("^="@[0] != "do"@[0]);
            reveal_strlit("++");
            assert("^="@[0] != "++"@[0]);
            reveal_strlit("--");
            assert("^="@[0] != "--"@[0]);
            reveal_strlit("+=");
            assert("^="@[0] != "+="@[0]);
            reveal_strlit("-=");
            assert("^="@[0] != "-="@[0]);
            reveal_strlit("*=");
            assert("^="@[0] != "*="@[0]);
            reveal_strlit("/=");
            assert("^="@[0] != "/="@[0]);
            reveal_strlit("%=");
            assert("^="@[0] != "%="@[0]);
        },
        JavaNodeType::BitwiseShiftLeft => {
            reveal_strlit("<<");
            reveal_strlit("->");
            assert("<<"@[0] != "->"@[0]);
            reveal_strlit("::");
            assert("<<"@[0] != "::"@[0]);
            reveal_strlit("if");
            assert("<<"@[0] != "if"@[0]);
            reveal_strlit("==");
            assert("<<"@[0] != "=="@[0]);
            reveal_strlit("!=");
            assert("<<"@[0] != "!="@[0]);
            reveal_strlit("||");
            assert("<<"@[0] != "||"@[0]);
            reveal_strlit("&&");
            assert("<<"@[0] != "&&"@[0]);
            reveal_strlit("<=");
            assert("<<"@[1] != "<="@[1]);
            reveal_strlit(">=");
            assert("<<"@[0] != ">="@[0]);
            reveal_strlit("|=");
            assert("<<"@[0] != "|="@[0]);
            reveal_strlit("&=");
            assert("<<"@[0] != "&="@[0]);
            reveal_strlit("do");
            assert("<<"@[0] != "do"@[0]);
            reveal_strlit("++");
            assert("<<"@[0] != "++"@[0]);
            reveal_strlit("--");
            assert("<<"@[0] != "--"@[0]);
            reveal_strlit("+=");
            assert("<<"@[0] != "+="@[0]);
            reveal_strlit("-=");
            assert("<<"@[0] != "-="@[0]);
            reveal_strlit("*=");
            assert("<<"@[0] != "*="@[0]);
            reveal_strlit("/=");
            assert("<<"@[0] != "/="@[0]);
            reveal_strlit("%=");
            assert("<<"@[0] != "%="@[0]);
            reveal_strlit("^=");
            assert("<<"@[0] != "^="@[0]);
        },
        JavaNodeType::BitwiseShiftRight => {
            reveal_strlit(">>");
            reveal_strlit("->");
            assert(">>"@[0] != "->"@[0]);
            reveal_strlit("::");
            assert(">>"@[0] != "::"@[0]);
            reveal_strlit("if");
            assert(">>"@[0] != "if"@[0]);
            reveal_strlit("==");
            assert(">>"@[0] != "=="@[0]);
            reveal_strlit("!=");
            assert(">>"@[0] != "!="@[0]);
            reveal_strlit("||");
            assert(">>"@[0] != "||"@[0]);
            reveal_strlit("&&");
            assert(">>"@[0] != "&&"@[0]);
            reveal_strlit("<=");
            assert(">>"@[0] != "<="@[0]);
            reveal_strlit(">=");
            assert(">>"@[1] != ">="@[1]);
            reveal_strlit("|=");
            assert(">>"@[0] != "|="@[0]);
            reveal_strlit("&=");
            assert(">>"@[0] != "&="@[0]);
            reveal_strlit("do");
            assert(">>"@[0] != "do"@[0]);
            reveal_strlit("++");
            assert(">>"@[0] != "++"@[0]);
            reveal_strlit("--");
            assert(">>"@[0] != "--"@[0]);
            reveal_strlit("+=");
            assert(">>"@[0] != "+="@[0]);
            reveal_strlit("-=");
            assert(">>"@[0] != "-="@[0]);
            reveal_strlit("*=");
            assert(">>"@[0] != "*="@[0]);
            reveal_strlit("/=");
            assert(">>"@[0] != "/="@[0]);
            reveal_strlit("%=");
            assert(">>"@[0] != "%="@[0]);
            reveal_strlit("^=");
            assert(">>"@[0] != "^="@[0]);
            reveal_strlit("<<");
            assert(">>"@[0] != "<<"@[0]);
        },
        JavaNodeType::Try => {
            reveal_strlit("try");
        },
        JavaNodeType::ThreeDots => {
            reveal_strlit("...");
            reveal_strlit("try");
            assert("..."@[0] != "try"@[0]);
        },
        JavaNodeType::New => {
            reveal_strlit("new");
            reveal_strlit("try");
            assert("new"@[0] != "try"@[0]);
            reveal_strlit("...");
            assert("new"@[0] != "..."@[0]);
        },
        JavaNodeType::Int => {
            reveal_strlit("int");
            reveal_strlit("try");
            assert("int"@[0] != "try"@[0]);
            reveal_strlit("...");
            assert("int"@[0] != "..."@[0]);
            reveal_strlit("new");
            assert("int"@[0] != "new"@[0]);
        },
        JavaNodeType::For => {
            reveal_strlit("for");
            reveal_strlit("try");
            assert("for"@[0] != "try"@[0]);
            reveal_strlit("...");
            assert("for"@[0] != "..."@[0]);
            reveal_strlit("new");
            assert("for"@[0] != "new"@[0]);
            reveal_strlit("int");
            assert("for"@[0] != "int"@[0]);
        },
        JavaNodeType::BitwiseShiftRightUnsigned => {
            reveal_strlit(">>>");
            reveal_strlit("try");
            assert(">>>"@[0] != "try"@[0]);
            reveal_strlit("...");
            assert(">>>"@[0] != "..."@[0]);
            reveal_strlit("new");
            assert(">>>"@[0] != "new"@[0]);
            reveal_strlit("int");
            assert(">>>"@[0] != "int"@[0]);
            reveal_strlit("for");
            assert(">>>"@[0] != "for"@[0]);
        },
        JavaNodeType::BitwiseShiftLeftComposition => {
            reveal_strlit("<<=");
            reveal_strlit("try");
            assert("<<="@[0] != "try"@[0]);
            reveal_strlit("...");
            assert("<<="@[0] != "..."@[0]);
            reveal_strlit("new");
            assert("<<="@[0] != "new"@[0]);
            reveal_strlit("int");
            assert("<<="@[0] != "int"@[0]);
            reveal_strlit("for");
            assert("<<="@[0] != "for"@[0]);
            reveal_strlit(">>>");
            assert("<<="@[0] != ">>>"@[0]);
        },
        JavaNodeType::BitwiseShiftRightComposition => {
            reveal_strlit(">>=");
            reveal_strlit("try");
            assert(">>="@[0] != "try"@[0]);
            reveal_strlit("...");
            assert(">>="@[0] != "..."@[0]);
            reveal_strlit("new");
            assert(">>="@[0] != "new"@[0]);
            reveal_strlit("int");
            assert(">>="@[0] != "int"@[0]);
            reveal_strlit("for");
            assert(">>="@[0] != "for"@[0]);
            reveal_strlit(">>>");
            assert(">>="@[2] != ">>>"@[2]);
            reveal_strlit("<<=");
            assert(">>="@[0] != "<<="@[0]);
        },
        JavaNodeType::True => {
            reveal_strlit("true");
        },
        JavaNodeType::Enum => {
            reveal_strlit("enum");
            reveal_strlit("true");
            assert("enum"@[0] != "true"@[0]);
        },
        JavaNodeType::Void => {
            reveal_strlit("void");
            reveal_strlit("true");
            assert("void"@[0] != "true"@[0]);
            reveal_strlit("enum");
            assert("void"@[0] != "enum"@[0]);
        },
        JavaNodeType::Long => {
            reveal_strlit("long");
            reveal_strlit("true");
            assert("long"@[0] != "true"@[0]);
            reveal_strlit("enum");
            assert("long"@[0] != "enum"@[0]);
            reveal_strlit("void");
            assert("long"@[0] != "void"@[0]);
        },
        JavaNodeType::Char => {
            reveal_strlit("char");
            reveal_strlit("true");
            assert("char"@[0] != "true"@[0]);
            reveal_strlit("enum");
            assert("char"@[0] != "enum"@[0]);
            reveal_strlit("void");
            assert("char"@[0] != "void"@[0]);
            reveal_strlit("long");
            assert("char"@[0] != "long"@[0]);
        },
        JavaNodeType::Byte => {
            reveal_strlit("byte");
            reveal_strlit("true");
            assert("byte"@[0] != "true"@[0]);
            reveal_strlit("enum");
            assert("byte"@[0] != "enum"@[0]);
            reveal_strlit("void");
            assert("byte"@[0] != "void"@[0]);
            reveal_strlit("long");
            assert("byte"@[0] != "long"@[0]);
            reveal_strlit("char");
            assert("byte"@[0] != "char"@[0]);
        },
        JavaNodeType::This => {
            reveal_strlit("this");
            reveal_strlit("true");
            assert("this"@[1] != "true"@[1]);
            reveal_strlit("enum");
            assert("this"@[0] != "enum"@[0]);
            reveal_strlit("void");
            assert("this"@[0] != "void"@[0]);
            reveal_strlit("long");
            assert("this"@[0] != "long"@[0]);
            reveal_strlit("char");
            assert("this"@[0] != "char"@[0]);
            reveal_strlit("byte");
            assert("this"@[0] != "byte"@[0]);
        },
        JavaNodeType::Else => {
            reveal_strlit("else");
            reveal_strlit("true");
            assert("else"@[0] != "true"@[0]);
            reveal_strlit("enum");
            assert("else"@[1] != "enum"@[1]);
            reveal_strlit("void");
            assert("else"@[0] != "void"@[0]);
            reveal_strlit("long");
            assert("else"@[0] != "long"@[0]);
            reveal_strlit("char");
            assert("else"@[0] != "char"@[0]);
            reveal_strlit("byte");
            assert("else"@[0] != "byte"@[0]);
            reveal_strlit("this");
            assert("else"@[0] != "this"@[0]);
        },
        JavaNodeType::Case => {
            reveal_strlit("case");
            reveal_strlit("true");
            assert("case"@[0] != "true"@[0]);
            reveal_strlit("enum");
            assert("case"@[0] != "enum"@[0]);
            reveal_strlit("void");
            assert("case"@[0] != "void"@[0]);
            reveal_strlit("long");
            assert("case"@[0] != "long"@[0]);
            reveal_strlit("char");
            assert("case"@[1] != "char"@[1]);
            reveal_strlit("byte");
            assert("case"@[0] != "byte"@[0]);
            reveal_strlit("this");
            assert("case"@[0] != "this"@[0]);
            reveal_strlit("else");
            assert("case"@[0] != "else"@[0]);
        },
        JavaNodeType::BitwiseShiftRightUnsignedComposition => {
            reveal_strlit(">>>=");
            reveal_strlit("true");
            assert(">>>="@[0] != "true"@[0]);
            reveal_strlit("enum");
            assert(">>>="@[0] != "enum"@[0]);
            reveal_strlit("void");
            assert(">>>="@[0] != "void"@[0]);
            reveal_strlit("long");
            assert(">>>="@[0] != "long"@[0]);
            reveal_strlit("char");
            assert(">>>="@[0] != "char"@[0]);
            reveal_strlit("byte");
            assert(">>>="@[0] != "byte"@[0]);
            reveal_strlit("this");
            assert(">>>="@[0] != "this"@[0]);
            reveal_strlit("else");
            assert(">>>="@[0] != "else"@[0]);
            reveal_strlit("case");
            assert(">>>="@[0] != "case"@[0]);
        },
        JavaNodeType::Catch => {
            reveal_strlit("catch");
        },
        JavaNodeType::Throw => {
            reveal_strlit("throw");
            reveal_strlit("catch");
            assert("throw"@[0] != "catch"@[0]);
        },
        JavaNodeType::False => {
            reveal_strlit("false");
            reveal_strlit("catch");
            assert("false"@[0] != "catch"@[0]);
            reveal_strlit("throw");
            assert("false"@[0] != "throw"@[0]);
        },
        JavaNodeType::Class => {
            reveal_strlit("class");
            reveal_strlit("catch");
            assert("class"@[1] != "catch"@[1]);
            reveal_strlit("throw");
            assert("class"@[0] != "throw"@[0]);
            reveal_strlit("false");
            assert("class"@[0] != "false"@[0]);
        },
        JavaNodeType::Super => {
            reveal_strlit("super");
            reveal_strlit("catch");
            assert("super"@[0] != "catch"@[0]);
            reveal_strlit("throw");
            assert("super"@[0] != "throw"@[0]);
            reveal_strlit("false");
            assert("super"@[0] != "false"@[0]);
            reveal_strlit("class");
            assert("super"@[0] != "class"@[0]);
        },
        JavaNodeType::Block => {
            reveal_strlit("block");
            reveal_strlit("catch");
            assert("block"@[0] != "catch"@[0]);
            reveal_strlit("throw");
            assert("block"@[0] != "throw"@[0]);
            reveal_strlit("false");
            assert("block"@[0] != "false"@[0]);
            reveal_strlit("class");
            assert("block"@[0] != "class"@[0]);
            reveal_strlit("super");
            assert("block"@[0] != "super"@[0]);
        },
        JavaNodeType::Final => {
            reveal_strlit("final");
            reveal_strlit("catch");
            assert("final"@[0] != "catch"@[0]);
            reveal_strlit("throw");
            assert("final"@[0] != "throw"@[0]);
            reveal_strlit("false");
            assert("final"@[1] != "false"@[1]);
            reveal_strlit("class");
            assert("final"@[0] != "class"@[0]);
            reveal_strlit("super");
            assert("final"@[0] != "super"@[0]);
            reveal_strlit("block");
            assert("final"@[0] != "block"@[0]);
        },
        JavaNodeType::Float => {
            reveal_strlit("float");
            reveal_strlit("catch");
            assert("float"@[0] != "catch"@[0]);
            reveal_strlit("throw");
            assert("float"@[0] != "throw"@[0]);
            reveal_strlit("false");
            assert("float"@[1] != "false"@[1]);
            reveal_strlit("class");
            assert("float"@[0] != "class"@[0]);
            reveal_strlit("super");
            assert("float"@[0] != "super"@[0]);
            reveal_strlit("block");
            assert("float"@[0] != "block"@[0]);
            reveal_strlit("final");
            assert("float"@[1] != "final"@[1]);
        },
        JavaNodeType::Short => {
            reveal_strlit("short");
            reveal_strlit("catch");
            assert("short"@[0] != "catch"@[0]);
            reveal_strlit("throw");
            assert("short"@[0] != "throw"@[0]);
            reveal_strlit("false");
            assert("short"@[0] != "false"@[0]);
            reveal_strlit("class");
            assert("short"@[0] != "class"@[0]);
            reveal_strlit("super");
            assert("short"@[1] != "super"@[1]);
            reveal_strlit("block");
            assert("short"@[0] != "block"@[0]);
            reveal_strlit("final");
            assert("short"@[0] != "final"@[0]);
            reveal_strlit("float");
            assert("short"@[0] != "float"@[0]);
        },
        JavaNodeType::Break => {
            reveal_strlit("break");
            reveal_strlit("catch");
            assert("break"@[0] != "catch"@[0]);
            reveal_strlit("throw");
            assert("break"@[0] != "throw"@[0]);
            reveal_strlit("false");
            assert("break"@[0] != "false"@[0]);
            reveal_strlit("class");
            assert("break"@[0] != "class"@[0]);
            reveal_strlit("super");
            assert("break"@[0] != "super"@[0]);
            reveal_strlit("block");
            assert("break"@[1] != "block"@[1]);
            reveal_strlit("final");
            assert("break"@[0] != "final"@[0]);
            reveal_strlit("float");
            assert("break"@[0] != "float"@[0]);
            reveal_strlit("short");
            assert("break"@[0] != "short"@[0]);
        },
        JavaNodeType::While => {
            reveal_strlit("while");
            reveal_strlit("catch");
            assert("while"@[0] != "catch"@[0]);
            reveal_strlit("throw");
            assert("while"@[0] != "throw"@[0]);
            reveal_strlit("false");
            assert("while"@[0] != "false"@[0]);
            reveal_strlit("class");
            assert("while"@[0] != "class"@[0]);
            reveal_strlit("super");
            assert("while"@[0] != "super"@[0]);
            reveal_strlit("block");
            assert("while"@[0] != "block"@[0]);
            reveal_strlit("final");
            assert("while"@[0] != "final"@[0]);
            reveal_strlit("float");
            assert("while"@[0] != "float"@[0]);
            reveal_strlit("short");
            assert("while"@[0] != "short"@[0]);
            reveal_strlit("break");
            assert("while"@[0] != "break"@[0]);
        },
        JavaNodeType::Import => {
            reveal_strlit("import");
        },
        JavaNodeType::Return => {
            reveal_strlit("return");
            reveal_strlit("import");
            assert("return"@[0] != "import"@[0]);
        },
        JavaNodeType::Throws => {
            reveal_strlit("throws");
            reveal_strlit("import");
            assert("throws"@[0] != "import"@[0]);
            reveal_strlit("return");
            assert("throws"@[0] != "return"@[0]);
        },
        JavaNodeType::Assert => {
            reveal_strlit("assert");
            reveal_strlit("import");
            assert("assert"@[0] != "import"@[0]);
            reveal_strlit("return");
            assert("assert"@[0] != "return"@[0]);
            reveal_strlit("throws");
            assert("assert"@[0] != "throws"@[0]);
        },
        JavaNodeType::Double => {
            reveal_strlit("double");
            reveal_strlit("import");
            assert("double"@[0] != "import"@[0]);
            reveal_strlit("return");
            assert("double"@[0] != "return"@[0]);
            reveal_strlit("throws");
            assert("double"@[0] != "throws"@[0]);
            reveal_strlit("assert");
            assert("double"@[0] != "assert"@[0]);
        },
        JavaNodeType::String => {
            reveal_strlit("string");
            reveal_strlit("import");
            assert("string"@[0] != "import"@[0]);
            reveal_strlit("return");
            assert("string"@[0] != "return"@[0]);
            reveal_strlit("throws");
            assert("string"@[0] != "throws"@[0]);
            reveal_strlit("assert");
            assert("string"@[0] != "assert"@[0]);
            reveal_strlit("double");
            assert("string"@[0] != "double"@[0]);
        },
        JavaNodeType::Public => {
            reveal_strlit("public");
            reveal_strlit("import");
            assert("public"@[0] != "import"@[0]);
            reveal_strlit("return");
            assert("public"@[0] != "return"@[0]);
            reveal_strlit("throws");
            assert("public"@[0] != "throws"@[0]);
            reveal_strlit("assert");
            assert("public"@[0] != "assert"@[0]);
            reveal_strlit("double");
            assert("public"@[0] != "double"@[0]);
            reveal_strlit("string");
            assert("public"@[0] != "string"@[0]);
        },
        JavaNodeType::Static => {
            reveal_strlit("static");
            reveal_strlit("import");
            assert("static"@[0] != "import"@[0]);
            reveal_strlit("return");
            assert("static"@[0] != "return"@[0]);
            reveal_strlit("throws");
            assert("static"@[0] != "throws"@[0]);
            reveal_strlit("assert");
            assert("static"@[0] != "assert"@[0]);
            reveal_strlit("double");
            assert("static"@[0] != "double"@[0]);
            reveal_strlit("string");
            assert("static"@[2] != "string"@[2]);
            reveal_strlit("public");
            assert("static"@[0] != "public"@[0]);
        },
        JavaNodeType::Switch => {
            reveal_strlit("switch");
            reveal_strlit("import");
            assert("switch"@[0] != "import"@[0]);
            reveal_strlit("return");
            assert("switch"@[0] != "return"@[0]);
            reveal_strlit("throws");
            assert("switch"@[0] != "throws"@[0]);
            reveal_strlit("assert");
            assert("switch"@[0] != "assert"@[0]);
            reveal_strlit("double");
            assert("switch"@[0] != "double"@[0]);
            reveal_strlit("string");
            assert("switch"@[1] != "string"@[1]);
            reveal_strlit("public");
            assert("switch"@[0] != "public"@[0]);
            reveal_strlit("static");
            assert("switch"@[1] != "static"@[1]);
        },
        JavaNodeType::Program => {
            reveal_strlit("program");
        },
        JavaNodeType::Package => {
            reveal_strlit("package");
            reveal_strlit("program");
            assert("package"@[1] != "program"@[1]);
        },
        JavaNodeType::Finally => {
            reveal_strlit("finally");
            reveal_strlit("program");
            assert("finally"@[0] != "program"@[0]);
            reveal_strlit("package");
            assert("finally"@[0] != "package"@[0]);
        },
        JavaNodeType::Extends => {
            reveal_strlit("extends");
            reveal_strlit("program");
            assert("extends"@[0] != "program"@[0]);
            reveal_strlit("package");
            assert("extends"@[0] != "package"@[0]);
            reveal_strlit("finally");
            assert("extends"@[0] != "finally"@[0]);
        },
        JavaNodeType::Private => {
            reveal_strlit("private");
            reveal_strlit("program");
            assert("private"@[2] != "program"@[2]);
            reveal_strlit("package");
            assert("private"@[1] != "package"@[1]);
            reveal_strlit("finally");
            assert("private"@[0] != "finally"@[0]);
            reveal_strlit("extends");
            assert("private"@[0] != "extends"@[0]);
        },
        JavaNodeType::Comment => {
            reveal_strlit("comment");
            reveal_strlit("program");
            assert("comment"@[0] != "program"@[0]);
            reveal_strlit("package");
            assert("comment"@[0] != "package"@[0]);
            reveal_strlit("finally");
            assert("comment"@[0] != "finally"@[0]);
            reveal_strlit("extends");
            assert("comment"@[0] != "extends"@[0]);
            reveal_strlit("private");
            assert("comment"@[0] != "private"@[0]);
        },
        JavaNodeType::Default => {
            reveal_strlit("default");
            reveal_strlit("program");
            assert("default"@[0] != "program"@[0]);
            reveal_strlit("package");
            assert("default"@[0] != "package"@[0]);
            reveal_strlit("finally");
            assert("default"@[0] != "finally"@[0]);
            reveal_strlit("extends");
            assert("default"@[0] != "extends"@[0]);
            reveal_strlit("private");
            assert("default"@[0] != "private"@[0]);
            reveal_strlit("comment");
            assert("default"@[0] != "comment"@[0]);
        },
        JavaNodeType::Wildcard => {
            reveal_strlit("wildcard");
        },
        JavaNodeType::Abstract => {
            reveal_strlit("abstract");
            reveal_strlit("wildcard");
            assert("abstract"@[0] != "wildcard"@[0]);
        },
        JavaNodeType::Volatile => {
            reveal_strlit("volatile");
            reveal_strlit("wildcard");
            assert("volatile"@[0] != "wildcard"@[0]);
            reveal_strlit("abstract");
            assert("volatile"@[0] != "abstract"@[0]);
        },
        JavaNodeType::Continue => {
            reveal_strlit("continue");
            reveal_strlit("wildcard");
            assert("continue"@[0] != "wildcard"@[0]);
            reveal_strlit("abstract");
            assert("continue"@[0] != "abstract"@[0]);
            reveal_strlit("volatile");
            assert("continue"@[0] != "volatile"@[0]);
        },
        JavaNodeType::Modifiers => {
            reveal_strlit("modifiers");
        },
        JavaNodeType::EnumBody => {
            reveal_strlit("enum_body");
            reveal_strlit("modifiers");
            assert("enum_body"@[0] != "modifiers"@[0]);
        },
        JavaNodeType::TypeList => {
            reveal_strlit("type_list");
            reveal_strlit("modifiers");
            assert("type_list"@[0] != "modifiers"@[0]);
            reveal_strlit("enum_body");
            assert("type_list"@[0] != "enum_body"@[0]);
        },
        JavaNodeType::Interface => {
            reveal_strlit("interface");
            reveal_strlit("modifiers");
            assert("interface"@[0] != "modifiers"@[0]);
            reveal_strlit("enum_body");
            assert("interface"@[0] != "enum_body"@[0]);
            reveal_strlit("type_list");
            assert("interface"@[0] != "type_list"@[0]);
        },
        JavaNodeType::VoidType => {
            reveal_strlit("void_type");
            reveal_strlit("modifiers");
            assert("void_type"@[0] != "modifiers"@[0]);
            reveal_strlit("enum_body");
            assert("void_type"@[0] != "enum_body"@[0]);
            reveal_strlit("type_list");
            assert("void_type"@[0] != "type_list"@[0]);
            reveal_strlit("interface");
            assert("void_type"@[0] != "interface"@[0]);
        },
        JavaNodeType::Protected => {
            reveal_strlit("protected");
            reveal_strlit("modifiers");
            assert("protected"@[0] != "modifiers"@[0]);
            reveal_strlit("enum_body");
            assert("protected"@[0] != "enum_body"@[0]);
            reveal_strlit("type_list");
            assert("protected"@[0] != "type_list"@[0]);
            reveal_strlit("interface");
            assert("protected"@[0] != "interface"@[0]);
            reveal_strlit("void_type");
            assert("protected"@[0] != "void_type"@[0]);
        },
        JavaNodeType::Transient => {
            reveal_strlit("transient");
            reveal_strlit("modifiers");
            assert("transient"@[0] != "modifiers"@[0]);
            reveal_strlit("enum_body");
            assert("transient"@[0] != "enum_body"@[0]);
            reveal_strlit("type_list");
            assert("transient"@[1] != "type_list"@[1]);
            reveal_strlit("interface");
            assert("transient"@[0] != "interface"@[0]);
            reveal_strlit("void_type");
            assert("transient"@[0] != "void_type"@[0]);
            reveal_strlit("protected");
            assert("transient"@[0] != "protected"@[0]);
        },
        JavaNodeType::Id => {
            reveal_strlit("identifier");
        },
        JavaNodeType::Instanceof => {
            reveal_strlit("instanceof");
            reveal_strlit("identifier");
            assert("instanceof"@[1] != "identifier"@[1]);
        },
        JavaNodeType::CatchType => {
            reveal_strlit("catch_type");
            reveal_strlit("identifier");
            assert("catch_type"@[0] != "identifier"@[0]);
            reveal_strlit("instanceof");
            assert("catch_type"@[0] != "instanceof"@[0]);
        },
        JavaNodeType::ClassBody => {
            reveal_strlit("class_body");
            reveal_strlit("identifier");
            assert("class_body"@[0] != "identifier"@[0]);
            reveal_strlit("instanceof");
            assert("class_body"@[0] != "instanceof"@[0]);
            reveal_strlit("catch_type");
            assert("class_body"@[1] != "catch_type"@[1]);
        },
        JavaNodeType::Superclass => {
            reveal_strlit("superclass");
            reveal_strlit("identifier");
            assert("superclass"@[0] != "identifier"@[0]);
            reveal_strlit("instanceof");
            assert("superclass"@[0] != "instanceof"@[0]);
            reveal_strlit("catch_type");
            assert("superclass"@[0] != "catch_type"@[0]);
            reveal_strlit("class_body");
            assert("superclass"@[0] != "class_body"@[0]);
        },
        JavaNodeType::Implements => {
            reveal_strlit("implements");
            reveal_strlit("identifier");
            assert("implements"@[1] != "identifier"@[1]);
            reveal_strlit("instanceof");
            assert("implements"@[1] != "instanceof"@[1]);
            reveal_strlit("catch_type");
            assert("implements"@[0] != "catch_type"@[0]);
            reveal_strlit("class_body");
            assert("implements"@[0] != "class_body"@[0]);
            reveal_strlit("superclass");
            assert("implements"@[0] != "superclass"@[0]);
        },
        JavaNodeType::AtInterface => {
            reveal_strlit("@interface");
            reveal_strlit("identifier");
            assert("@interface"@[0] != "identifier"@[0]);
            reveal_strlit("instanceof");
            assert("@interface"@[0] != "instanceof"@[0]);
            reveal_strlit("catch_type");
            assert("@interface"@[0] != "catch_type"@[0]);
            reveal_strlit("class_body");
            assert("@interface"@[0] != "class_body"@[0]);
            reveal_strlit("superclass");
            assert("@interface"@[0] != "superclass"@[0]);
            reveal_strlit("implements");
            assert("@interface"@[0] != "implements"@[0]);
        },
        JavaNodeType::Annotation => {
            reveal_strlit("annotation");
            reveal_strlit("identifier");
            assert("annotation"@[0] != "identifier"@[0]);
            reveal_strlit("instanceof");
            assert("annotation"@[0] != "instanceof"@[0]);
            reveal_strlit("catch_type");
            assert("annotation"@[0] != "catch_type"@[0]);
            reveal_strlit("class_body");
            assert("annotation"@[0] != "class_body"@[0]);
            reveal_strlit("superclass");
            assert("annotation"@[0] != "superclass"@[0]);
            reveal_strlit("implements");
            assert("annotation"@[0] != "implements"@[0]);
            reveal_strlit("@interface");
            assert("annotation"@[0] != "@interface"@[0]);
        },
        JavaNodeType::ArrayType => {
            reveal_strlit("array_type");
            reveal_strlit("identifier");
            assert("array_type"@[0] != "identifier"@[0]);
            reveal_strlit("instanceof");
            assert("array_type"@[0] != "instanceof"@[0]);
            reveal_strlit("catch_type");
            assert("array_type"@[0] != "catch_type"@[0]);
            reveal_strlit("class_body");
            assert("array_type"@[0] != "class_body"@[0]);
            reveal_strlit("superclass");
            assert("array_type"@[0] != "superclass"@[0]);
            reveal_strlit("implements");
            assert("array_type"@[0] != "implements"@[0]);
            reveal_strlit("@interface");
            assert("array_type"@[0] != "@interface"@[0]);
            reveal_strlit("annotation");
            assert("array_type"@[1] != "annotation"@[1]);
        },
        JavaNodeType::Dimensions => {
            reveal_strlit("dimensions");
            reveal_strlit("identifier");
            assert("dimensions"@[0] != "identifier"@[0]);
            reveal_strlit("instanceof");
            assert("dimensions"@[0] != "instanceof"@[0]);
            reveal_strlit("catch_type");
            assert("dimensions"@[0] != "catch_type"@[0]);
            reveal_strlit("class_body");
            assert("dimensions"@[0] != "class_body"@[0]);
            reveal_strlit("superclass");
            assert("dimensions"@[0] != "superclass"@[0]);
            reveal_strlit("implements");
            assert("dimensions"@[0] != "implements"@[0]);
            reveal_strlit("@interface");
            assert("dimensions"@[0] != "@interface"@[0]);
            reveal_strlit("annotation");
            assert("dimensions"@[0] != "annotation"@[0]);
            reveal_strlit("array_type");
            assert("dimensions"@[0] != "array_type"@[0]);
        },
        JavaNodeType::SwitchRule => {
            reveal_strlit("switch_rule");
        },
        JavaNodeType::FieldAccess => {
            reveal_strlit("field_access");
        },
        JavaNodeType::CatchClause => {
            reveal_strlit("catch_clause");
            reveal_strlit("field_access");
            assert("catch_clause"@[0] != "field_access"@[0]);
        },
        JavaNodeType::NullLiteral => {
            reveal_strlit("null_literal");
            reveal_strlit("field_access");
            assert("null_literal"@[0] != "field_access"@[0]);
            reveal_strlit("catch_clause");
            assert("null_literal"@[0] != "catch_clause"@[0]);
        },
        JavaNodeType::Synchronized => {
            reveal_strlit("synchronized");
            reveal_strlit("field_access");
            assert("synchronized"@[0] != "field_access"@[0]);
            reveal_strlit("catch_clause");
            assert("synchronized"@[0] != "catch_clause"@[0]);
            reveal_strlit("null_literal");
            assert("synchronized"@[0] != "null_literal"@[0]);
        },
        JavaNodeType::GenericType => {
            reveal_strlit("generic_type");
            reveal_strlit("field_access");
            assert("generic_type"@[0] != "field_access"@[0]);
            reveal_strlit("catch_clause");
            assert("generic_type"@[0] != "catch_clause"@[0]);
            reveal_strlit("null_literal");
            assert("generic_type"@[0] != "null_literal"@[0]);
            reveal_strlit("synchronized");
            assert("generic_type"@[0] != "synchronized"@[0]);
        },
        JavaNodeType::Boolean => {
            reveal_strlit("boolean_type");
            reveal_strlit("field_access");
            assert("boolean_type"@[0] != "field_access"@[0]);
            reveal_strlit("catch_clause");
            assert("boolean_type"@[0] != "catch_clause"@[0]);
            reveal_strlit("null_literal");
            assert("boolean_type"@[0] != "null_literal"@[0]);
            reveal_strlit("synchronized");
            assert("boolean_type"@[0] != "synchronized"@[0]);
            reveal_strlit("generic_type");
            assert("boolean_type"@[0] != "generic_type"@[0]);
        },
        JavaNodeType::LineComment => {
            reveal_strlit("line_comment");
            reveal_strlit("field_access");
            assert("line_comment"@[0] != "field_access"@[0]);
            reveal_strlit("catch_clause");
            assert("line_comment"@[0] != "catch_clause"@[0]);
            reveal_strlit("null_literal");
            assert("line_comment"@[0] != "null_literal"@[0]);
            reveal_strlit("synchronized");
            assert("line_comment"@[0] != "synchronized"@[0]);
            reveal_strlit("generic_type");
            assert("line_comment"@[0] != "generic_type"@[0]);
            reveal_strlit("boolean_type");
            assert("line_comment"@[0] != "boolean_type"@[0]);
        },
        JavaNodeType::IfStatement => {
            reveal_strlit("if_statement");
            reveal_strlit("field_access");
            assert("if_statement"@[0] != "field_access"@[0]);
            reveal_strlit("catch_clause");
            assert("if_statement"@[0] != "catch_clause"@[0]);
            reveal_strlit("null_literal");
            assert("if_statement"@[0] != "null_literal"@[0]);
            reveal_strlit("synchronized");
            assert("if_statement"@[0] != "synchronized"@[0]);
            reveal_strlit("generic_type");
            assert("if_statement"@[0] != "generic_type"@[0]);
            reveal_strlit("boolean_type");
            assert("if_statement"@[0] != "boolean_type"@[0]);
            reveal_strlit("line_comment");
            assert("if_statement"@[0] != "line_comment"@[0]);
        },
        JavaNodeType::SwitchBlock => {
            reveal_strlit("switch_block");
            reveal_strlit("field_access");
            assert("switch_block"@[0] != "field_access"@[0]);
            reveal_strlit("catch_clause");
            assert("switch_block"@[0] != "catch_clause"@[0]);
            reveal_strlit("null_literal");
            assert("switch_block"@[0] != "null_literal"@[0]);
            reveal_strlit("synchronized");
            assert("switch_block"@[1] != "synchronized"@[1]);
            reveal_strlit("generic_type");
            assert("switch_block"@[0] != "generic_type"@[0]);
            reveal_strlit("boolean_type");
            assert("switch_block"@[0] != "boolean_type"@[0]);
            reveal_strlit("line_comment");
            assert("switch_block"@[0] != "line_comment"@[0]);
            reveal_strlit("if_statement");
            assert("switch_block"@[0] != "if_statement"@[0]);
        },
        JavaNodeType::SwitchLabel => {
            reveal_strlit("switch_label");
            reveal_strlit("field_access");
            assert("switch_label"@[0] != "field_access"@[0]);
            reveal_strlit("catch_clause");
            assert("switch_label"@[0] != "catch_clause"@[0]);
            reveal_strlit("null_literal");
            assert("switch_label"@[0] != "null_literal"@[0]);
            reveal_strlit("synchronized");
            assert("switch_label"@[1] != "synchronized"@[1]);
            reveal_strlit("generic_type");
            assert("switch_label"@[0] != "generic_type"@[0]);
            reveal_strlit("boolean_type");
            assert("switch_label"@[0] != "boolean_type"@[0]);
            reveal_strlit("line_comment");
            assert("switch_label"@[0] != "line_comment"@[0]);
            reveal_strlit("if_statement");
            assert("switch_label"@[0] != "if_statement"@[0]);
            reveal_strlit("switch_block");
            assert("switch_label"@[7] != "switch_block"@[7]);
        },
        JavaNodeType::DoStatement => {
            reveal_strlit("do_statement");
            reveal_strlit("field_access");
            assert("do_statement"@[0] != "field_access"@[0]);
            reveal_strlit("catch_clause");
            assert("do_statement"@[0] != "catch_clause"@[0]);
            reveal_strlit("null_literal");
            assert("do_statement"@[0] != "null_literal"@[0]);
            reveal_strlit("synchronized");
            assert("do_statement"@[0] != "synchronized"@[0]);
            reveal_strlit("generic_type");
            assert("do_statement"@[0] != "generic_type"@[0]);
            reveal_strlit("boolean_type");
            assert("do_statement"@[0] != "boolean_type"@[0]);
            reveal_strlit("line_comment");
            assert("do_statement"@[0] != "line_comment"@[0]);
            reveal_strlit("if_statement");
            assert("do_statement"@[0] != "if_statement"@[0]);
            reveal_strlit("switch_block");
            assert("do_statement"@[0] != "switch_block"@[0]);
            reveal_strlit("switch_label");
            assert("do_statement"@[0] != "switch_label"@[0]);
        },
        JavaNodeType::ArgumentList => {
            reveal_strlit("argument_list");
        },
        JavaNodeType::TryStatement => {
            reveal_strlit("try_statement");
            reveal_strlit("argument_list");
            assert("try_statement"@[0] != "argument_list"@[0]);
        },
        JavaNodeType::ClassLiteral => {
            reveal_strlit("class_literal");
            reveal_strlit("argument_list");
            assert("class_literal"@[0] != "argument_list"@[0]);
            reveal_strlit("try_statement");
            assert("class_literal"@[0] != "try_statement"@[0]);
        },
        JavaNodeType::EnumConstant => {
            reveal_strlit("enum_constant");
            reveal_strlit("argument_list");
            assert("enum_constant"@[0] != "argument_list"@[0]);
            reveal_strlit("try_statement");
            assert("enum_constant"@[0] != "try_statement"@[0]);
            reveal_strlit("class_literal");
            assert("enum_constant"@[0] != "class_literal"@[0]);
        },
        JavaNodeType::IntegralType => {
            reveal_strlit("integral_type");
            reveal_strlit("argument_list");
            assert("integral_type"@[0] != "argument_list"@[0]);
            reveal_strlit("try_statement");
            assert("integral_type"@[0] != "try_statement"@[0]);
            reveal_strlit("class_literal");
            assert("integral_type"@[0] != "class_literal"@[0]);
            reveal_strlit("enum_constant");
            assert("integral_type"@[0] != "enum_constant"@[0]);
        },
        JavaNodeType::BlockComment => {
            reveal_strlit("block_comment");
            reveal_strlit("argument_list");
            assert("block_comment"@[0] != "argument_list"@[0]);
            reveal_strlit("try_statement");
            assert("block_comment"@[0] != "try_statement"@[0]);
            reveal_strlit("class_literal");
            assert("block_comment"@[0] != "class_literal"@[0]);
            reveal_strlit("enum_constant");
            assert("block_comment"@[0] != "enum_constant"@[0]);
            reveal_strlit("integral_type");
            assert("block_comment"@[0] != "integral_type"@[0]);
        },
        JavaNodeType::ForStatement => {
            reveal_strlit("for_statement");
            reveal_strlit("argument_list");
            assert("for_statement"@[0] != "argument_list"@[0]);
            reveal_strlit("try_statement");
            assert("for_statement"@[0] != "try_statement"@[0]);
            reveal_strlit("class_literal");
            assert("for_statement"@[0] != "class_literal"@[0]);
            reveal_strlit("enum_constant");
            assert("for_statement"@[0] != "enum_constant"@[0]);
            reveal_strlit("integral_type");
            assert("for_statement"@[0] != "integral_type"@[0]);
            reveal_strlit("block_comment");
            assert("for_statement"@[0] != "block_comment"@[0]);
        },
        JavaNodeType::StringLiteral => {
            reveal_strlit("string_literal");
        },
        JavaNodeType::FinallyClause => {
            reveal_strlit("finally_clause");
            reveal_strlit("string_literal");
            assert("finally_clause"@[0] != "string_literal"@[0]);
        },
        JavaNodeType::InterfaceBody => {
            reveal_strlit("interface_body");
            reveal_strlit("string_literal");
            assert("interface_body"@[0] != "string_literal"@[0]);
            reveal_strlit("finally_clause");
            assert("interface_body"@[0] != "finally_clause"@[0]);
        },
        JavaNodeType::TypeParameter => {
            reveal_strlit("type_parameter");
            reveal_strlit("string_literal");
            assert("type_parameter"@[0] != "string_literal"@[0]);
            reveal_strlit("finally_clause");
            assert("type_parameter"@[0] != "finally_clause"@[0]);
            reveal_strlit("interface_body");
            assert("type_parameter"@[0] != "interface_body"@[0]);
        },
        JavaNodeType::TypeArguments => {
            reveal_strlit("type_arguments");
            reveal_strlit("string_literal");
            assert("type_arguments"@[0] != "string_literal"@[0]);
            reveal_strlit("finally_clause");
            assert("type_arguments"@[0] != "finally_clause"@[0]);
            reveal_strlit("interface_body");
            assert("type_arguments"@[0] != "interface_body"@[0]);
            reveal_strlit("type_parameter");
            assert("type_arguments"@[5] != "type_parameter"@[5]);
        },
        JavaNodeType::CastExpression => {
            reveal_strlit("cast_expression");
        },
        JavaNodeType::ThrowStatement => {
            reveal_strlit("throw_statement");
            reveal_strlit("cast_expression");
            assert("throw_statement"@[0] != "cast_expression"@[0]);
        },
        JavaNodeType::TypeParameters => {
            reveal_strlit("type_parameters");
            reveal_strlit("cast_expression");
            assert("type_parameters"@[0] != "cast_expression"@[0]);
            reveal_strlit("throw_statement");
            assert("type_parameters"@[1] != "throw_statement"@[1]);
        },
        JavaNodeType::TypeIdentifier => {
            reveal_strlit("type_identifier");
            reveal_strlit("cast_expression");
            assert("type_identifier"@[0] != "cast_expression"@[0]);
            reveal_strlit("throw_statement");
            assert("type_identifier"@[1] != "throw_statement"@[1]);
            reveal_strlit("type_parameters");
            assert("type_identifier"@[5] != "type_parameters"@[5]);
        },
        JavaNodeType::BreakStatement => {
            reveal_strlit("break_statement");
            reveal_strlit("cast_expression");
            assert("break_statement"@[0] != "cast_expression"@[0]);
            reveal_strlit("throw_statement");
            assert("break_statement"@[0] != "throw_statement"@[0]);
            reveal_strlit("type_parameters");
            assert("break_statement"@[0] != "type_parameters"@[0]);
            reveal_strlit("type_identifier");
            assert("break_statement"@[0] != "type_identifier"@[0]);
        },
        JavaNodeType::WhileStatement => {
            reveal_strlit("while_statement");
            reveal_strlit("cast_expression");
            assert("while_statement"@[0] != "cast_expression"@[0]);
            reveal_strlit("throw_statement");
            assert("while_statement"@[0] != "throw_statement"@[0]);
            reveal_strlit("type_parameters");
            assert("while_statement"@[0] != "type_parameters"@[0]);
            reveal_strlit("type_identifier");
            assert("while_statement"@[0] != "type_identifier"@[0]);
            reveal_strlit("break_statement");
            assert("while_statement"@[0] != "break_statement"@[0]);
        },
        JavaNodeType::ReturnStatement => {
            reveal_strlit("return_statement");
        },
        JavaNodeType::FileOverwriting => {
            reveal_strlit("file_overwriting");
            reveal_strlit("return_statement");
            assert("file_overwriting"@[0] != "return_statement"@[0]);
        },
        JavaNodeType::AssertStatement => {
            reveal_strlit("assert_statement");
            reveal_strlit("return_statement");
            assert("assert_statement"@[0] != "return_statement"@[0]);
            reveal_strlit("file_overwriting");
            assert("assert_statement"@[0] != "file_overwriting"@[0]);
        },
        JavaNodeType::UnaryExpression => {
            reveal_strlit("unary_expression");
            reveal_strlit("return_statement");
            assert("unary_expression"@[0] != "return_statement"@[0]);
            reveal_strlit("file_overwriting");
            assert("unary_expression"@[0] != "file_overwriting"@[0]);
            reveal_strlit("assert_statement");
            assert("unary_expression"@[0] != "assert_statement"@[0]);
        },
        JavaNodeType::ConstructorBody => {
            reveal_strlit("constructor_body");
            reveal_strlit("return_statement");
            assert("constructor_body"@[0] != "return_statement"@[0]);
            reveal_strlit("file_overwriting");
            assert("constructor_body"@[0] != "file_overwriting"@[0]);
            reveal_strlit("assert_statement");
            assert("constructor_body"@[0] != "assert_statement"@[0]);
            reveal_strlit("unary_expression");
            assert("constructor_body"@[0] != "unary_expression"@[0]);
        },
        JavaNodeType::EnumDeclaration => {
            reveal_strlit("enum_declaration");
            reveal_strlit("return_statement");
            assert("enum_declaration"@[0] != "return_statement"@[0]);
            reveal_strlit("file_overwriting");
            assert("enum_declaration"@[0] != "file_overwriting"@[0]);
            reveal_strlit("assert_statement");
            assert("enum_declaration"@[0] != "assert_statement"@[0]);
            reveal_strlit("unary_expression");
            assert("enum_declaration"@[0] != "unary_expression"@[0]);
            reveal_strlit("constructor_body");
            assert("enum_declaration"@[0] != "constructor_body"@[0]);
        },
        JavaNodeType::SuperInterfaces => {
            reveal_strlit("super_interfaces");
            reveal_strlit("return_statement");
            assert("super_interfaces"@[0] != "return_statement"@[0]);
            reveal_strlit("file_overwriting");
            assert("super_interfaces"@[0] != "file_overwriting"@[0]);
            reveal_strlit("assert_statement");
            assert("super_interfaces"@[0] != "assert_statement"@[0]);
            reveal_strlit("unary_expression");
            assert("super_interfaces"@[0] != "unary_expression"@[0]);
            reveal_strlit("constructor_body");
            assert("super_interfaces"@[0] != "constructor_body"@[0]);
            reveal_strlit("enum_declaration");
            assert("super_interfaces"@[0] != "enum_declaration"@[0]);
        },
        JavaNodeType::FormalParam => {
            reveal_strlit("formal_parameter");
            reveal_strlit("return_statement");
            assert("formal_parameter"@[0] != "return_statement"@[0]);
            reveal_strlit("file_overwriting");
            assert("formal_parameter"@[1] != "file_overwriting"@[1]);
            reveal_strlit("assert_statement");
            assert("formal_parameter"@[0] != "assert_statement"@[0]);
            reveal_strlit("unary_expression");
            assert("formal_parameter"@[0] != "unary_expression"@[0]);
            reveal_strlit("constructor_body");
            assert("formal_parameter"@[0] != "constructor_body"@[0]);
            reveal_strlit("enum_declaration");
            assert("formal_parameter"@[0] != "enum_declaration"@[0]);
            reveal_strlit("super_interfaces");
            assert("formal_parameter"@[0] != "super_interfaces"@[0]);
        },
        JavaNodeType::MethodReference => {
            reveal_strlit("method_reference");
            reveal_strlit("return_statement");
            assert("method_reference"@[0] != "return_statement"@[0]);
            reveal_strlit("file_overwriting");
            assert("method_reference"@[0] != "file_overwriting"@[0]);
            reveal_strlit("assert_statement");
            assert("method_reference"@[0] != "assert_statement"@[0]);
            reveal_strlit("unary_expression");
            assert("method_reference"@[0] != "unary_expression"@[0]);
            reveal_strlit("constructor_body");
            assert("method_reference"@[0] != "constructor_body"@[0]);
            reveal_strlit("enum_declaration");
            assert("method_reference"@[0] != "enum_declaration"@[0]);
            reveal_strlit("super_interfaces");
            assert("method_reference"@[0] != "super_interfaces"@[0]);
            reveal_strlit("formal_parameter");
            assert("method_reference"@[0] != "formal_parameter"@[0]);
        },
        JavaNodeType::SpreadParameter => {
            reveal_strlit("spread_parameter");
            reveal_strlit("return_statement");
            assert("spread_parameter"@[0] != "return_statement"@[0]);
            reveal_strlit("file_overwriting");
            assert("spread_parameter"@[0] != "file_overwriting"@[0]);
            reveal_strlit("assert_statement");
            assert("spread_parameter"@[0] != "assert_statement"@[0]);
            reveal_strlit("unary_expression");
            assert("spread_parameter"@[0] != "unary_expression"@[0]);
            reveal_strlit("constructor_body");
            assert("spread_parameter"@[0] != "constructor_body"@[0]);
            reveal_strlit("enum_declaration");
            assert("spread_parameter"@[0] != "enum_declaration"@[0]);
            reveal_strlit("super_interfaces");
            assert("spread_parameter"@[1] != "super_interfaces"@[1]);
            reveal_strlit("formal_parameter");
            assert("spread_parameter"@[0] != "formal_parameter"@[0]);
            reveal_strlit("method_reference");
            assert("spread_parameter"@[0] != "method_reference"@[0]);
        },
        JavaNodeType::SwitchStatement => {
            reveal_strlit("switch_statement");
            reveal_strlit("return_statement");
            assert("switch_statement"@[0] != "return_statement"@[0]);
            reveal_strlit("file_overwriting");
            assert("switch_statement"@[0] != "file_overwriting"@[0]);
            reveal_strlit("assert_statement");
            assert("switch_statement"@[0] != "assert_statement"@[0]);
            reveal_strlit("unary_expression");
            assert("switch_statement"@[0] != "unary_expression"@[0]);
            reveal_strlit("constructor_body");
            assert("switch_statement"@[0] != "constructor_body"@[0]);
            reveal_strlit("enum_declaration");
            assert("switch_statement"@[0] != "enum_declaration"@[0]);
            reveal_strlit("super_interfaces");
            assert("switch_statement"@[1] != "super_interfaces"@[1]);
            reveal_strlit("formal_parameter");
            assert("switch_statement"@[0] != "formal_parameter"@[0]);
            reveal_strlit("method_reference");
            assert("switch_statement"@[0] != "method_reference"@[0]);
            reveal_strlit("spread_parameter");
            assert("switch_statement"@[1] != "spread_parameter"@[1]);
        },
        JavaNodeType::ScopedIdentifier => {
            reveal_strlit("scoped_identifier");
        },
        JavaNodeType::MethodInvocation => {
            reveal_strlit("method_invocation");
            reveal_strlit("scoped_identifier");
            assert("method_invocation"@[0] != "scoped_identifier"@[0]);
        },
        JavaNodeType::BinaryExpression => {
            reveal_strlit("binary_expression");
            reveal_strlit("scoped_identifier");
            assert("binary_expression"@[0] != "scoped_identifier"@[0]);
            reveal_strlit("method_invocation");
            assert("binary_expression"@[0] != "method_invocation"@[0]);
        },
        JavaNodeType::LambdaExpression => {
            reveal_strlit("lambda_expression");
            reveal_strlit("scoped_identifier");
            assert("lambda_expression"@[0] != "scoped_identifier"@[0]);
            reveal_strlit("method_invocation");
            assert("lambda_expression"@[0] != "method_invocation"@[0]);
            reveal_strlit("binary_expression");
            assert("lambda_expression"@[0] != "binary_expression"@[0]);
        },
        JavaNodeType::FieldDeclaration => {
            reveal_strlit("field_declaration");
            reveal_strlit("scoped_identifier");
            assert("field_declaration"@[0] != "scoped_identifier"@[0]);
            reveal_strlit("method_invocation");
            assert("field_declaration"@[0] != "method_invocation"@[0]);
            reveal_strlit("binary_expression");
            assert("field_declaration"@[0] != "binary_expression"@[0]);
            reveal_strlit("lambda_expression");
            assert("field_declaration"@[0] != "lambda_expression"@[0]);
        },
        JavaNodeType::CharacterLiteral => {
            reveal_strlit("character_literal");
            reveal_strlit("scoped_identifier");
            assert("character_literal"@[0] != "scoped_identifier"@[0]);
            reveal_strlit("method_invocation");
            assert("character_literal"@[0] != "method_invocation"@[0]);
            reveal_strlit("binary_expression");
            assert("character_literal"@[0] != "binary_expression"@[0]);
            reveal_strlit("lambda_expression");
            assert("character_literal"@[0] != "lambda_expression"@[0]);
            reveal_strlit("field_declaration");
            assert("character_literal"@[0] != "field_declaration"@[0]);
        },
        JavaNodeType::ArrayInitializer => {
            reveal_strlit("array_initializer");
            reveal_strlit("scoped_identifier");
            assert("array_initializer"@[0] != "scoped_identifier"@[0]);
            reveal_strlit("method_invocation");
            assert("array_initializer"@[0] != "method_invocation"@[0]);
            reveal_strlit("binary_expression");
            assert("array_initializer"@[0] != "binary_expression"@[0]);
            reveal_strlit("lambda_expression");
            assert("array_initializer"@[0] != "lambda_expression"@[0]);
            reveal_strlit("field_declaration");
            assert("array_initializer"@[0] != "field_declaration"@[0]);
            reveal_strlit("character_literal");
            assert("array_initializer"@[0] != "character_literal"@[0]);
        },
        JavaNodeType::ClassDecl => {
            reveal_strlit("class_declaration");
            reveal_strlit("scoped_identifier");
            assert("class_declaration"@[0] != "scoped_identifier"@[0]);
            reveal_strlit("method_invocation");
            assert("class_declaration"@[0] != "method_invocation"@[0]);
            reveal_strlit("binary_expression");
            assert("class_declaration"@[0] != "binary_expression"@[0]);
            reveal_strlit("lambda_expression");
            assert("class_declaration"@[0] != "lambda_expression"@[0]);
            reveal_strlit("field_declaration");
            assert("class_declaration"@[0] != "field_declaration"@[0]);
            reveal_strlit("character_literal");
            assert("class_declaration"@[1] != "character_literal"@[1]);
            reveal_strlit("array_initializer");
            assert("class_declaration"@[0] != "array_initializer"@[0]);
        },
        JavaNodeType::MarkerAnnotation => {
            reveal_strlit("marker_annotation");
            reveal_strlit("scoped_identifier");
            assert("marker_annotation"@[0] != "scoped_identifier"@[0]);
            reveal_strlit("method_invocation");
            assert("marker_annotation"@[1] != "method_invocation"@[1]);
            reveal_strlit("binary_expression");
            assert("marker_annotation"@[0] != "binary_expression"@[0]);
            reveal_strlit("lambda_expression");
            assert("marker_annotation"@[0] != "lambda_expression"@[0]);
            reveal_strlit("field_declaration");
            assert("marker_annotation"@[0] != "field_declaration"@[0]);
            reveal_strlit("character_literal");
            assert("marker_annotation"@[0] != "character_literal"@[0]);
            reveal_strlit("array_initializer");
            assert("marker_annotation"@[0] != "array_initializer"@[0]);
            reveal_strlit("class_declaration");
            assert("marker_annotation"@[0] != "class_declaration"@[0]);
        },
        JavaNodeType::FormalParams => {
            reveal_strlit("formal_parameters");
            reveal_strlit("scoped_identifier");
            assert("formal_parameters"@[0] != "scoped_identifier"@[0]);
            reveal_strlit("method_invocation");
            assert("formal_parameters"@[0] != "method_invocation"@[0]);
            reveal_strlit("binary_expression");
            assert("formal_parameters"@[0] != "binary_expression"@[0]);
            reveal_strlit("lambda_expression");
            assert("formal_parameters"@[0] != "lambda_expression"@[0]);
            reveal_strlit("field_declaration");
            assert("formal_parameters"@[1] != "field_declaration"@[1]);
            reveal_strlit("character_literal");
            assert("formal_parameters"@[0] != "character_literal"@[0]);
            reveal_strlit("array_initializer");
            assert("formal_parameters"@[0] != "array_initializer"@[0]);
            reveal_strlit("class_declaration");
            assert("formal_parameters"@[0] != "class_declaration"@[0]);
            reveal_strlit("marker_annotation");
            assert("formal_parameters"@[0] != "marker_annotation"@[0]);
        },
        JavaNodeType::SpreadParameters => {
            reveal_strlit("spread_parameters");
            reveal_strlit("scoped_identifier");
            assert("spread_parameters"@[1] != "scoped_identifier"@[1]);
            reveal_strlit("method_invocation");
            assert("spread_parameters"@[0] != "method_invocation"@[0]);
            reveal_strlit("binary_expression");
            assert("spread_parameters"@[0] != "binary_expression"@[0]);
            reveal_strlit("lambda_expression");
            assert("spread_parameters"@[0] != "lambda_expression"@[0]);
            reveal_strlit("field_declaration");
            assert("spread_parameters"@[0] != "field_declaration"@[0]);
            reveal_strlit("character_literal");
            assert("spread_parameters"@[0] != "character_literal"@[0]);
            reveal_strlit("array_initializer");
            assert("spread_parameters"@[0] != "array_initializer"@[0]);
            reveal_strlit("class_declaration");
            assert("spread_parameters"@[0] != "class_declaration"@[0]);
            reveal_strlit("marker_annotation");
            assert("spread_parameters"@[0] != "marker_annotation"@[0]);
            reveal_strlit("formal_parameters");
            assert("spread_parameters"@[0] != "formal_parameters"@[0]);
        },
        JavaNodeType::SwitchExpression => {
            reveal_strlit("switch_expression");
            reveal_strlit("scoped_identifier");
            assert("switch_expression"@[1] != "scoped_identifier"@[1]);
            reveal_strlit("method_invocation");
            assert("switch_expression"@[0] != "method_invocation"@[0]);
            reveal_strlit("binary_expression");
            assert("switch_expression"@[0] != "binary_expression"@[0]);
            reveal_strlit("lambda_expression");
            assert("switch_expression"@[0] != "lambda_expression"@[0]);
            reveal_strlit("field_declaration");
            assert("switch_expression"@[0] != "field_declaration"@[0]);
            reveal_strlit("character_literal");
            assert("switch_expression"@[0] != "character_literal"@[0]);
            reveal_strlit("array_initializer");
            assert("switch_expression"@[0] != "array_initializer"@[0]);
            reveal_strlit("class_declaration");
            assert("switch_expression"@[0] != "class_declaration"@[0]);
            reveal_strlit("marker_annotation");
            assert("switch_expression"@[0] != "marker_annotation"@[0]);
            reveal_strlit("formal_parameters");
            assert("switch_expression"@[0] != "formal_parameters"@[0]);
            reveal_strlit("spread_parameters");
            assert("switch_expression"@[1] != "spread_parameters"@[1]);
        },
        JavaNodeType::UpdateExpression => {
            reveal_strlit("update_expression");
            reveal_strlit("scoped_identifier");
            assert("update_expression"@[0] != "scoped_identifier"@[0]);
            reveal_strlit("method_invocation");
            assert("update_expression"@[0] != "method_invocation"@[0]);
            reveal_strlit("binary_expression");
            assert("update_expression"@[0] != "binary_expression"@[0]);
            reveal_strlit("lambda_expression");
            assert("update_expression"@[0] != "lambda_expression"@[0]);
            reveal_strlit("field_declaration");
            assert("update_expression"@[0] != "field_declaration"@[0]);
            reveal_strlit("character_literal");
            assert("update_expression"@[0] != "character_literal"@[0]);
            reveal_strlit("array_initializer");
            assert("update_expression"@[0] != "array_initializer"@[0]);
            reveal_strlit("class_declaration");
            assert("update_expression"@[0] != "class_declaration"@[0]);
            reveal_strlit("marker_annotation");
            assert("update_expression"@[0] != "marker_annotation"@[0]);
            reveal_strlit("formal_parameters");
            assert("update_expression"@[0] != "formal_parameters"@[0]);
            reveal_strlit("spread_parameters");
            assert("update_expression"@[0] != "spread_parameters"@[0]);
            reveal_strlit("switch_expression");
            assert("update_expression"@[0] != "switch_expression"@[0]);
        },
        JavaNodeType::ImportDecl => {
            reveal_strlit("import_declaration");
        },
        JavaNodeType::TernaryExpression => {
            reveal_strlit("ternary_expression");
            reveal_strlit("import_declaration");
            assert("ternary_expression"@[0] != "import_declaration"@[0]);
        },
        JavaNodeType::RecordDeclaration => {
            reveal_strlit("record_declaration");
            reveal_strlit("import_declaration");
            assert("record_declaration"@[0] != "import_declaration"@[0]);
            reveal_strlit("ternary_expression");
            assert("record_declaration"@[0] != "ternary_expression"@[0]);
        },
        JavaNodeType::ElementValuePair => {
            reveal_strlit("element_value_pair");
            reveal_strlit("import_declaration");
            assert("element_value_pair"@[0] != "import_declaration"@[0]);
            reveal_strlit("ternary_expression");
            assert("element_value_pair"@[0] != "ternary_expression"@[0]);
            reveal_strlit("record_declaration");
            assert("element_value_pair"@[0] != "record_declaration"@[0]);
        },
        JavaNodeType::MethodDecl => {
            reveal_strlit("method_declaration");
            reveal_strlit("import_declaration");
            assert("method_declaration"@[0] != "import_declaration"@[0]);
            reveal_strlit("ternary_expression");
            assert("method_declaration"@[0] != "ternary_expression"@[0]);
            reveal_strlit("record_declaration");
            assert("method_declaration"@[0] != "record_declaration"@[0]);
            reveal_strlit("element_value_pair");
            assert("method_declaration"@[0] != "element_value_pair"@[0]);
        },
        JavaNodeType::ContinueStatement => {
            reveal_strlit("continue_statement");
            reveal_strlit("import_declaration");
            assert("continue_statement"@[0] != "import_declaration"@[0]);
            reveal_strlit("ternary_expression");
            assert("continue_statement"@[0] != "ternary_expression"@[0]);
            reveal_strlit("record_declaration");
            assert("continue_statement"@[0] != "record_declaration"@[0]);
            reveal_strlit("element_value_pair");
            assert("continue_statement"@[0] != "element_value_pair"@[0]);
            reveal_strlit("method_declaration");
            assert("continue_statement"@[0] != "method_declaration"@[0]);
        },
        JavaNodeType::PackageDecl => {
            reveal_strlit("package_declaration");
        },
        JavaNodeType::FloatingPointType => {
            reveal_strlit("floating_point_type");
            reveal_strlit("package_declaration");
            assert("floating_point_type"@[0] != "package_declaration"@[0]);
        },
        JavaNodeType::InterfaceTypeList => {
            reveal_strlit("interface_type_list");
            reveal_strlit("package_declaration");
            assert("interface_type_list"@[0] != "package_declaration"@[0]);
            reveal_strlit("floating_point_type");
            assert("interface_type_list"@[0] != "floating_point_type"@[0]);
        },
        JavaNodeType::VariableDeclarator => {
            reveal_strlit("variable_declarator");
            reveal_strlit("package_declaration");
            assert("variable_declarator"@[0] != "package_declaration"@[0]);
            reveal_strlit("floating_point_type");
            assert("variable_declarator"@[0] != "floating_point_type"@[0]);
            reveal_strlit("interface_type_list");
            assert("variable_declarator"@[0] != "interface_type_list"@[0]);
        },
        JavaNodeType::StatementExpr => {
            reveal_strlit("expression_statement");
        },
        JavaNodeType::AnnotationTypeBody => {
            reveal_strlit("annotation_type_body");
            reveal_strlit("expression_statement");
            assert("annotation_type_body"@[0] != "expression_statement"@[0]);
        },
        JavaNodeType::AssignmentExpression => {
            reveal_strlit("assignment_expression");
        },
        JavaNodeType::InstanceofExpression => {
            reveal_strlit("instanceof_expression");
            reveal_strlit("assignment_expression");
            assert("instanceof_expression"@[0] != "assignment_expression"@[0]);
        },
        JavaNodeType::InterfaceDeclaration => {
            reveal_strlit("interface_declaration");
            reveal_strlit("assignment_expression");
            assert("interface_declaration"@[0] != "assignment_expression"@[0]);
            reveal_strlit("instanceof_expression");
            assert("interface_declaration"@[2] != "instanceof_expression"@[2]);
        },
        JavaNodeType::CatchFormalParameter => {
            reveal_strlit("catch_formal_parameter");
        },
        JavaNodeType::ScopedTypeIdentifier => {
            reveal_strlit("scoped_type_identifier");
            reveal_strlit("catch_formal_parameter");
            assert("scoped_type_identifier"@[0] != "catch_formal_parameter"@[0]);
        },
        JavaNodeType::EnhancedForStatement => {
            reveal_strlit("enhanced_for_statement");
            reveal_strlit("catch_formal_parameter");
            assert("enhanced_for_statement"@[0] != "catch_formal_parameter"@[0]);
            reveal_strlit("scoped_type_identifier");
            assert("enhanced_for_statement"@[0] != "scoped_type_identifier"@[0]);
        },
        JavaNodeType::DecimalIntegerLiteral => {
            reveal_strlit("decimal_integer_literal");
        },
        JavaNodeType::ConstructorDeclaration => {
            reveal_strlit("constructor_declaration");
            reveal_strlit("decimal_integer_literal");
            assert("constructor_declaration"@[0] != "decimal_integer_literal"@[0]);
        },
        JavaNodeType::ParenthesizedExpr => {
            reveal_strlit("parenthesized_expression");
        },
        JavaNodeType::AnnotationArgumentList => {
            reveal_strlit("annotation_argument_list");
            reveal_strlit("parenthesized_expression");
            assert("annotation_argument_list"@[0] != "parenthesized_expression"@[0]);
        },
        JavaNodeType::ObjectCreationExpression => {
            reveal_strlit("object_creation_expression");
        },
        JavaNodeType::LocalVarDecl => {
            reveal_strlit("local_variable_declaration");
            reveal_strlit("object_creation_expression");
            assert("local_variable_declaration"@[0] != "object_creation_expression"@[0]);
        },
        JavaNodeType::AnnotationTypeDeclaration => {
            reveal_strlit("annotation_type_declaration");
        },
        JavaNodeType::SwitchBlockStatementGroup => {
            reveal_strlit("switch_block_statement_group");
        },
        JavaNodeType::DecimalFloatingPointLiteral => {
            reveal_strlit("decimal_floating_point_literal");
        },
        JavaNodeType::ExplicitConstructorInvocation => {
            reveal_strlit("explicit_constructor_invocation");
        },
    }
}

/// Two node kinds with one grammar name are one kind.
pub proof fn lemma_kind_name_injective(a: JavaNodeType, b: JavaNodeType)
    requires
        spec_kind_name(a) == spec_kind_name(b),
    ensures
        a == b,
{
    lemma_kind_of_name(a);
    lemma_kind_of_name(b);
}

/// The node kind that the grammar name `name` names, if any.
pub open spec fn spec_kind_named(name: Seq<char>) -> Option<JavaNodeType> {
    if exists|t: JavaNodeType| spec_kind_name(t) == name {
        Some(choose|t: JavaNodeType| spec_kind_name(t) == name)
    } else {
        None
    }
}

impl JavaNodeType {
    /// The node kind that the Java grammar names `input`, or an error when it names none.
    pub fn from_str(input: &str) -> (r: Result<JavaNodeType, ()>)
        ensures
            r matches Ok(t) ==> spec_kind_name(t) == input@,
            r is Err ==> forall|t: JavaNodeType| spec_kind_name(t) != input@,
            forall|t: JavaNodeType| spec_kind_name(t) == input@ ==> r == Ok::<JavaNodeType, ()>(t),
            r == match spec_kind_named(input@) {
                Some(t) => Ok::<JavaNodeType, ()>(t),
                None => Err(()),
            },
    {
        proof {
            if exists|t: JavaNodeType| spec_kind_name(t) == input@ {
                let c = choose|t: JavaNodeType| spec_kind_name(t) == input@;
                assert forall|u: JavaNodeType| spec_kind_name(u) == input@ implies u == c by {
                    lemma_kind_name_injective(u, c);
                }
            }
            assert forall|t: JavaNodeType| spec_kind_name(t) == input@ implies forall|u: JavaNodeType|
                spec_kind_name(u) == input@ ==> u == t by {
                assert forall|u: JavaNodeType| spec_kind_name(u) == input@ implies u == t by {
                    lemma_kind_name_injective(u, t);
                }
            }
        }
        if let Some(t) = kind_in_group_modularization(input) {
            return Ok(t);
        }
        if let Some(t) = kind_in_group_expressions(input) {
            return Ok(t);
        }
        if let Some(t) = kind_in_group_exceptions(input) {
            return Ok(t);
        }
        if let Some(t) = kind_in_group_literals(input) {
            return Ok(t);
        }
        if let Some(t) = kind_in_group_class(input) {
            return Ok(t);
        }
        if let Some(t) = kind_in_group_enum(input) {
            return Ok(t);
        }
        if let Some(t) = kind_in_group_interface(input) {
            return Ok(t);
        }
        if let Some(t) = kind_in_group_annotations(input) {
            return Ok(t);
        }
        if let Some(t) = kind_in_group_method(input) {
            return Ok(t);
        }
        if let Some(t) = kind_in_group_types(input) {
            return Ok(t);
        }
        if let Some(t) = kind_in_group_visibility(input) {
            return Ok(t);
        }
        if let Some(t) = kind_in_group_simple_signs(input) {
            return Ok(t);
        }
        if let Some(t) = kind_in_group_comments(input) {
            return Ok(t);
        }
        if let Some(t) = kind_in_group_control_flow(input) {
            return Ok(t);
        }
        if let Some(t) = kind_in_group_mathematical_operators(input) {
            return Ok(t);
        }
        if let Some(t) = kind_in_group_brackets(input) {
            return Ok(t);
        }
        assert forall|t: JavaNodeType| spec_kind_name(t) != input@ by {
            assert(0 <= spec_kind_group(t) < 16);
        }
        Err(())
    }

    /// Whether the kind declares a class, an interface, an enum or a record.
    pub fn is_structure(&self) -> (r: bool)
        ensures
            r == (*self == JavaNodeType::ClassDecl || *self == JavaNodeType::InterfaceDeclaration
                || *self == JavaNodeType::EnumDeclaration || *self == JavaNodeType::RecordDeclaration),
    {
        let unreferenced = *self;
        JavaNodeType::ClassDecl == unreferenced || JavaNodeType::InterfaceDeclaration
            == unreferenced || JavaNodeType::EnumDeclaration == unreferenced
            || JavaNodeType::RecordDeclaration == unreferenced
    }

    /// Whether the kind names a type by an identifier, plain or scoped.
    pub fn is_data_type_id_identifier(&self) -> (r: bool)
        ensures
            r == (*self == JavaNodeType::TypeIdentifier || *self == JavaNodeType::ScopedTypeIdentifier),
    {
        &JavaNodeType::TypeIdentifier == self || &JavaNodeType::ScopedTypeIdentifier == self
    }
}

/// Whether the kind is one of the visibility modifiers.
pub open spec fn spec_is_visibility_type(t: JavaNodeType) -> bool {
    t == JavaNodeType::Private || t == JavaNodeType::Public || t == JavaNodeType::Protected
}

/// Whether the optional kind is one of the visibility modifiers.
pub fn is_visibility(node_type_opt: &Option<JavaNodeType>) -> (r: bool)
    ensures
        r == (*node_type_opt matches Some(t) && spec_is_visibility_type(t)),
{
    if let Some(node_type) = node_type_opt {
        return &JavaNodeType::Private == node_type || &JavaNodeType::Public == node_type
            || &JavaNodeType::Protected == node_type;
    }
    false
}

} // verus!
