//! The kind tags of the grammar.
//!
//! Every element of a syntax tree carries one tag of this closed
//! enumeration. The tree stores a tag as a `u16`; the mapping between the two
//! is a bijection on the tags, and every other number stands for
//! [`SyntaxKind::Unknown`].

use vstd::prelude::*;

verus! {

/// The kind of a token or node of a syntax tree.
#[derive(Clone, Copy, Debug, PartialEq, Eq, Hash, Structural)]
pub enum SyntaxKind {
    /// An unknown token.
    Unknown,
    /// A run of source that the parser skipped.
    Unparsed,
    /// Whitespace between tokens.
    Whitespace,
    /// A comment.
    Comment,
    /// A version number.
    Version,
    /// A literal float.
    Float,
    /// A literal integer.
    Integer,
    /// An identifier.
    Ident,
    /// A single quote.
    SingleQuote,
    /// A double quote.
    DoubleQuote,
    /// The opening delimiter of a heredoc.
    OpenHeredoc,
    /// The closing delimiter of a heredoc.
    CloseHeredoc,
    /// The `Array` type keyword.
    ArrayTypeKeyword,
    /// The `Boolean` type keyword.
    BooleanTypeKeyword,
    /// The `File` type keyword.
    FileTypeKeyword,
    /// The `Float` type keyword.
    FloatTypeKeyword,
    /// The `Int` type keyword.
    IntTypeKeyword,
    /// The `Map` type keyword.
    MapTypeKeyword,
    /// The `Object` type keyword.
    ObjectTypeKeyword,
    /// The `Pair` type keyword.
    PairTypeKeyword,
    /// The `String` type keyword.
    StringTypeKeyword,
    /// The `after` keyword.
    AfterKeyword,
    /// The `alias` keyword.
    AliasKeyword,
    /// The `as` keyword.
    AsKeyword,
    /// The `call` keyword.
    CallKeyword,
    /// The `command` keyword.
    CommandKeyword,
    /// The `else` keyword.
    ElseKeyword,
    /// The `false` keyword.
    FalseKeyword,
    /// The `if` keyword.
    IfKeyword,
    /// The `in` keyword.
    InKeyword,
    /// The `import` keyword.
    ImportKeyword,
    /// The `input` keyword.
    InputKeyword,
    /// The `meta` keyword.
    MetaKeyword,
    /// The `None` keyword.
    NoneKeyword,
    /// The `null` keyword.
    NullKeyword,
    /// The `object` keyword.
    ObjectKeyword,
    /// The `output` keyword.
    OutputKeyword,
    /// The `parameter_meta` keyword.
    ParameterMetaKeyword,
    /// The `runtime` keyword.
    RuntimeKeyword,
    /// The `scatter` keyword.
    ScatterKeyword,
    /// The `struct` keyword.
    StructKeyword,
    /// The `task` keyword.
    TaskKeyword,
    /// The `then` keyword.
    ThenKeyword,
    /// The `true` keyword.
    TrueKeyword,
    /// The `version` keyword.
    VersionKeyword,
    /// The `workflow` keyword.
    WorkflowKeyword,
    /// The `Directory` type keyword.
    DirectoryTypeKeyword,
    /// The `hints` keyword.
    HintsKeyword,
    /// The `requirements` keyword.
    RequirementsKeyword,
    /// The `{` symbol.
    OpenBrace,
    /// The `}` symbol.
    CloseBrace,
    /// The `[` symbol.
    OpenBracket,
    /// The `]` symbol.
    CloseBracket,
    /// The `=` symbol.
    Assignment,
    /// The `:` symbol.
    Colon,
    /// The `,` symbol.
    Comma,
    /// The `(` symbol.
    OpenParen,
    /// The `)` symbol.
    CloseParen,
    /// The `?` symbol.
    QuestionMark,
    /// The `!` symbol.
    Exclamation,
    /// The `+` symbol.
    Plus,
    /// The `-` symbol.
    Minus,
    /// The `||` symbol.
    LogicalOr,
    /// The `&&` symbol.
    LogicalAnd,
    /// The `*` symbol.
    Asterisk,
    /// The `**` symbol.
    Exponentiation,
    /// The `/` symbol.
    Slash,
    /// The `%` symbol.
    Percent,
    /// The `==` symbol.
    Equal,
    /// The `!=` symbol.
    NotEqual,
    /// The `<=` symbol.
    LessEqual,
    /// The `>=` symbol.
    GreaterEqual,
    /// The `<` symbol.
    Less,
    /// The `>` symbol.
    Greater,
    /// The `.` symbol.
    Dot,
    /// Literal text inside a string.
    LiteralStringText,
    /// Literal text inside a command.
    LiteralCommandText,
    /// The opening delimiter of a placeholder.
    PlaceholderOpen,
    /// A node that the parser abandoned.
    Abandoned,
    /// The root of a document.
    RootNode,
    /// A version statement.
    VersionStatementNode,
    /// An import statement.
    ImportStatementNode,
    /// An import alias.
    ImportAliasNode,
    /// A struct definition.
    StructDefinitionNode,
    /// A task definition.
    TaskDefinitionNode,
    /// A workflow definition.
    WorkflowDefinitionNode,
    /// A declaration without an expression.
    UnboundDeclNode,
    /// A declaration with an expression.
    BoundDeclNode,
    /// An input section.
    InputSectionNode,
    /// An output section.
    OutputSectionNode,
    /// A command section.
    CommandSectionNode,
    /// A requirements section.
    RequirementsSectionNode,
    /// An item of a requirements section.
    RequirementsItemNode,
    /// A hints section.
    HintsSectionNode,
    /// An item of a hints section.
    HintsItemNode,
    /// A runtime section.
    RuntimeSectionNode,
    /// An item of a runtime section.
    RuntimeItemNode,
    /// A primitive type.
    PrimitiveTypeNode,
    /// A map type.
    MapTypeNode,
    /// An array type.
    ArrayTypeNode,
    /// A pair type.
    PairTypeNode,
    /// An object type.
    ObjectTypeNode,
    /// A reference to a named type.
    TypeRefNode,
    /// A metadata section.
    MetadataSectionNode,
    /// A parameter metadata section.
    ParameterMetadataSectionNode,
    /// An item of a metadata object or section.
    MetadataObjectItemNode,
    /// A metadata object.
    MetadataObjectNode,
    /// A metadata array.
    MetadataArrayNode,
    /// A literal integer.
    LiteralIntegerNode,
    /// A literal float.
    LiteralFloatNode,
    /// A literal boolean.
    LiteralBooleanNode,
    /// A literal `None`.
    LiteralNoneNode,
    /// A literal `null`.
    LiteralNullNode,
    /// A literal string.
    LiteralStringNode,
    /// A literal pair.
    LiteralPairNode,
    /// A literal array.
    LiteralArrayNode,
    /// A literal map.
    LiteralMapNode,
    /// An item of a literal map.
    LiteralMapItemNode,
    /// A literal object.
    LiteralObjectNode,
    /// An item of a literal object.
    LiteralObjectItemNode,
    /// A literal struct.
    LiteralStructNode,
    /// An item of a literal struct.
    LiteralStructItemNode,
    /// A placeholder in a string or command.
    PlaceholderNode,
    /// The `sep` option of a placeholder.
    PlaceholderSepOptionNode,
    /// The `default` option of a placeholder.
    PlaceholderDefaultOptionNode,
    /// The `true`/`false` option of a placeholder.
    PlaceholderTrueFalseOptionNode,
    /// A conditional statement.
    ConditionalStatementNode,
    /// A scatter statement.
    ScatterStatementNode,
    /// A call statement.
    CallStatementNode,
    /// The target of a call statement.
    CallTargetNode,
    /// The alias of a call statement.
    CallAliasNode,
    /// An `after` clause of a call statement.
    CallAfterNode,
    /// An input item of a call statement.
    CallInputItemNode,
    /// A parenthesized expression.
    ParenthesizedExprNode,
    /// A reference to a name.
    NameRefNode,
    /// An `if` expression.
    IfExprNode,
    /// A logical negation.
    LogicalNotExprNode,
    /// An arithmetic negation.
    NegationExprNode,
    /// A logical disjunction.
    LogicalOrExprNode,
    /// A logical conjunction.
    LogicalAndExprNode,
    /// An equality comparison.
    EqualityExprNode,
    /// An inequality comparison.
    InequalityExprNode,
    /// A less-than comparison.
    LessExprNode,
    /// A less-than-or-equal comparison.
    LessEqualExprNode,
    /// A greater-than comparison.
    GreaterExprNode,
    /// A greater-than-or-equal comparison.
    GreaterEqualExprNode,
    /// An addition.
    AdditionExprNode,
    /// A subtraction.
    SubtractionExprNode,
    /// A multiplication.
    MultiplicationExprNode,
    /// A division.
    DivisionExprNode,
    /// A remainder.
    ModuloExprNode,
    /// An exponentiation.
    ExponentiationExprNode,
    /// A function call.
    CallExprNode,
    /// An index expression.
    IndexExprNode,
    /// A member access.
    AccessExprNode,
}

impl SyntaxKind {
    /// The number under which the tree stores this kind.
    pub open spec fn raw(self) -> u16 {
        match self {
            SyntaxKind::Unknown => 0,
            SyntaxKind::Unparsed => 1,
            SyntaxKind::Whitespace => 2,
            SyntaxKind::Comment => 3,
            SyntaxKind::Version => 4,
            SyntaxKind::Float => 5,
            SyntaxKind::Integer => 6,
            SyntaxKind::Ident => 7,
            SyntaxKind::SingleQuote => 8,
            SyntaxKind::DoubleQuote => 9,
            SyntaxKind::OpenHeredoc => 10,
            SyntaxKind::CloseHeredoc => 11,
            SyntaxKind::ArrayTypeKeyword => 12,
            SyntaxKind::BooleanTypeKeyword => 13,
            SyntaxKind::FileTypeKeyword => 14,
            SyntaxKind::FloatTypeKeyword => 15,
            SyntaxKind::IntTypeKeyword => 16,
            SyntaxKind::MapTypeKeyword => 17,
            SyntaxKind::ObjectTypeKeyword => 18,
            SyntaxKind::PairTypeKeyword => 19,
            SyntaxKind::StringTypeKeyword => 20,
            SyntaxKind::AfterKeyword => 21,
            SyntaxKind::AliasKeyword => 22,
            SyntaxKind::AsKeyword => 23,
            SyntaxKind::CallKeyword => 24,
            SyntaxKind::CommandKeyword => 25,
            SyntaxKind::ElseKeyword => 26,
            SyntaxKind::FalseKeyword => 27,
            SyntaxKind::IfKeyword => 28,
            SyntaxKind::InKeyword => 29,
            SyntaxKind::ImportKeyword => 30,
            SyntaxKind::InputKeyword => 31,
            SyntaxKind::MetaKeyword => 32,
            SyntaxKind::NoneKeyword => 33,
            SyntaxKind::NullKeyword => 34,
            SyntaxKind::ObjectKeyword => 35,
            SyntaxKind::OutputKeyword => 36,
            SyntaxKind::ParameterMetaKeyword => 37,
            SyntaxKind::RuntimeKeyword => 38,
            SyntaxKind::ScatterKeyword => 39,
            SyntaxKind::StructKeyword => 40,
            SyntaxKind::TaskKeyword => 41,
            SyntaxKind::ThenKeyword => 42,
            SyntaxKind::TrueKeyword => 43,
            SyntaxKind::VersionKeyword => 44,
            SyntaxKind::WorkflowKeyword => 45,
            SyntaxKind::DirectoryTypeKeyword => 46,
            SyntaxKind::HintsKeyword => 47,
            SyntaxKind::RequirementsKeyword => 48,
            SyntaxKind::OpenBrace => 49,
            SyntaxKind::CloseBrace => 50,
            SyntaxKind::OpenBracket => 51,
            SyntaxKind::CloseBracket => 52,
            SyntaxKind::Assignment => 53,
            SyntaxKind::Colon => 54,
            SyntaxKind::Comma => 55,
            SyntaxKind::OpenParen => 56,
            SyntaxKind::CloseParen => 57,
            SyntaxKind::QuestionMark => 58,
            SyntaxKind::Exclamation => 59,
            SyntaxKind::Plus => 60,
            SyntaxKind::Minus => 61,
            SyntaxKind::LogicalOr => 62,
            SyntaxKind::LogicalAnd => 63,
            SyntaxKind::Asterisk => 64,
            SyntaxKind::Exponentiation => 65,
            SyntaxKind::Slash => 66,
            SyntaxKind::Percent => 67,
            SyntaxKind::Equal => 68,
            SyntaxKind::NotEqual => 69,
            SyntaxKind::LessEqual => 70,
            SyntaxKind::GreaterEqual => 71,
            SyntaxKind::Less => 72,
            SyntaxKind::Greater => 73,
            SyntaxKind::Dot => 74,
            SyntaxKind::LiteralStringText => 75,
            SyntaxKind::LiteralCommandText => 76,
            SyntaxKind::PlaceholderOpen => 77,
            SyntaxKind::Abandoned => 78,
            SyntaxKind::RootNode => 79,
            SyntaxKind::VersionStatementNode => 80,
            SyntaxKind::ImportStatementNode => 81,
            SyntaxKind::ImportAliasNode => 82,
            SyntaxKind::StructDefinitionNode => 83,
            SyntaxKind::TaskDefinitionNode => 84,
            SyntaxKind::WorkflowDefinitionNode => 85,
            SyntaxKind::UnboundDeclNode => 86,
            SyntaxKind::BoundDeclNode => 87,
            SyntaxKind::InputSectionNode => 88,
            SyntaxKind::OutputSectionNode => 89,
            SyntaxKind::CommandSectionNode => 90,
            SyntaxKind::RequirementsSectionNode => 91,
            SyntaxKind::RequirementsItemNode => 92,
            SyntaxKind::HintsSectionNode => 93,
            SyntaxKind::HintsItemNode => 94,
            SyntaxKind::RuntimeSectionNode => 95,
            SyntaxKind::RuntimeItemNode => 96,
            SyntaxKind::PrimitiveTypeNode => 97,
            SyntaxKind::MapTypeNode => 98,
            SyntaxKind::ArrayTypeNode => 99,
            SyntaxKind::PairTypeNode => 100,
            SyntaxKind::ObjectTypeNode => 101,
            SyntaxKind::TypeRefNode => 102,
            SyntaxKind::MetadataSectionNode => 103,
            SyntaxKind::ParameterMetadataSectionNode => 104,
            SyntaxKind::MetadataObjectItemNode => 105,
            SyntaxKind::MetadataObjectNode => 106,
            SyntaxKind::MetadataArrayNode => 107,
            SyntaxKind::LiteralIntegerNode => 108,
            SyntaxKind::LiteralFloatNode => 109,
            SyntaxKind::LiteralBooleanNode => 110,
            SyntaxKind::LiteralNoneNode => 111,
            SyntaxKind::LiteralNullNode => 112,
            SyntaxKind::LiteralStringNode => 113,
            SyntaxKind::LiteralPairNode => 114,
            SyntaxKind::LiteralArrayNode => 115,
            SyntaxKind::LiteralMapNode => 116,
            SyntaxKind::LiteralMapItemNode => 117,
            SyntaxKind::LiteralObjectNode => 118,
            SyntaxKind::LiteralObjectItemNode => 119,
            SyntaxKind::LiteralStructNode => 120,
            SyntaxKind::LiteralStructItemNode => 121,
            SyntaxKind::PlaceholderNode => 122,
            SyntaxKind::PlaceholderSepOptionNode => 123,
            SyntaxKind::PlaceholderDefaultOptionNode => 124,
            SyntaxKind::PlaceholderTrueFalseOptionNode => 125,
            SyntaxKind::ConditionalStatementNode => 126,
            SyntaxKind::ScatterStatementNode => 127,
            SyntaxKind::CallStatementNode => 128,
            SyntaxKind::CallTargetNode => 129,
            SyntaxKind::CallAliasNode => 130,
            SyntaxKind::CallAfterNode => 131,
            SyntaxKind::CallInputItemNode => 132,
            SyntaxKind::ParenthesizedExprNode => 133,
            SyntaxKind::NameRefNode => 134,
            SyntaxKind::IfExprNode => 135,
            SyntaxKind::LogicalNotExprNode => 136,
            SyntaxKind::NegationExprNode => 137,
            SyntaxKind::LogicalOrExprNode => 138,
            SyntaxKind::LogicalAndExprNode => 139,
            SyntaxKind::EqualityExprNode => 140,
            SyntaxKind::InequalityExprNode => 141,
            SyntaxKind::LessExprNode => 142,
            SyntaxKind::LessEqualExprNode => 143,
            SyntaxKind::GreaterExprNode => 144,
            SyntaxKind::GreaterEqualExprNode => 145,
            SyntaxKind::AdditionExprNode => 146,
            SyntaxKind::SubtractionExprNode => 147,
            SyntaxKind::MultiplicationExprNode => 148,
            SyntaxKind::DivisionExprNode => 149,
            SyntaxKind::ModuloExprNode => 150,
            SyntaxKind::ExponentiationExprNode => 151,
            SyntaxKind::CallExprNode => 152,
            SyntaxKind::IndexExprNode => 153,
            SyntaxKind::AccessExprNode => 154,
        }
    }

    /// The kind that a stored number stands for.
    #[verifier::opaque]
    pub open spec fn of_raw(raw: u16) -> SyntaxKind {
        if raw == 1 {
            SyntaxKind::Unparsed
        } else if raw == 2 {
            SyntaxKind::Whitespace
        } else if raw == 3 {
            SyntaxKind::Comment
        } else if raw == 4 {
            SyntaxKind::Version
        } else if raw == 5 {
            SyntaxKind::Float
        } else if raw == 6 {
            SyntaxKind::Integer
        } else if raw == 7 {
            SyntaxKind::Ident
        } else if raw == 8 {
            SyntaxKind::SingleQuote
        } else if raw == 9 {
            SyntaxKind::DoubleQuote
        } else if raw == 10 {
            SyntaxKind::OpenHeredoc
        } else if raw == 11 {
            SyntaxKind::CloseHeredoc
        } else if raw == 12 {
            SyntaxKind::ArrayTypeKeyword
        } else if raw == 13 {
            SyntaxKind::BooleanTypeKeyword
        } else if raw == 14 {
            SyntaxKind::FileTypeKeyword
        } else if raw == 15 {
            SyntaxKind::FloatTypeKeyword
        } else if raw == 16 {
            SyntaxKind::IntTypeKeyword
        } else if raw == 17 {
            SyntaxKind::MapTypeKeyword
        } else if raw == 18 {
            SyntaxKind::ObjectTypeKeyword
        } else if raw == 19 {
            SyntaxKind::PairTypeKeyword
        } else if raw == 20 {
            SyntaxKind::StringTypeKeyword
        } else if raw == 21 {
            SyntaxKind::AfterKeyword
        } else if raw == 22 {
            SyntaxKind::AliasKeyword
        } else if raw == 23 {
            SyntaxKind::AsKeyword
        } else if raw == 24 {
            SyntaxKind::CallKeyword
        } else if raw == 25 {
            SyntaxKind::CommandKeyword
        } else if raw == 26 {
            SyntaxKind::ElseKeyword
        } else if raw == 27 {
            SyntaxKind::FalseKeyword
        } else if raw == 28 {
            SyntaxKind::IfKeyword
        } else if raw == 29 {
            SyntaxKind::InKeyword
        } else if raw == 30 {
            SyntaxKind::ImportKeyword
        } else if raw == 31 {
            SyntaxKind::InputKeyword
        } else if raw == 32 {
            SyntaxKind::MetaKeyword
        } else if raw == 33 {
            SyntaxKind::NoneKeyword
        } else if raw == 34 {
            SyntaxKind::NullKeyword
        } else if raw == 35 {
            SyntaxKind::ObjectKeyword
        } else if raw == 36 {
            SyntaxKind::OutputKeyword
        } else if raw == 37 {
            SyntaxKind::ParameterMetaKeyword
        } else if raw == 38 {
            SyntaxKind::RuntimeKeyword
        } else if raw == 39 {
            SyntaxKind::ScatterKeyword
        } else if raw == 40 {
            SyntaxKind::StructKeyword
        } else if raw == 41 {
            SyntaxKind::TaskKeyword
        } else if raw == 42 {
            SyntaxKind::ThenKeyword
        } else if raw == 43 {
            SyntaxKind::TrueKeyword
        } else if raw == 44 {
            SyntaxKind::VersionKeyword
        } else if raw == 45 {
            SyntaxKind::WorkflowKeyword
        } else if raw == 46 {
            SyntaxKind::DirectoryTypeKeyword
        } else if raw == 47 {
            SyntaxKind::HintsKeyword
        } else if raw == 48 {
            SyntaxKind::RequirementsKeyword
        } else if raw == 49 {
            SyntaxKind::OpenBrace
        } else if raw == 50 {
            SyntaxKind::CloseBrace
        } else if raw == 51 {
            SyntaxKind::OpenBracket
        } else if raw == 52 {
            SyntaxKind::CloseBracket
        } else if raw == 53 {
            SyntaxKind::Assignment
        } else if raw == 54 {
            SyntaxKind::Colon
        } else if raw == 55 {
            SyntaxKind::Comma
        } else if raw == 56 {
            SyntaxKind::OpenParen
        } else if raw == 57 {
            SyntaxKind::CloseParen
        } else if raw == 58 {
            SyntaxKind::QuestionMark
        } else if raw == 59 {
            SyntaxKind::Exclamation
        } else if raw == 60 {
            SyntaxKind::Plus
        } else if raw == 61 {
            SyntaxKind::Minus
        } else if raw == 62 {
            SyntaxKind::LogicalOr
        } else if raw == 63 {
            SyntaxKind::LogicalAnd
        } else if raw == 64 {
            SyntaxKind::Asterisk
        } else if raw == 65 {
            SyntaxKind::Exponentiation
        } else if raw == 66 {
            SyntaxKind::Slash
        } else if raw == 67 {
            SyntaxKind::Percent
        } else if raw == 68 {
            SyntaxKind::Equal
        } else if raw == 69 {
            SyntaxKind::NotEqual
        } else if raw == 70 {
            SyntaxKind::LessEqual
        } else if raw == 71 {
            SyntaxKind::GreaterEqual
        } else if raw == 72 {
            SyntaxKind::Less
        } else if raw == 73 {
            SyntaxKind::Greater
        } else if raw == 74 {
            SyntaxKind::Dot
        } else if raw == 75 {
            SyntaxKind::LiteralStringText
        } else if raw == 76 {
            SyntaxKind::LiteralCommandText
        } else if raw == 77 {
            SyntaxKind::PlaceholderOpen
        } else if raw == 78 {
            SyntaxKind::Abandoned
        } else if raw == 79 {
            SyntaxKind::RootNode
        } else if raw == 80 {
            SyntaxKind::VersionStatementNode
        } else if raw == 81 {
            SyntaxKind::ImportStatementNode
        } else if raw == 82 {
            SyntaxKind::ImportAliasNode
        } else if raw == 83 {
            SyntaxKind::StructDefinitionNode
        } else if raw == 84 {
            SyntaxKind::TaskDefinitionNode
        } else if raw == 85 {
            SyntaxKind::WorkflowDefinitionNode
        } else if raw == 86 {
            SyntaxKind::UnboundDeclNode
        } else if raw == 87 {
            SyntaxKind::BoundDeclNode
        } else if raw == 88 {
            SyntaxKind::InputSectionNode
        } else if raw == 89 {
            SyntaxKind::OutputSectionNode
        } else if raw == 90 {
            SyntaxKind::CommandSectionNode
        } else if raw == 91 {
            SyntaxKind::RequirementsSectionNode
        } else if raw == 92 {
            SyntaxKind::RequirementsItemNode
        } else if raw == 93 {
            SyntaxKind::HintsSectionNode
        } else if raw == 94 {
            SyntaxKind::HintsItemNode
        } else if raw == 95 {
            SyntaxKind::RuntimeSectionNode
        } else if raw == 96 {
            SyntaxKind::RuntimeItemNode
        } else if raw == 97 {
            SyntaxKind::PrimitiveTypeNode
        } else if raw == 98 {
            SyntaxKind::MapTypeNode
        } else if raw == 99 {
            SyntaxKind::ArrayTypeNode
        } else if raw == 100 {
            SyntaxKind::PairTypeNode
        } else if raw == 101 {
            SyntaxKind::ObjectTypeNode
        } else if raw == 102 {
            SyntaxKind::TypeRefNode
        } else if raw == 103 {
            SyntaxKind::MetadataSectionNode
        } else if raw == 104 {
            SyntaxKind::ParameterMetadataSectionNode
        } else if raw == 105 {
            SyntaxKind::MetadataObjectItemNode
        } else if raw == 106 {
            SyntaxKind::MetadataObjectNode
        } else if raw == 107 {
            SyntaxKind::MetadataArrayNode
        } else if raw == 108 {
            SyntaxKind::LiteralIntegerNode
        } else if raw == 109 {
            SyntaxKind::LiteralFloatNode
        } else if raw == 110 {
            SyntaxKind::LiteralBooleanNode
        } else if raw == 111 {
            SyntaxKind::LiteralNoneNode
        } else if raw == 112 {
            SyntaxKind::LiteralNullNode
        } else if raw == 113 {
            SyntaxKind::LiteralStringNode
        } else if raw == 114 {
            SyntaxKind::LiteralPairNode
        } else if raw == 115 {
            SyntaxKind::LiteralArrayNode
        } else if raw == 116 {
            SyntaxKind::LiteralMapNode
        } else if raw == 117 {
            SyntaxKind::LiteralMapItemNode
        } else if raw == 118 {
            SyntaxKind::LiteralObjectNode
        } else if raw == 119 {
            SyntaxKind::LiteralObjectItemNode
        } else if raw == 120 {
            SyntaxKind::LiteralStructNode
        } else if raw == 121 {
            SyntaxKind::LiteralStructItemNode
        } else if raw == 122 {
            SyntaxKind::PlaceholderNode
        } else if raw == 123 {
            SyntaxKind::PlaceholderSepOptionNode
        } else if raw == 124 {
            SyntaxKind::PlaceholderDefaultOptionNode
        } else if raw == 125 {
            SyntaxKind::PlaceholderTrueFalseOptionNode
        } else if raw == 126 {
            SyntaxKind::ConditionalStatementNode
        } else if raw == 127 {
            SyntaxKind::ScatterStatementNode
        } else if raw == 128 {
            SyntaxKind::CallStatementNode
        } else if raw == 129 {
            SyntaxKind::CallTargetNode
        } else if raw == 130 {
            SyntaxKind::CallAliasNode
        } else if raw == 131 {
            SyntaxKind::CallAfterNode
        } else if raw == 132 {
            SyntaxKind::CallInputItemNode
        } else if raw == 133 {
            SyntaxKind::ParenthesizedExprNode
        } else if raw == 134 {
            SyntaxKind::NameRefNode
        } else if raw == 135 {
            SyntaxKind::IfExprNode
        } else if raw == 136 {
            SyntaxKind::LogicalNotExprNode
        } else if raw == 137 {
            SyntaxKind::NegationExprNode
        } else if raw == 138 {
            SyntaxKind::LogicalOrExprNode
        } else if raw == 139 {
            SyntaxKind::LogicalAndExprNode
        } else if raw == 140 {
            SyntaxKind::EqualityExprNode
        } else if raw == 141 {
            SyntaxKind::InequalityExprNode
        } else if raw == 142 {
            SyntaxKind::LessExprNode
        } else if raw == 143 {
            SyntaxKind::LessEqualExprNode
        } else if raw == 144 {
            SyntaxKind::GreaterExprNode
        } else if raw == 145 {
            SyntaxKind::GreaterEqualExprNode
        } else if raw == 146 {
            SyntaxKind::AdditionExprNode
        } else if raw == 147 {
            SyntaxKind::SubtractionExprNode
        } else if raw == 148 {
            SyntaxKind::MultiplicationExprNode
        } else if raw == 149 {
            SyntaxKind::DivisionExprNode
        } else if raw == 150 {
            SyntaxKind::ModuloExprNode
        } else if raw == 151 {
            SyntaxKind::ExponentiationExprNode
        } else if raw == 152 {
            SyntaxKind::CallExprNode
        } else if raw == 153 {
            SyntaxKind::IndexExprNode
        } else if raw == 154 {
            SyntaxKind::AccessExprNode
        } else {
            SyntaxKind::Unknown
        }
    }

    /// Whether the kind carries no meaning of its own: whitespace and
    /// comments.
    pub open spec fn is_trivia_spec(self) -> bool {
        self == SyntaxKind::Whitespace || self == SyntaxKind::Comment
    }

    /// Gets the number under which the tree stores this kind.
    pub fn to_raw(self) -> (r: u16)
        ensures
            r == self.raw(),
    {
        match self {
            SyntaxKind::Unknown => 0,
            SyntaxKind::Unparsed => 1,
            SyntaxKind::Whitespace => 2,
            SyntaxKind::Comment => 3,
            SyntaxKind::Version => 4,
            SyntaxKind::Float => 5,
            SyntaxKind::Integer => 6,
            SyntaxKind::Ident => 7,
            SyntaxKind::SingleQuote => 8,
            SyntaxKind::DoubleQuote => 9,
            SyntaxKind::OpenHeredoc => 10,
            SyntaxKind::CloseHeredoc => 11,
            SyntaxKind::ArrayTypeKeyword => 12,
            SyntaxKind::BooleanTypeKeyword => 13,
            SyntaxKind::FileTypeKeyword => 14,
            SyntaxKind::FloatTypeKeyword => 15,
            SyntaxKind::IntTypeKeyword => 16,
            SyntaxKind::MapTypeKeyword => 17,
            SyntaxKind::ObjectTypeKeyword => 18,
            SyntaxKind::PairTypeKeyword => 19,
            SyntaxKind::StringTypeKeyword => 20,
            SyntaxKind::AfterKeyword => 21,
            SyntaxKind::AliasKeyword => 22,
            SyntaxKind::AsKeyword => 23,
            SyntaxKind::CallKeyword => 24,
            SyntaxKind::CommandKeyword => 25,
            SyntaxKind::ElseKeyword => 26,
            SyntaxKind::FalseKeyword => 27,
            SyntaxKind::IfKeyword => 28,
            SyntaxKind::InKeyword => 29,
            SyntaxKind::ImportKeyword => 30,
            SyntaxKind::InputKeyword => 31,
            SyntaxKind::MetaKeyword => 32,
            SyntaxKind::NoneKeyword => 33,
            SyntaxKind::NullKeyword => 34,
            SyntaxKind::ObjectKeyword => 35,
            SyntaxKind::OutputKeyword => 36,
            SyntaxKind::ParameterMetaKeyword => 37,
            SyntaxKind::RuntimeKeyword => 38,
            SyntaxKind::ScatterKeyword => 39,
            SyntaxKind::StructKeyword => 40,
            SyntaxKind::TaskKeyword => 41,
            SyntaxKind::ThenKeyword => 42,
            SyntaxKind::TrueKeyword => 43,
            SyntaxKind::VersionKeyword => 44,
            SyntaxKind::WorkflowKeyword => 45,
            SyntaxKind::DirectoryTypeKeyword => 46,
            SyntaxKind::HintsKeyword => 47,
            SyntaxKind::RequirementsKeyword => 48,
            SyntaxKind::OpenBrace => 49,
            SyntaxKind::CloseBrace => 50,
            SyntaxKind::OpenBracket => 51,
            SyntaxKind::CloseBracket => 52,
            SyntaxKind::Assignment => 53,
            SyntaxKind::Colon => 54,
            SyntaxKind::Comma => 55,
            SyntaxKind::OpenParen => 56,
            SyntaxKind::CloseParen => 57,
            SyntaxKind::QuestionMark => 58,
            SyntaxKind::Exclamation => 59,
            SyntaxKind::Plus => 60,
            SyntaxKind::Minus => 61,
            SyntaxKind::LogicalOr => 62,
            SyntaxKind::LogicalAnd => 63,
            SyntaxKind::Asterisk => 64,
            SyntaxKind::Exponentiation => 65,
            SyntaxKind::Slash => 66,
            SyntaxKind::Percent => 67,
            SyntaxKind::Equal => 68,
            SyntaxKind::NotEqual => 69,
            SyntaxKind::LessEqual => 70,
            SyntaxKind::GreaterEqual => 71,
            SyntaxKind::Less => 72,
            SyntaxKind::Greater => 73,
            SyntaxKind::Dot => 74,
            SyntaxKind::LiteralStringText => 75,
            SyntaxKind::LiteralCommandText => 76,
            SyntaxKind::PlaceholderOpen => 77,
            SyntaxKind::Abandoned => 78,
            SyntaxKind::RootNode => 79,
            SyntaxKind::VersionStatementNode => 80,
            SyntaxKind::ImportStatementNode => 81,
            SyntaxKind::ImportAliasNode => 82,
            SyntaxKind::StructDefinitionNode => 83,
            SyntaxKind::TaskDefinitionNode => 84,
            SyntaxKind::WorkflowDefinitionNode => 85,
            SyntaxKind::UnboundDeclNode => 86,
            SyntaxKind::BoundDeclNode => 87,
            SyntaxKind::InputSectionNode => 88,
            SyntaxKind::OutputSectionNode => 89,
            SyntaxKind::CommandSectionNode => 90,
            SyntaxKind::RequirementsSectionNode => 91,
            SyntaxKind::RequirementsItemNode => 92,
            SyntaxKind::HintsSectionNode => 93,
            SyntaxKind::HintsItemNode => 94,
            SyntaxKind::RuntimeSectionNode => 95,
            SyntaxKind::RuntimeItemNode => 96,
            SyntaxKind::PrimitiveTypeNode => 97,
            SyntaxKind::MapTypeNode => 98,
            SyntaxKind::ArrayTypeNode => 99,
            SyntaxKind::PairTypeNode => 100,
            SyntaxKind::ObjectTypeNode => 101,
            SyntaxKind::TypeRefNode => 102,
            SyntaxKind::MetadataSectionNode => 103,
            SyntaxKind::ParameterMetadataSectionNode => 104,
            SyntaxKind::MetadataObjectItemNode => 105,
            SyntaxKind::MetadataObjectNode => 106,
            SyntaxKind::MetadataArrayNode => 107,
            SyntaxKind::LiteralIntegerNode => 108,
            SyntaxKind::LiteralFloatNode => 109,
            SyntaxKind::LiteralBooleanNode => 110,
            SyntaxKind::LiteralNoneNode => 111,
            SyntaxKind::LiteralNullNode => 112,
            SyntaxKind::LiteralStringNode => 113,
            SyntaxKind::LiteralPairNode => 114,
            SyntaxKind::LiteralArrayNode => 115,
            SyntaxKind::LiteralMapNode => 116,
            SyntaxKind::LiteralMapItemNode => 117,
            SyntaxKind::LiteralObjectNode => 118,
            SyntaxKind::LiteralObjectItemNode => 119,
            SyntaxKind::LiteralStructNode => 120,
            SyntaxKind::LiteralStructItemNode => 121,
            SyntaxKind::PlaceholderNode => 122,
            SyntaxKind::PlaceholderSepOptionNode => 123,
            SyntaxKind::PlaceholderDefaultOptionNode => 124,
            SyntaxKind::PlaceholderTrueFalseOptionNode => 125,
            SyntaxKind::ConditionalStatementNode => 126,
            SyntaxKind::ScatterStatementNode => 127,
            SyntaxKind::CallStatementNode => 128,
            SyntaxKind::CallTargetNode => 129,
            SyntaxKind::CallAliasNode => 130,
            SyntaxKind::CallAfterNode => 131,
            SyntaxKind::CallInputItemNode => 132,
            SyntaxKind::ParenthesizedExprNode => 133,
            SyntaxKind::NameRefNode => 134,
            SyntaxKind::IfExprNode => 135,
            SyntaxKind::LogicalNotExprNode => 136,
            SyntaxKind::NegationExprNode => 137,
            SyntaxKind::LogicalOrExprNode => 138,
            SyntaxKind::LogicalAndExprNode => 139,
            SyntaxKind::EqualityExprNode => 140,
            SyntaxKind::InequalityExprNode => 141,
            SyntaxKind::LessExprNode => 142,
            SyntaxKind::LessEqualExprNode => 143,
            SyntaxKind::GreaterExprNode => 144,
            SyntaxKind::GreaterEqualExprNode => 145,
            SyntaxKind::AdditionExprNode => 146,
            SyntaxKind::SubtractionExprNode => 147,
            SyntaxKind::MultiplicationExprNode => 148,
            SyntaxKind::DivisionExprNode => 149,
            SyntaxKind::ModuloExprNode => 150,
            SyntaxKind::ExponentiationExprNode => 151,
            SyntaxKind::CallExprNode => 152,
            SyntaxKind::IndexExprNode => 153,
            SyntaxKind::AccessExprNode => 154,
        }
    }

    /// Gets the kind that a stored number stands for; a number that stands
    /// for no kind gives [`SyntaxKind::Unknown`].
    pub fn from_raw(raw: u16) -> (r: SyntaxKind)
        ensures
            r == Self::of_raw(raw),
    {
        reveal(SyntaxKind::of_raw);
        match raw {
            1 => SyntaxKind::Unparsed,
            2 => SyntaxKind::Whitespace,
            3 => SyntaxKind::Comment,
            4 => SyntaxKind::Version,
            5 => SyntaxKind::Float,
            6 => SyntaxKind::Integer,
            7 => SyntaxKind::Ident,
            8 => SyntaxKind::SingleQuote,
            9 => SyntaxKind::DoubleQuote,
            10 => SyntaxKind::OpenHeredoc,
            11 => SyntaxKind::CloseHeredoc,
            12 => SyntaxKind::ArrayTypeKeyword,
            13 => SyntaxKind::BooleanTypeKeyword,
            14 => SyntaxKind::FileTypeKeyword,
            15 => SyntaxKind::FloatTypeKeyword,
            16 => SyntaxKind::IntTypeKeyword,
            17 => SyntaxKind::MapTypeKeyword,
            18 => SyntaxKind::ObjectTypeKeyword,
            19 => SyntaxKind::PairTypeKeyword,
            20 => SyntaxKind::StringTypeKeyword,
            21 => SyntaxKind::AfterKeyword,
            22 => SyntaxKind::AliasKeyword,
            23 => SyntaxKind::AsKeyword,
            24 => SyntaxKind::CallKeyword,
            25 => SyntaxKind::CommandKeyword,
            26 => SyntaxKind::ElseKeyword,
            27 => SyntaxKind::FalseKeyword,
            28 => SyntaxKind::IfKeyword,
            29 => SyntaxKind::InKeyword,
            30 => SyntaxKind::ImportKeyword,
            31 => SyntaxKind::InputKeyword,
            32 => SyntaxKind::MetaKeyword,
            33 => SyntaxKind::NoneKeyword,
            34 => SyntaxKind::NullKeyword,
            35 => SyntaxKind::ObjectKeyword,
            36 => SyntaxKind::OutputKeyword,
            37 => SyntaxKind::ParameterMetaKeyword,
            38 => SyntaxKind::RuntimeKeyword,
            39 => SyntaxKind::ScatterKeyword,
            40 => SyntaxKind::StructKeyword,
            41 => SyntaxKind::TaskKeyword,
            42 => SyntaxKind::ThenKeyword,
            43 => SyntaxKind::TrueKeyword,
            44 => SyntaxKind::VersionKeyword,
            45 => SyntaxKind::WorkflowKeyword,
            46 => SyntaxKind::DirectoryTypeKeyword,
            47 => SyntaxKind::HintsKeyword,
            48 => SyntaxKind::RequirementsKeyword,
            49 => SyntaxKind::OpenBrace,
            50 => SyntaxKind::CloseBrace,
            51 => SyntaxKind::OpenBracket,
            52 => SyntaxKind::CloseBracket,
            53 => SyntaxKind::Assignment,
            54 => SyntaxKind::Colon,
            55 => SyntaxKind::Comma,
            56 => SyntaxKind::OpenParen,
            57 => SyntaxKind::CloseParen,
            58 => SyntaxKind::QuestionMark,
            59 => SyntaxKind::Exclamation,
            60 => SyntaxKind::Plus,
            61 => SyntaxKind::Minus,
            62 => SyntaxKind::LogicalOr,
            63 => SyntaxKind::LogicalAnd,
            64 => SyntaxKind::Asterisk,
            65 => SyntaxKind::Exponentiation,
            66 => SyntaxKind::Slash,
            67 => SyntaxKind::Percent,
            68 => SyntaxKind::Equal,
            69 => SyntaxKind::NotEqual,
            70 => SyntaxKind::LessEqual,
            71 => SyntaxKind::GreaterEqual,
            72 => SyntaxKind::Less,
            73 => SyntaxKind::Greater,
            74 => SyntaxKind::Dot,
            75 => SyntaxKind::LiteralStringText,
            76 => SyntaxKind::LiteralCommandText,
            77 => SyntaxKind::PlaceholderOpen,
            78 => SyntaxKind::Abandoned,
            79 => SyntaxKind::RootNode,
            80 => SyntaxKind::VersionStatementNode,
            81 => SyntaxKind::ImportStatementNode,
            82 => SyntaxKind::ImportAliasNode,
            83 => SyntaxKind::StructDefinitionNode,
            84 => SyntaxKind::TaskDefinitionNode,
            85 => SyntaxKind::WorkflowDefinitionNode,
            86 => SyntaxKind::UnboundDeclNode,
            87 => SyntaxKind::BoundDeclNode,
            88 => SyntaxKind::InputSectionNode,
            89 => SyntaxKind::OutputSectionNode,
            90 => SyntaxKind::CommandSectionNode,
            91 => SyntaxKind::RequirementsSectionNode,
            92 => SyntaxKind::RequirementsItemNode,
            93 => SyntaxKind::HintsSectionNode,
            94 => SyntaxKind::HintsItemNode,
            95 => SyntaxKind::RuntimeSectionNode,
            96 => SyntaxKind::RuntimeItemNode,
            97 => SyntaxKind::PrimitiveTypeNode,
            98 => SyntaxKind::MapTypeNode,
            99 => SyntaxKind::ArrayTypeNode,
            100 => SyntaxKind::PairTypeNode,
            101 => SyntaxKind::ObjectTypeNode,
            102 => SyntaxKind::TypeRefNode,
            103 => SyntaxKind::MetadataSectionNode,
            104 => SyntaxKind::ParameterMetadataSectionNode,
            105 => SyntaxKind::MetadataObjectItemNode,
            106 => SyntaxKind::MetadataObjectNode,
            107 => SyntaxKind::MetadataArrayNode,
            108 => SyntaxKind::LiteralIntegerNode,
            109 => SyntaxKind::LiteralFloatNode,
            110 => SyntaxKind::LiteralBooleanNode,
            111 => SyntaxKind::LiteralNoneNode,
            112 => SyntaxKind::LiteralNullNode,
            113 => SyntaxKind::LiteralStringNode,
            114 => SyntaxKind::LiteralPairNode,
            115 => SyntaxKind::LiteralArrayNode,
            116 => SyntaxKind::LiteralMapNode,
            117 => SyntaxKind::LiteralMapItemNode,
            118 => SyntaxKind::LiteralObjectNode,
            119 => SyntaxKind::LiteralObjectItemNode,
            120 => SyntaxKind::LiteralStructNode,
            121 => SyntaxKind::LiteralStructItemNode,
            122 => SyntaxKind::PlaceholderNode,
            123 => SyntaxKind::PlaceholderSepOptionNode,
            124 => SyntaxKind::PlaceholderDefaultOptionNode,
            125 => SyntaxKind::PlaceholderTrueFalseOptionNode,
            126 => SyntaxKind::ConditionalStatementNode,
            127 => SyntaxKind::ScatterStatementNode,
            128 => SyntaxKind::CallStatementNode,
            129 => SyntaxKind::CallTargetNode,
            130 => SyntaxKind::CallAliasNode,
            131 => SyntaxKind::CallAfterNode,
            132 => SyntaxKind::CallInputItemNode,
            133 => SyntaxKind::ParenthesizedExprNode,
            134 => SyntaxKind::NameRefNode,
            135 => SyntaxKind::IfExprNode,
            136 => SyntaxKind::LogicalNotExprNode,
            137 => SyntaxKind::NegationExprNode,
            138 => SyntaxKind::LogicalOrExprNode,
            139 => SyntaxKind::LogicalAndExprNode,
            140 => SyntaxKind::EqualityExprNode,
            141 => SyntaxKind::InequalityExprNode,
            142 => SyntaxKind::LessExprNode,
            143 => SyntaxKind::LessEqualExprNode,
            144 => SyntaxKind::GreaterExprNode,
            145 => SyntaxKind::GreaterEqualExprNode,
            146 => SyntaxKind::AdditionExprNode,
            147 => SyntaxKind::SubtractionExprNode,
            148 => SyntaxKind::MultiplicationExprNode,
            149 => SyntaxKind::DivisionExprNode,
            150 => SyntaxKind::ModuloExprNode,
            151 => SyntaxKind::ExponentiationExprNode,
            152 => SyntaxKind::CallExprNode,
            153 => SyntaxKind::IndexExprNode,
            154 => SyntaxKind::AccessExprNode,
            _ => SyntaxKind::Unknown,
        }
    }

    /// Gets whether the kind is whitespace or a comment.
    pub fn is_trivia(self) -> (r: bool)
        ensures
            r == self.is_trivia_spec(),
    {
        match self {
            SyntaxKind::Whitespace | SyntaxKind::Comment => true,
            _ => false,
        }
    }
}

/// Storing a kind and reading it back gives the same kind, and two kinds are
/// never stored under one number.
pub proof fn lemma_raw_round_trip(kind: SyntaxKind, other: SyntaxKind)
    ensures
        SyntaxKind::of_raw(kind.raw()) == kind,
        kind.raw() == other.raw() ==> kind == other,
{
    reveal(SyntaxKind::of_raw);
}

} // verus!
