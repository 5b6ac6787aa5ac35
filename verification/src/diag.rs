use vstd::prelude::*;

verus! {

/// A diagnostic emitted for a construct that is outside scope but not
/// structurally required: the surrounding declaration still produces a
/// binding, with the dynamic value type or with the offending member
/// dropped.
#[derive(Debug, Clone)]
pub enum Diag {
    /// An inline object type literal.
    TypeLiteral,
    /// A literal type.
    LitType,
    /// A union that is not `T | undefined` or `T | null`.
    UnionShape,
    /// An intersection with no constituents.
    EmptyIntersection,
    /// An import type whose target is not a relative path.
    NonRelativeImport,
    /// An index signature inside an interface or object type body.
    IndexSignature,
    /// A namespace whose body is an alias to another namespace.
    NamespaceAlias { name: String },
    /// A call signature, construct signature, or parametrized property,
    /// dropped from the named owner's body.
    MemberDropped { owner: String },
    /// A statement that is not a declaration inside a source unit.
    NonDeclStatement,
}

/// Mathematical model of [`Diag`].
pub enum DiagV {
    TypeLiteral,
    LitType,
    UnionShape,
    EmptyIntersection,
    NonRelativeImport,
    IndexSignature,
    NamespaceAlias { name: Seq<char> },
    MemberDropped { owner: Seq<char> },
    NonDeclStatement,
}

impl View for Diag {
    type V = DiagV;

    open spec fn view(&self) -> DiagV {
        match self {
            Diag::TypeLiteral => DiagV::TypeLiteral,
            Diag::LitType => DiagV::LitType,
            Diag::UnionShape => DiagV::UnionShape,
            Diag::EmptyIntersection => DiagV::EmptyIntersection,
            Diag::NonRelativeImport => DiagV::NonRelativeImport,
            Diag::IndexSignature => DiagV::IndexSignature,
            Diag::NamespaceAlias { name } => DiagV::NamespaceAlias { name: name@ },
            Diag::MemberDropped { owner } => DiagV::MemberDropped { owner: owner@ },
            Diag::NonDeclStatement => DiagV::NonDeclStatement,
        }
    }
}

pub open spec fn view_diags(v: Seq<Diag>) -> Seq<DiagV> {
    v.map(|i: int, d: Diag| d@)
}

/// An error that aborts the lowering of one declaration: a structurally
/// required construct with no defined lowering. Surfacing it is a build-time
/// failure, never a silently wrong binding.
#[derive(Debug, Clone, Copy, PartialEq, Eq, Structural)]
pub enum LowerError {
    /// A `bigint`, `symbol` or `intrinsic` primitive keyword.
    UnsupportedKeyword,
    /// A constructor type.
    CtorType,
    /// A type query, indexed access, inference placeholder, rest type, type
    /// predicate, conditional type, type operator, or mapped type.
    UnsupportedType,
    /// An enum declaration.
    EnumDecl,
    /// An index signature, static initializer block, or empty statement in a
    /// class body.
    UnsupportedClassMember,
    /// A constructor-like class member not named `constructor`.
    NamedConstructor,
    /// A class with more than one constructor.
    MultipleConstructors,
    /// A variable statement whose declarator count is not one.
    VarDeclarators,
    /// A destructuring or otherwise unsupported pattern in a declaration.
    UnsupportedPattern,
    /// A namespace specifier inside a named export.
    NamespaceExportSpecifier,
    /// A default export of an expression that is not a bare identifier.
    DefaultExportExpr,
    /// A named export with no specifiers.
    EmptyExportSpecifiers,
}

} // verus!
