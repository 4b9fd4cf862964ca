//! Record declarations as plain data: what a schema says before it is resolved.
use vstd::prelude::*;

verus! {

/// The characters of an optional string.
pub open spec fn optional_text(text: Option<String>) -> Option<Seq<char>> {
    match text {
        Some(t) => Some(t@),
        None => None,
    }
}

/// One annotation attached to a field, such as `#[var("HOME")]`.
#[derive(Clone, Debug)]
pub struct Directive {
    /// The annotation's name when its path is a single plain identifier.
    pub name: Option<String>,
    /// The token text between the annotation's delimiters, when it has any.
    pub arguments: Option<String>,
}

/// The mathematical content of a [`Directive`].
pub struct DirectiveView {
    pub name: Option<Seq<char>>,
    pub arguments: Option<Seq<char>>,
}

impl View for Directive {
    type V = DirectiveView;

    open spec fn view(&self) -> DirectiveView {
        DirectiveView {
            name: optional_text(self.name),
            arguments: optional_text(self.arguments),
        }
    }
}

/// One declared field: its name, if it has one, and its annotations in
/// declaration order.
#[derive(Clone, Debug)]
pub struct FieldDecl {
    pub name: Option<String>,
    pub directives: Vec<Directive>,
}

/// The mathematical content of a [`FieldDecl`].
pub struct FieldDeclView {
    pub name: Option<Seq<char>>,
    pub directives: Seq<DirectiveView>,
}

impl View for FieldDecl {
    type V = FieldDeclView;

    open spec fn view(&self) -> FieldDeclView {
        FieldDeclView {
            name: optional_text(self.name),
            directives: Seq::new(self.directives@.len(), |i: int| self.directives@[i]@),
        }
    }
}

/// What kind of type a declaration introduces.
#[derive(Clone, Copy, Debug, PartialEq, Eq, Structural)]
pub enum DeclKind {
    Struct,
    Enum,
    Union,
}

/// A type declaration: its name, its kind and its fields in declaration
/// order. Only a `Struct` has fields that matter.
#[derive(Clone, Debug)]
pub struct Declaration {
    pub name: String,
    pub kind: DeclKind,
    pub fields: Vec<FieldDecl>,
}

/// The mathematical content of a [`Declaration`].
pub struct DeclarationView {
    pub name: Seq<char>,
    pub kind: DeclKind,
    pub fields: Seq<FieldDeclView>,
}

impl View for Declaration {
    type V = DeclarationView;

    open spec fn view(&self) -> DeclarationView {
        DeclarationView {
            name: self.name@,
            kind: self.kind,
            fields: Seq::new(self.fields@.len(), |i: int| self.fields@[i]@),
        }
    }
}

} // verus!
