//! Reading a field's directives: which one applies and what it says.
use vstd::prelude::*;
use crate::declaration::{DirectiveView, FieldDecl};
use crate::literal::{parse_string_literal, string_literal_value};

verus! {

/// The names of `directives`, position by position.
pub open spec fn directive_names(directives: Seq<DirectiveView>) -> Seq<Option<Seq<char>>> {
    Seq::new(directives.len(), |i: int| directives[i].name)
}

/// The position of the first directive named `ident`, if there is one.
pub open spec fn first_named(directives: Seq<DirectiveView>, ident: Seq<char>) -> Option<int> {
    directive_names(directives).index_of_first(Some(ident))
}

/// What a single directive says: the string its arguments denote, when they
/// are exactly one string literal.
pub open spec fn directive_value(directive: DirectiveView) -> Option<Seq<char>> {
    match directive.arguments {
        Some(tokens) => string_literal_value(tokens),
        None => None,
    }
}

/// The value that `directives` give for `ident`: that of the first directive
/// so named. Later directives of the same name are never consulted, and a
/// first one that carries no string literal gives no value.
pub open spec fn attr_value(directives: Seq<DirectiveView>, ident: Seq<char>) -> Option<Seq<char>> {
    match first_named(directives, ident) {
        Some(i) => directive_value(directives[i]),
        None => None,
    }
}

/// `first_named` is `Some(i)` exactly for the least `i` whose directive is
/// named `ident`.
pub proof fn lemma_first_named(directives: Seq<DirectiveView>, ident: Seq<char>, i: int)
    requires
        0 <= i < directives.len(),
        directives[i].name == Some(ident),
        forall|j: int| 0 <= j < i ==> directives[j].name != Some(ident),
    ensures
        first_named(directives, ident) == Some(i),
{
    let names = directive_names(directives);
    names.index_of_first_ensures(Some(ident));
    assert(names[i] == Some(ident));
    assert(names.contains(Some(ident)));
    let k = names.index_of_first(Some(ident)).unwrap();
    if k < i {
        assert(directives[k].name == names[k]);
    } else if i < k {
        assert(names[i] != Some(ident));
    }
}

/// `first_named` is `None` exactly when no directive is named `ident`.
pub proof fn lemma_none_named(directives: Seq<DirectiveView>, ident: Seq<char>)
    requires
        forall|j: int| 0 <= j < directives.len() ==> directives[j].name != Some(ident),
    ensures
        first_named(directives, ident) is None,
{
    let names = directive_names(directives);
    names.index_of_first_ensures(Some(ident));
    if names.contains(Some(ident)) {
        let k = choose|k: int| 0 <= k < names.len() && names[k] == Some(ident);
        assert(directives[k].name == names[k]);
    }
}

/// Finds the first directive of `field` whose name is `ident`.
pub fn find_directive(field: &FieldDecl, ident: &str) -> (found: Option<usize>)
    ensures
        match found {
            Some(i) => i < field.directives.len() && first_named(field@.directives, ident@)
                == Some(i as int),
            None => first_named(field@.directives, ident@) is None,
        },
{
    let wanted = ident.to_owned();
    let mut i: usize = 0;
    while i < field.directives.len()
        invariant
            i <= field.directives.len(),
            wanted@ == ident@,
            forall|j: int| 0 <= j < i ==> (#[trigger] field@.directives[j]).name != Some(ident@),
        decreases field.directives.len() - i,
    {
        let matches = match &field.directives[i].name {
            Some(name) => *name == wanted,
            None => false,
        };
        if matches {
            proof {
                lemma_first_named(field@.directives, ident@, i as int);
            }
            return Some(i);
        }
        i += 1;
    }
    proof {
        lemma_none_named(field@.directives, ident@);
    }
    None
}

/// The value of the directive named `ident` on `field`.
///
/// Only the first directive of that name counts. It yields a value when its
/// arguments are a single string literal; in every other case the result is
/// `None`, as if the directive were absent.
pub fn get_attr_value(field: &FieldDecl, ident: &str) -> (value: Option<String>)
    ensures
        crate::declaration::optional_text(value) == attr_value(field@.directives, ident@),
{
    match find_directive(field, ident) {
        Some(i) => {
            assert(field@.directives[i as int] == field.directives@[i as int]@);
            match &field.directives[i].arguments {
                Some(tokens) => parse_string_literal(tokens.as_str()),
                None => None,
            }
        },
        None => None,
    }
}

} // verus!
