//! Laws that relate declarations, schemas, environments and instances.
use vstd::prelude::*;
use crate::declaration::{DeclarationView, FieldDeclView};
use crate::environment::lookup;
use crate::instance::{
    field_names, field_value, first_missing, instance_fields, resolvable, resolved_value,
};
use crate::literal::uppercase;
use crate::resolver::{attr_value, lemma_none_named};
use crate::schema::{
    field_spec, record_spec, supported, RecordSpecView, DEFAULT_DIRECTIVE, VAR_DIRECTIVE,
};

verus! {

/// A record whose fields carry no directives reads every field from the
/// variable named like the field in upper case: when each such variable is
/// set, construction succeeds and field `i` holds the value of its variable.
pub proof fn law_plain_fields_read_uppercased_names(
    decl: DeclarationView,
    env: Map<Seq<char>, Seq<char>>,
    values: Seq<Seq<char>>,
)
    requires
        supported(decl),
        values.len() == decl.fields.len(),
        forall|i: int| 0 <= i < decl.fields.len() ==> (#[trigger] decl.fields[i]).directives.len() == 0,
        forall|i: int|
            0 <= i < decl.fields.len() ==> lookup(
                env,
                uppercase((#[trigger] decl.fields[i]).name.unwrap()),
            ) == Some(values[i]),
    ensures
        resolvable(record_spec(decl), env),
        instance_fields(record_spec(decl), env).len() == decl.fields.len(),
        forall|i: int|
            0 <= i < decl.fields.len() ==> #[trigger] instance_fields(record_spec(decl), env)[i] == (
                decl.fields[i].name.unwrap(),
                values[i],
            ),
{
    let record = record_spec(decl);
    assert forall|i: int| 0 <= i < decl.fields.len() implies resolved_value(
        #[trigger] record.fields[i],
        env,
    ) == Some(values[i]) by {
        let field = decl.fields[i];
        lemma_none_named(field.directives, VAR_DIRECTIVE@);
    }
}

/// A field whose `var` directive says `x` is read from the variable `x` and
/// from nothing else: its source variable is `x` whatever the field is
/// called, and two environments that agree on `x` give it the same value.
pub proof fn law_var_directive_names_the_source(
    field: FieldDeclView,
    renamed: FieldDeclView,
    x: Seq<char>,
    env: Map<Seq<char>, Seq<char>>,
    other: Map<Seq<char>, Seq<char>>,
)
    requires
        field.name is Some,
        renamed.name is Some,
        renamed.directives == field.directives,
        attr_value(field.directives, VAR_DIRECTIVE@) == Some(x),
        lookup(env, x) == lookup(other, x),
    ensures
        field_spec(field).unwrap().source_var_name == x,
        field_spec(renamed).unwrap().source_var_name == x,
        lookup(env, x) is Some ==> resolved_value(field_spec(field).unwrap(), env) == lookup(env, x),
        resolved_value(field_spec(field).unwrap(), env) == resolved_value(
            field_spec(field).unwrap(),
            other,
        ),
{
}

/// A field whose `default` directive says `d` holds exactly `d` when its
/// source variable is not set.
pub proof fn law_default_fills_unset_variable(
    decl: DeclarationView,
    env: Map<Seq<char>, Seq<char>>,
    i: int,
    d: Seq<char>,
)
    requires
        supported(decl),
        0 <= i < decl.fields.len(),
        attr_value(decl.fields[i].directives, DEFAULT_DIRECTIVE@) == Some(d),
        lookup(env, record_spec(decl).fields[i].source_var_name) is None,
    ensures
        resolved_value(record_spec(decl).fields[i], env) == Some(d),
        instance_fields(record_spec(decl), env)[i] == (decl.fields[i].name.unwrap(), d),
{
}

/// A field with neither a `var` nor a `default` directive whose variable is
/// not set makes construction fail: no instance exists for such a record.
pub proof fn law_required_field_aborts(
    decl: DeclarationView,
    env: Map<Seq<char>, Seq<char>>,
    i: int,
)
    requires
        supported(decl),
        0 <= i < decl.fields.len(),
        forall|j: int|
            0 <= j < decl.fields[i].directives.len() ==> {
                &&& (#[trigger] decl.fields[i].directives[j]).name != Some(VAR_DIRECTIVE@)
                &&& decl.fields[i].directives[j].name != Some(DEFAULT_DIRECTIVE@)
            },
        lookup(env, uppercase(decl.fields[i].name.unwrap())) is None,
    ensures
        !resolvable(record_spec(decl), env),
{
    let record = record_spec(decl);
    lemma_none_named(decl.fields[i].directives, VAR_DIRECTIVE@);
    lemma_none_named(decl.fields[i].directives, DEFAULT_DIRECTIVE@);
    assert(resolved_value(record.fields[i], env) is None);
}

/// Construction depends on the environment only through the source
/// variables of the record: two environments that agree on them give the
/// same outcome, field by field, and fail on the same field.
pub proof fn law_construction_is_deterministic(
    record: RecordSpecView,
    env: Map<Seq<char>, Seq<char>>,
    other: Map<Seq<char>, Seq<char>>,
)
    requires
        forall|i: int|
            0 <= i < record.fields.len() ==> lookup(
                env,
                (#[trigger] record.fields[i]).source_var_name,
            ) == lookup(other, record.fields[i].source_var_name),
    ensures
        resolvable(record, env) == resolvable(record, other),
        resolvable(record, env) ==> instance_fields(record, env) == instance_fields(record, other),
        forall|i: int| first_missing(record, env, i) == first_missing(record, other, i),
{
    assert forall|i: int| 0 <= i < record.fields.len() implies resolved_value(
        #[trigger] record.fields[i],
        env,
    ) == resolved_value(record.fields[i], other) by {}
    if resolvable(record, env) {
        assert(instance_fields(record, env) =~= instance_fields(record, other));
    }
}

/// The fields of a schema and of every instance built from it are the
/// declared fields: as many, under the same names, in the same order.
pub proof fn law_fields_correspond(decl: DeclarationView, env: Map<Seq<char>, Seq<char>>)
    requires
        supported(decl),
    ensures
        record_spec(decl).fields.len() == decl.fields.len(),
        forall|i: int|
            0 <= i < decl.fields.len() ==> (#[trigger] record_spec(decl).fields[i]).name
                == decl.fields[i].name.unwrap(),
        field_names(instance_fields(record_spec(decl), env)) == Seq::new(
            decl.fields.len(),
            |i: int| decl.fields[i].name.unwrap(),
        ),
{
    assert(field_names(instance_fields(record_spec(decl), env)) =~= Seq::new(
        decl.fields.len(),
        |i: int| decl.fields[i].name.unwrap(),
    ));
}

/// When no two fields share a name, reading a field by its name gives the
/// value stored at its position.
pub proof fn law_accessor_by_name(fields: Seq<(Seq<char>, Seq<char>)>, i: int)
    requires
        0 <= i < fields.len(),
        forall|j: int, k: int|
            0 <= j < k < fields.len() ==> (#[trigger] fields[j]).0 != (#[trigger] fields[k]).0,
    ensures
        field_value(fields, fields[i].0) == Some(fields[i].1),
{
    let names = field_names(fields);
    names.index_of_first_ensures(fields[i].0);
    assert(names[i] == fields[i].0);
    let k = names.index_of_first(fields[i].0).unwrap();
    assert(names[k] == fields[k].0);
}

} // verus!
