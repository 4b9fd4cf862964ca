//! Rendering a schema as Rust source: a constructor that reads the
//! environment and one read-only accessor per field.
use vstd::prelude::*;
use vstd::string::StringExecFns;
use crate::declaration::Declaration;
use crate::instance::{MISSING_PREFIX, MISSING_SUFFIX};
use crate::literal::push_char;
use crate::schema::{
    record_spec, supported, FieldSpec, FieldSpecView, RecordSpec, RecordSpecView,
    UnsupportedShape,
};

verus! {

/// How one character is written inside a string literal: a double quote, a
/// backslash and a carriage return are escaped, every other character
/// stands for itself.
pub open spec fn escaped_char(c: char) -> Seq<char> {
    if c == '"' {
        "\\\""@
    } else if c == '\\' {
        "\\\\"@
    } else if c == '\r' {
        "\\r"@
    } else {
        seq![c]
    }
}

/// The characters of `value`, each written as inside a string literal.
pub open spec fn escaped(value: Seq<char>) -> Seq<char>
    decreases value.len(),
{
    if value.len() == 0 {
        Seq::empty()
    } else {
        escaped(value.drop_last()) + escaped_char(value.last())
    }
}

/// The source text of a string literal that denotes `value`.
pub open spec fn string_literal_text(value: Seq<char>) -> Seq<char> {
    "\""@ + escaped(value) + "\""@
}

/// Writes `value` as a string literal.
pub fn quote_string(value: &str) -> (text: String)
    ensures
        text@ == string_literal_text(value@),
{
    let mut text = "\"".to_owned();
    for c in it: value.chars()
        invariant
            it.seq() == value@,
            text@ == "\""@ + escaped(value@.take(it.index())),
    {
        assert(value@.take(it.index() + 1).drop_last() =~= value@.take(it.index()));
        if c == '"' {
            text.append("\\\"");
        } else if c == '\\' {
            text.append("\\\\");
        } else if c == '\r' {
            text.append("\\r");
        } else {
            push_char(&mut text, c);
        }
    }
    assert(value@.take(value@.len() as int) =~= value@);
    text.append("\"");
    text
}

/// Where the variable's name goes in the failure message's format string.
pub const PLACEHOLDER: &'static str = "{}";

/// The format string of the failure message.
pub open spec fn missing_format() -> Seq<char> {
    MISSING_PREFIX@ + PLACEHOLDER@ + MISSING_SUFFIX@
}

/// The expression evaluated when the source variable is not set: the
/// default, or a panic that names the variable.
pub open spec fn fallback_text(field: FieldSpecView) -> Seq<char> {
    match field.default_value {
        Some(value) => string_literal_text(value) + ".to_string()"@,
        None => "panic!("@ + string_literal_text(missing_format()) + ", "@ + string_literal_text(
            field.source_var_name,
        ) + ")"@,
    }
}

/// The initializer of one field inside the constructor.
pub open spec fn initializer_text(field: FieldSpecView) -> Seq<char> {
    field.name + ": { match std::env::var("@ + string_literal_text(field.source_var_name)
        + ") { Ok(val) => val, Err(_) => "@ + fallback_text(field) + ", } }"@
}

/// The accessor of one field.
pub open spec fn getter_text(field: FieldSpecView) -> Seq<char> {
    "pub fn "@ + field.name + "(&self) -> &str { self."@ + field.name + ".as_str() } "@
}

/// The initializers of `fields`, in order, separated by commas.
pub open spec fn initializers_text(fields: Seq<FieldSpecView>) -> Seq<char>
    decreases fields.len(),
{
    if fields.len() == 0 {
        Seq::empty()
    } else if fields.len() == 1 {
        initializer_text(fields[0])
    } else {
        initializers_text(fields.drop_last()) + ", "@ + initializer_text(fields.last())
    }
}

/// The accessors of `fields`, in order.
pub open spec fn getters_text(fields: Seq<FieldSpecView>) -> Seq<char>
    decreases fields.len(),
{
    if fields.len() == 0 {
        Seq::empty()
    } else {
        getters_text(fields.drop_last()) + getter_text(fields.last())
    }
}

/// The whole implementation block of a record.
pub open spec fn impl_text(record: RecordSpecView) -> Seq<char> {
    "impl "@ + record.name + " { pub fn new() -> Self { Self { "@ + initializers_text(
        record.fields,
    ) + " } } "@ + getters_text(record.fields) + "}"@
}

/// Renders the fallback expression of `field`.
pub fn emit_fallback(field: &FieldSpec) -> (text: String)
    ensures
        text@ == fallback_text(field@),
{
    match field.default_value() {
        Some(value) => {
            let mut text = quote_string(value);
            text.append(".to_string()");
            text
        },
        None => {
            let mut format = MISSING_PREFIX.to_owned();
            format.append(PLACEHOLDER);
            format.append(MISSING_SUFFIX);
            let mut text = "panic!(".to_owned();
            text.append(quote_string(format.as_str()).as_str());
            text.append(", ");
            text.append(quote_string(field.source_var_name()).as_str());
            text.append(")");
            text
        },
    }
}

/// Renders the initializer of `field`.
pub fn emit_initializer(field: &FieldSpec) -> (text: String)
    ensures
        text@ == initializer_text(field@),
{
    let mut text = field.name().to_owned();
    text.append(": { match std::env::var(");
    text.append(quote_string(field.source_var_name()).as_str());
    text.append(") { Ok(val) => val, Err(_) => ");
    text.append(emit_fallback(field).as_str());
    text.append(", } }");
    text
}

/// Renders the accessor of `field`.
pub fn emit_getter(field: &FieldSpec) -> (text: String)
    ensures
        text@ == getter_text(field@),
{
    let mut text = "pub fn ".to_owned();
    text.append(field.name());
    text.append("(&self) -> &str { self.");
    text.append(field.name());
    text.append(".as_str() } ");
    text
}

/// Renders the implementation block of `record`: the constructor, then the
/// accessors, both in declaration order.
pub fn emit_impl(record: &RecordSpec) -> (text: String)
    ensures
        text@ == impl_text(record@),
{
    let mut text = "impl ".to_owned();
    text.append(record.name());
    text.append(" { pub fn new() -> Self { Self { ");
    let ghost head = text@;
    let mut i: usize = 0;
    while i < record.len()
        invariant
            i <= record@.fields.len(),
            text@ == head + initializers_text(record@.fields.take(i as int)),
        decreases record@.fields.len() - i,
    {
        assert(record@.fields.take(i + 1).drop_last() =~= record@.fields.take(i as int));
        if i > 0 {
            text.append(", ");
        }
        text.append(emit_initializer(record.field(i)).as_str());
        i += 1;
    }
    assert(record@.fields.take(i as int) =~= record@.fields);
    text.append(" } } ");
    let ghost middle = text@;
    let mut k: usize = 0;
    while k < record.len()
        invariant
            k <= record@.fields.len(),
            text@ == middle + getters_text(record@.fields.take(k as int)),
        decreases record@.fields.len() - k,
    {
        assert(record@.fields.take(k + 1).drop_last() =~= record@.fields.take(k as int));
        text.append(emit_getter(record.field(k)).as_str());
        k += 1;
    }
    assert(record@.fields.take(k as int) =~= record@.fields);
    text.append("}");
    text
}

/// Turns a declaration into the source of its implementation block.
///
/// Fails, before anything is rendered, exactly when the declaration is not
/// a struct made of named fields.
pub fn env_config_derive(input: &Declaration) -> (output: Result<String, UnsupportedShape>)
    ensures
        match output {
            Ok(text) => supported(input@) && text@ == impl_text(record_spec(input@)),
            Err(_) => !supported(input@),
        },
{
    match RecordSpec::parse(input) {
        Ok(record) => Ok(emit_impl(&record)),
        Err(e) => Err(e),
    }
}

} // verus!
