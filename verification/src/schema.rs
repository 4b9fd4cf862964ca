//! Resolved schemas: for every field, where its value comes from and what
//! happens when the environment has none.
use vstd::prelude::*;
use crate::declaration::{optional_text, DeclKind, Declaration, DeclarationView, FieldDecl, FieldDeclView};
use crate::literal::{to_uppercase, uppercase};
use crate::resolver::{attr_value, get_attr_value};

verus! {

/// The name of the directive that overrides a field's source variable.
pub const VAR_DIRECTIVE: &'static str = "var";

/// The name of the directive that gives a field its fallback value.
pub const DEFAULT_DIRECTIVE: &'static str = "default";

/// Resolved metadata of one field.
#[derive(Clone, Debug)]
pub struct FieldSpec {
    name: String,
    source_var_name: String,
    default_value: Option<String>,
}

/// The mathematical content of a [`FieldSpec`].
pub struct FieldSpecView {
    pub name: Seq<char>,
    pub source_var_name: Seq<char>,
    /// `None` marks the field as required.
    pub default_value: Option<Seq<char>>,
}

impl View for FieldSpec {
    type V = FieldSpecView;

    closed spec fn view(&self) -> FieldSpecView {
        FieldSpecView {
            name: self.name@,
            source_var_name: self.source_var_name@,
            default_value: optional_text(self.default_value),
        }
    }
}

/// The source variable of a field: what its `var` directive says, or else
/// the field's name in upper case.
pub open spec fn source_variable(var: Option<Seq<char>>, uppercased: Seq<char>) -> Seq<char> {
    match var {
        Some(v) => v,
        None => uppercased,
    }
}

/// The resolved form of a declared field; `None` when the field has no name.
pub open spec fn field_spec(field: FieldDeclView) -> Option<FieldSpecView> {
    match field.name {
        Some(name) => Some(
            FieldSpecView {
                name,
                source_var_name: source_variable(
                    attr_value(field.directives, VAR_DIRECTIVE@),
                    uppercase(name),
                ),
                default_value: attr_value(field.directives, DEFAULT_DIRECTIVE@),
            },
        ),
        None => None,
    }
}

impl FieldSpec {
    /// Builds the metadata of a field from its three parts.
    pub fn new(name: String, source_var_name: String, default_value: Option<String>) -> (spec:
        FieldSpec)
        ensures
            spec@ == (FieldSpecView {
                name: name@,
                source_var_name: source_var_name@,
                default_value: optional_text(default_value),
            }),
    {
        FieldSpec { name, source_var_name, default_value }
    }

    /// Builds the metadata of a field from what its directives said.
    /// `uppercased` is the field's name in upper case; it is the source
    /// variable unless `var` names another.
    pub fn from_directives(
        name: String,
        var: Option<String>,
        default_value: Option<String>,
        uppercased: String,
    ) -> (spec: FieldSpec)
        ensures
            spec@ == (FieldSpecView {
                name: name@,
                source_var_name: source_variable(optional_text(var), uppercased@),
                default_value: optional_text(default_value),
            }),
    {
        let source_var_name = match var {
            Some(v) => v,
            None => uppercased,
        };
        FieldSpec { name, source_var_name, default_value }
    }

    /// The field's name.
    pub fn name(&self) -> (name: &str)
        ensures
            name@ == self@.name,
    {
        self.name.as_str()
    }

    /// The environment variable the field is read from.
    pub fn source_var_name(&self) -> (var: &str)
        ensures
            var@ == self@.source_var_name,
    {
        self.source_var_name.as_str()
    }

    /// The fallback value; `None` when the field is required.
    pub fn default_value(&self) -> (value: Option<&str>)
        ensures
            value.is_some() == self@.default_value.is_some(),
            value.is_some() ==> value.unwrap()@ == self@.default_value.unwrap(),
    {
        match &self.default_value {
            Some(v) => Some(v.as_str()),
            None => None,
        }
    }
}

/// The failure of a declaration that is not a struct made of named fields.
#[derive(Clone, Copy, Debug, PartialEq, Eq, Structural)]
pub struct UnsupportedShape;

/// The message that an [`UnsupportedShape`] carries.
pub const UNSUPPORTED_SHAPE_MESSAGE: &'static str =
    "\x1B[0;31mEnvConfig only supports structs with named fields.\x1B[0m";

impl UnsupportedShape {
    /// The failure message.
    pub fn message(&self) -> (text: String)
        ensures
            text@ == UNSUPPORTED_SHAPE_MESSAGE@,
    {
        UNSUPPORTED_SHAPE_MESSAGE.to_owned()
    }
}

/// Resolves one declared field from its directives.
///
/// Fails exactly when the field has no name.
pub fn resolve_field(field: &FieldDecl) -> (resolved: Result<FieldSpec, UnsupportedShape>)
    ensures
        match resolved {
            Ok(spec) => field_spec(field@) == Some(spec@),
            Err(_) => field_spec(field@) is None,
        },
{
    match &field.name {
        Some(name) => {
            let var = get_attr_value(field, VAR_DIRECTIVE);
            let uppercased = to_uppercase(name.as_str());
            let default_value = get_attr_value(field, DEFAULT_DIRECTIVE);
            Ok(FieldSpec::from_directives(name.clone(), var, default_value, uppercased))
        },
        None => Err(UnsupportedShape),
    }
}

/// The resolved schema of one record type: its fields in declaration order.
#[derive(Clone, Debug)]
pub struct RecordSpec {
    name: String,
    fields: Vec<FieldSpec>,
}

/// The mathematical content of a [`RecordSpec`].
pub struct RecordSpecView {
    pub name: Seq<char>,
    pub fields: Seq<FieldSpecView>,
}

impl View for RecordSpec {
    type V = RecordSpecView;

    closed spec fn view(&self) -> RecordSpecView {
        RecordSpecView {
            name: self.name@,
            fields: Seq::new(self.fields@.len(), |i: int| self.fields@[i]@),
        }
    }
}

/// Whether a declaration can be resolved: it is a struct and every one of
/// its fields has a name.
pub open spec fn supported(decl: DeclarationView) -> bool {
    &&& decl.kind == DeclKind::Struct
    &&& forall|i: int| 0 <= i < decl.fields.len() ==> (#[trigger] decl.fields[i]).name is Some
}

/// The schema of a supported declaration: one resolved field per declared
/// field, in the same order.
pub open spec fn record_spec(decl: DeclarationView) -> RecordSpecView {
    RecordSpecView {
        name: decl.name,
        fields: Seq::new(decl.fields.len(), |i: int| field_spec(decl.fields[i]).unwrap()),
    }
}

impl RecordSpec {
    /// Builds a schema from already resolved fields.
    pub fn new(name: String, fields: Vec<FieldSpec>) -> (record: RecordSpec)
        ensures
            record@.name == name@,
            record@.fields == Seq::new(fields@.len(), |i: int| fields@[i]@),
    {
        RecordSpec { name, fields }
    }

    /// Resolves a declaration into a schema.
    ///
    /// Succeeds exactly on structs whose fields all have names; any other
    /// declaration is an [`UnsupportedShape`].
    pub fn parse(decl: &Declaration) -> (parsed: Result<RecordSpec, UnsupportedShape>)
        ensures
            match parsed {
                Ok(record) => supported(decl@) && record@ == record_spec(decl@),
                Err(_) => !supported(decl@),
            },
    {
        match decl.kind {
            DeclKind::Struct => {},
            _ => {
                return Err(UnsupportedShape);
            },
        }
        let mut fields: Vec<FieldSpec> = Vec::new();
        let mut i: usize = 0;
        while i < decl.fields.len()
            invariant
                i <= decl.fields.len(),
                fields@.len() == i,
                forall|j: int|
                    0 <= j < i ==> field_spec(#[trigger] decl@.fields[j]) == Some(fields@[j]@),
            decreases decl.fields.len() - i,
        {
            assert(decl@.fields[i as int] == decl.fields@[i as int]@);
            match resolve_field(&decl.fields[i]) {
                Ok(spec) => {
                    fields.push(spec);
                },
                Err(e) => {
                    return Err(e);
                },
            }
            i += 1;
        }
        let record = RecordSpec { name: decl.name.clone(), fields };
        assert(record@.fields =~= record_spec(decl@).fields);
        Ok(record)
    }

    /// The name of the record type.
    pub fn name(&self) -> (name: &str)
        ensures
            name@ == self@.name,
    {
        self.name.as_str()
    }

    /// The number of fields.
    pub fn len(&self) -> (n: usize)
        ensures
            n == self@.fields.len(),
    {
        self.fields.len()
    }

    /// The field at position `i`, counted in declaration order.
    pub fn field(&self, i: usize) -> (spec: &FieldSpec)
        requires
            i < self@.fields.len(),
        ensures
            spec@ == self@.fields[i as int],
    {
        &self.fields[i]
    }
}

} // verus!
