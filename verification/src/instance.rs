//! Building a configuration instance from a schema and an environment.
use vstd::prelude::*;
use vstd::string::StringExecFns;
use crate::environment::{lookup, Environment};
use crate::schema::{FieldSpec, FieldSpecView, RecordSpec, RecordSpecView};

verus! {

/// The value a field takes under `env`: the value of its source variable
/// when that is set, else its default, else nothing.
pub open spec fn resolved_value(field: FieldSpecView, env: Map<Seq<char>, Seq<char>>) -> Option<
    Seq<char>,
> {
    match lookup(env, field.source_var_name) {
        Some(value) => Some(value),
        None => field.default_value,
    }
}

/// Whether every field of `record` takes a value under `env`.
pub open spec fn resolvable(record: RecordSpecView, env: Map<Seq<char>, Seq<char>>) -> bool {
    forall|i: int|
        0 <= i < record.fields.len() ==> resolved_value(#[trigger] record.fields[i], env) is Some
}

/// Whether field `i` is the first field of `record` without a value under
/// `env`.
pub open spec fn first_missing(
    record: RecordSpecView,
    env: Map<Seq<char>, Seq<char>>,
    i: int,
) -> bool {
    &&& 0 <= i < record.fields.len()
    &&& resolved_value(record.fields[i], env) is None
    &&& forall|j: int| 0 <= j < i ==> resolved_value(#[trigger] record.fields[j], env) is Some
}

/// The fields of the instance that `record` yields under `env`: each field's
/// name paired with its value, in declaration order.
pub open spec fn instance_fields(record: RecordSpecView, env: Map<Seq<char>, Seq<char>>) -> Seq<
    (Seq<char>, Seq<char>),
> {
    Seq::new(
        record.fields.len(),
        |i: int| (record.fields[i].name, resolved_value(record.fields[i], env).unwrap()),
    )
}

/// The names of an instance's fields, in declaration order.
pub open spec fn field_names(fields: Seq<(Seq<char>, Seq<char>)>) -> Seq<Seq<char>> {
    Seq::new(fields.len(), |i: int| fields[i].0)
}

/// The value stored under the field called `name`: that of the first field
/// so named, if there is one.
pub open spec fn field_value(fields: Seq<(Seq<char>, Seq<char>)>, name: Seq<char>) -> Option<
    Seq<char>,
> {
    match field_names(fields).index_of_first(name) {
        Some(i) => Some(fields[i].1),
        None => None,
    }
}

/// The first position that holds `name` is the one `field_value` reads.
proof fn lemma_field_found(fields: Seq<(Seq<char>, Seq<char>)>, name: Seq<char>, i: int)
    requires
        0 <= i < fields.len(),
        fields[i].0 == name,
        forall|j: int| 0 <= j < i ==> (#[trigger] fields[j]).0 != name,
    ensures
        field_value(fields, name) == Some(fields[i].1),
{
    let names = field_names(fields);
    names.index_of_first_ensures(name);
    assert(names[i] == name);
    let k = names.index_of_first(name).unwrap();
    if k < i {
        assert(fields[k].0 == names[k]);
    } else if i < k {
        assert(names[i] != name);
    }
}

/// A name that no position holds has no value.
proof fn lemma_field_absent(fields: Seq<(Seq<char>, Seq<char>)>, name: Seq<char>)
    requires
        forall|j: int| 0 <= j < fields.len() ==> (#[trigger] fields[j]).0 != name,
    ensures
        field_value(fields, name) is None,
{
    let names = field_names(fields);
    names.index_of_first_ensures(name);
    if names.contains(name) {
        let k = choose|k: int| 0 <= k < names.len() && names[k] == name;
        assert(fields[k].0 == names[k]);
    }
}

/// A required variable that the environment does not hold.
#[derive(Clone, Debug)]
pub struct MissingVariable {
    /// The name of the variable that was looked up.
    pub variable: String,
}

/// What precedes the variable's name in the failure message.
pub const MISSING_PREFIX: &'static str = "\x1B[0;31m";

/// What follows the variable's name in the failure message.
pub const MISSING_SUFFIX: &'static str = " not found in the environment.\x1B[0m";

impl MissingVariable {
    /// The failure message: the variable's name followed by a fixed notice
    /// that it was not found, wrapped in terminal colour codes.
    pub fn message(&self) -> (text: String)
        ensures
            text@ == MISSING_PREFIX@ + self.variable@ + MISSING_SUFFIX@,
    {
        let mut text = MISSING_PREFIX.to_owned();
        text.append(self.variable.as_str());
        text.append(MISSING_SUFFIX);
        text
    }
}

/// Resolves one field: the value of its source variable, or its default, or
/// the error that names the variable.
pub fn resolve_value(spec: &FieldSpec, env: &Environment) -> (resolved: Result<
    String,
    MissingVariable,
>)
    ensures
        match resolved {
            Ok(value) => resolved_value(spec@, env@) == Some(value@),
            Err(e) => resolved_value(spec@, env@) is None && e.variable@
                == spec@.source_var_name,
        },
{
    match env.get(spec.source_var_name()) {
        Some(value) => Ok(value.to_owned()),
        None => match spec.default_value() {
            Some(value) => Ok(value.to_owned()),
            None => Err(MissingVariable { variable: spec.source_var_name().to_owned() }),
        },
    }
}

/// A fully populated record: one string per declared field. Values can be
/// read, never changed.
#[derive(Clone, Debug)]
pub struct ConfigurationInstance {
    entries: Vec<(String, String)>,
}

impl View for ConfigurationInstance {
    type V = Seq<(Seq<char>, Seq<char>)>;

    closed spec fn view(&self) -> Seq<(Seq<char>, Seq<char>)> {
        Seq::new(self.entries@.len(), |i: int| (self.entries@[i].0@, self.entries@[i].1@))
    }
}

impl ConfigurationInstance {
    /// Resolves every field of `record` against `env`, in declaration order.
    ///
    /// Succeeds exactly when every field has a value. Otherwise the error
    /// names the source variable of the first field that has none, and no
    /// instance exists.
    pub fn construct(record: &RecordSpec, env: &Environment) -> (built: Result<
        ConfigurationInstance,
        MissingVariable,
    >)
        ensures
            match built {
                Ok(instance) => resolvable(record@, env@) && instance@ == instance_fields(
                    record@,
                    env@,
                ),
                Err(e) => exists|i: int|
                    first_missing(record@, env@, i) && e.variable@
                        == record@.fields[i].source_var_name,
            },
    {
        let mut entries: Vec<(String, String)> = Vec::new();
        let mut i: usize = 0;
        while i < record.len()
            invariant
                i <= record@.fields.len(),
                entries@.len() == i,
                forall|j: int|
                    0 <= j < i ==> resolved_value(#[trigger] record@.fields[j], env@) == Some(
                        entries@[j].1@,
                    ),
                forall|j: int| 0 <= j < i ==> (#[trigger] entries@[j]).0@ == record@.fields[j].name,
            decreases record@.fields.len() - i,
        {
            let spec = record.field(i);
            match resolve_value(spec, env) {
                Ok(value) => {
                    entries.push((spec.name().to_owned(), value));
                },
                Err(e) => {
                    assert(first_missing(record@, env@, i as int));
                    return Err(e);
                },
            }
            i += 1;
        }
        let instance = ConfigurationInstance { entries };
        assert(instance@ =~= instance_fields(record@, env@));
        Ok(instance)
    }

    /// The value of the field called `field`, or `None` when the record has
    /// no field of that name.
    pub fn get(&self, field: &str) -> (value: Option<&str>)
        ensures
            value.is_some() == field_value(self@, field@).is_some(),
            value.is_some() ==> value.unwrap()@ == field_value(self@, field@).unwrap(),
    {
        let wanted = field.to_owned();
        let mut i: usize = 0;
        while i < self.entries.len()
            invariant
                i <= self.entries.len(),
                wanted@ == field@,
                forall|j: int| 0 <= j < i ==> (#[trigger] self@[j]).0 != field@,
            decreases self.entries.len() - i,
        {
            if self.entries[i].0 == wanted {
                proof {
                    lemma_field_found(self@, field@, i as int);
                }
                return Some(self.entries[i].1.as_str());
            }
            i += 1;
        }
        proof {
            lemma_field_absent(self@, field@);
        }
        None
    }

    /// The number of fields.
    pub fn len(&self) -> (n: usize)
        ensures
            n == self@.len(),
    {
        self.entries.len()
    }

    /// The name of the field at position `i`.
    pub fn name(&self, i: usize) -> (name: &str)
        requires
            i < self@.len(),
        ensures
            name@ == self@[i as int].0,
    {
        self.entries[i].0.as_str()
    }

    /// The value of the field at position `i`.
    pub fn value(&self, i: usize) -> (value: &str)
        requires
            i < self@.len(),
        ensures
            value@ == self@[i as int].1,
    {
        self.entries[i].1.as_str()
    }
}

} // verus!
