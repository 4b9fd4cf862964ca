//! A snapshot of the process environment: variable names mapped to values.
use vstd::prelude::*;

verus! {

/// The mapping that a list of bindings denotes; a later binding of a name
/// replaces an earlier one.
spec fn bindings(entries: Seq<(String, String)>) -> Map<Seq<char>, Seq<char>>
    decreases entries.len(),
{
    if entries.len() == 0 {
        Map::empty()
    } else {
        bindings(entries.drop_last()).insert(entries.last().0@, entries.last().1@)
    }
}

/// The value that `env` gives to `name`, if any.
pub open spec fn lookup(env: Map<Seq<char>, Seq<char>>, name: Seq<char>) -> Option<Seq<char>> {
    if env.contains_key(name) {
        Some(env[name])
    } else {
        None
    }
}

/// A name bound at position `k` and nowhere after it has the value bound
/// there.
proof fn lemma_last_binding(entries: Seq<(String, String)>, name: Seq<char>, k: int)
    requires
        0 <= k < entries.len(),
        entries[k].0@ == name,
        forall|j: int| k < j < entries.len() ==> (#[trigger] entries[j]).0@ != name,
    ensures
        lookup(bindings(entries), name) == Some(entries[k].1@),
    decreases entries.len(),
{
    if k < entries.len() - 1 {
        lemma_last_binding(entries.drop_last(), name, k);
    }
}

/// A name bound nowhere has no value.
proof fn lemma_unbound(entries: Seq<(String, String)>, name: Seq<char>)
    requires
        forall|j: int| 0 <= j < entries.len() ==> (#[trigger] entries[j]).0@ != name,
    ensures
        lookup(bindings(entries), name) is None,
    decreases entries.len(),
{
    if entries.len() > 0 {
        lemma_unbound(entries.drop_last(), name);
    }
}

/// Environment variables captured at one moment.
#[derive(Clone, Debug)]
pub struct Environment {
    entries: Vec<(String, String)>,
}

impl View for Environment {
    type V = Map<Seq<char>, Seq<char>>;

    closed spec fn view(&self) -> Map<Seq<char>, Seq<char>> {
        bindings(self.entries@)
    }
}

impl Environment {
    /// An environment in which no variable is set.
    pub fn new() -> (env: Environment)
        ensures
            env@ == Map::<Seq<char>, Seq<char>>::empty(),
    {
        Environment { entries: Vec::new() }
    }

    /// Sets `name` to `value`, replacing any earlier value.
    pub fn set(&mut self, name: String, value: String)
        ensures
            final(self)@ == old(self)@.insert(name@, value@),
    {
        let ghost before = self.entries@;
        self.entries.push((name, value));
        assert(self.entries@.drop_last() =~= before);
    }

    /// The value of `name`, or `None` when it is not set.
    pub fn get(&self, name: &str) -> (value: Option<&str>)
        ensures
            value.is_some() == self@.contains_key(name@),
            value.is_some() ==> value.unwrap()@ == self@[name@],
    {
        let wanted = name.to_owned();
        let mut i: usize = self.entries.len();
        while i > 0
            invariant
                i <= self.entries.len(),
                wanted@ == name@,
                forall|j: int|
                    i <= j < self.entries.len() ==> (#[trigger] self.entries@[j]).0@ != name@,
            decreases i,
        {
            i -= 1;
            if self.entries[i].0 == wanted {
                proof {
                    lemma_last_binding(self.entries@, name@, i as int);
                }
                return Some(self.entries[i].1.as_str());
            }
        }
        proof {
            lemma_unbound(self.entries@, name@);
        }
        None
    }
}

} // verus!
