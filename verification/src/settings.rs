//! Settings as a process receives them: named texts, looked up by name.

use vstd::prelude::*;
use vstd::string::StringExecFns;

verus! {

/// A snapshot of the variables that configure the process.
#[derive(Debug, PartialEq, Eq)]
pub struct Environment {
    pub variables: Vec<(String, String)>,
}

/// What a list of variables holds: names and values.
pub open spec fn pairs_of(variables: Seq<(String, String)>) -> Seq<(Seq<char>, Seq<char>)> {
    variables.map_values(|v: (String, String)| (v.0@, v.1@))
}

/// The value of the first variable called `name`.
pub open spec fn lookup(variables: Seq<(Seq<char>, Seq<char>)>, name: Seq<char>) -> Option<
    Seq<char>,
>
    decreases variables.len(),
{
    if variables.len() == 0 {
        None
    } else if variables[0].0 == name {
        Some(variables[0].1)
    } else {
        lookup(variables.drop_first(), name)
    }
}

/// A switch is on for the text `true`, off for the text `false`, and at its
/// default for any other text and where the variable is absent.
pub open spec fn switch(value: Option<Seq<char>>, default: bool) -> bool {
    if value == Some("true"@) {
        true
    } else if value == Some("false"@) {
        false
    } else {
        default
    }
}

/// The text of a variable, or a default where the variable is absent.
pub open spec fn text_or(value: Option<Seq<char>>, default: Seq<char>) -> Seq<char> {
    match value {
        Some(text) => text,
        None => default,
    }
}

/// A required variable is absent.
#[derive(Debug, PartialEq, Eq)]
pub struct ConfigError {
    /// The name of the variable.
    pub variable: String,
}

impl View for Environment {
    type V = Seq<(Seq<char>, Seq<char>)>;

    open spec fn view(&self) -> Seq<(Seq<char>, Seq<char>)> {
        pairs_of(self.variables@)
    }
}

impl Environment {
    pub fn new(variables: Vec<(String, String)>) -> (env: Environment)
        ensures
            env.variables == variables,
    {
        Environment { variables }
    }

    /// Looks a variable up by name.
    pub fn get(&self, name: &str) -> (value: Option<String>)
        ensures
            crate::types::text_of(value) == lookup(self@, name@),
    {
        let key = String::from_str(name);
        let mut i: usize = 0;
        assert(self@.skip(0) =~= self@);
        while i < self.variables.len()
            invariant
                i <= self.variables.len(),
                key@ == name@,
                lookup(self@, name@) == lookup(self@.skip(i as int), name@),
            decreases self.variables.len() - i,
        {
            proof {
                assert(self@.skip(i as int)[0] == self@[i as int]);
                assert(self@.skip(i as int).drop_first() =~= self@.skip(i + 1));
            }
            if self.variables[i].0 == key {
                return Some(self.variables[i].1.clone());
            }
            i += 1;
        }
        assert(self@.skip(i as int).len() == 0);
        None
    }

    /// A required variable: its text, or the error that names it.
    pub fn require(&self, name: &str) -> (value: Result<String, ConfigError>)
        ensures
            match value {
                Ok(text) => lookup(self@, name@) == Some(text@),
                Err(e) => lookup(self@, name@) is None && e.variable@ == name@,
            },
    {
        match self.get(name) {
            Some(text) => Ok(text),
            None => Err(ConfigError { variable: String::from_str(name) }),
        }
    }

    /// An optional variable: its text, or `default`.
    pub fn text(&self, name: &str, default: &str) -> (value: String)
        ensures
            value@ == text_or(lookup(self@, name@), default@),
    {
        match self.get(name) {
            Some(text) => text,
            None => String::from_str(default),
        }
    }

    /// A switch: see [`switch`].
    pub fn flag(&self, name: &str, default: bool) -> (on: bool)
        ensures
            on == switch(lookup(self@, name@), default),
    {
        match self.get(name) {
            Some(text) => {
                if text == String::from_str("true") {
                    true
                } else if text == String::from_str("false") {
                    false
                } else {
                    default
                }
            },
            None => default,
        }
    }
}

} // verus!
