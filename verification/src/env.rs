//! Where configuration overrides come from: a set of named variables.

use vstd::prelude::*;
use vstd::hash_map::StringHashMap;
use crate::text_model;

verus! {

/// A set of named variables that can be read and changed: the process
/// environment, or a stand-in for it.
pub trait EnvBackend {
    /// Whether a read of the variable `var` may give `value`. Unless an
    /// implementation says more, any read may give anything: the process
    /// environment belongs to the whole process.
    open spec fn reads(&self, var: Seq<char>, value: Option<Seq<char>>) -> bool {
        true
    }

    /// Read an environment variable: nothing if the variable is not set.
    fn var(&self, var: &str) -> (value: Option<String>)
        ensures
            self.reads(var@, text_model(value)),
    ;

    /// Set an environment variable
    fn set_var(&mut self, var: &str, value: &str);

    /// Remove an environment variable
    fn remove(&mut self, var: &str);
}

/// What a set of variables gives for a name.
pub open spec fn variable(variables: Map<Seq<char>, Seq<char>>, name: Seq<char>) -> Option<
    Seq<char>,
> {
    if variables.dom().contains(name) {
        Some(variables[name])
    } else {
        None
    }
}

/// A set of variables held in memory, for use in place of the process
/// environment. What is read is what was set last.
pub struct MockEnvBackend {
    vars: StringHashMap<String>,
}

impl MockEnvBackend {
    /// The variables that are set, each with its value.
    pub closed spec fn variables(&self) -> Map<Seq<char>, Seq<char>> {
        self.vars@.map_values(|value: String| value@)
    }
}

impl Default for MockEnvBackend {
    fn default() -> (env: Self)
        ensures
            env.variables() == Map::<Seq<char>, Seq<char>>::empty(),
    {
        let env = MockEnvBackend { vars: StringHashMap::new() };
        proof {
            assert(env.variables() =~= Map::<Seq<char>, Seq<char>>::empty());
        }
        env
    }
}

impl EnvBackend for MockEnvBackend {
    /// A read gives what was set last, and nothing else.
    open spec fn reads(&self, var: Seq<char>, value: Option<Seq<char>>) -> bool {
        value == variable(self.variables(), var)
    }

    fn var(&self, var: &str) -> (value: Option<String>) {
        match self.vars.get(var) {
            Some(value) => Some(value.clone()),
            None => None,
        }
    }

    fn set_var(&mut self, var: &str, value: &str)
        ensures
            final(self).variables() == old(self).variables().insert(var@, value@),
    {
        let ghost before = self.vars@;
        let stored = value.to_string();
        self.vars.insert(var.to_string(), stored);
        proof {
            assert(self.variables() =~= before.map_values(|value: String| value@).insert(
                var@,
                value@,
            ));
        }
    }

    fn remove(&mut self, var: &str)
        ensures
            final(self).variables() == old(self).variables().remove(var@),
    {
        let ghost before = self.vars@;
        self.vars.remove(var);
        proof {
            assert(self.variables() =~= before.map_values(|value: String| value@).remove(var@));
        }
    }
}

} // verus!
