//! A snapshot of the process environment, read by the caller and handed in.
use vstd::prelude::*;

use crate::text::{owned, str_equal};

verus! {

/// The environment variables of the process, as name/value pairs.
#[derive(Clone, Debug)]
pub struct EnvVars {
    pub vars: Vec<(String, String)>,
}

/// The value of `name` among `vars`: the first pair of that name, empty when there is none.
pub open spec fn env_value(vars: Seq<(String, String)>, name: Seq<char>) -> Seq<char>
    decreases vars.len(),
{
    if vars.len() == 0 {
        Seq::empty()
    } else if vars[0].0@ == name {
        vars[0].1@
    } else {
        env_value(vars.skip(1), name)
    }
}

/// Some pair of `vars` has the name `name`.
pub open spec fn env_has(vars: Seq<(String, String)>, name: Seq<char>) -> bool {
    exists|i: int| 0 <= i < vars.len() && vars[i].0@ == name
}

impl EnvVars {
    pub open spec fn value(&self, name: Seq<char>) -> Seq<char> {
        env_value(self.vars@, name)
    }

    /// An environment without variables.
    pub fn empty() -> (e: EnvVars)
        ensures
            e.vars@.len() == 0,
    {
        EnvVars { vars: Vec::new() }
    }

    /// The value of the variable `name`; empty when it is not set.
    pub fn get_env_var(&self, name: &str) -> (r: String)
        ensures
            r@ == self.value(name@),
    {
        let mut i: usize = 0;
        assert(self.vars@.skip(0) =~= self.vars@);
        while i < self.vars.len()
            invariant
                i <= self.vars@.len(),
                self.value(name@) == env_value(self.vars@.skip(i as int), name@),
            decreases self.vars@.len() - i,
        {
            assert(self.vars@.skip(i as int)[0] == self.vars@[i as int]);
            assert(self.vars@.skip(i as int).skip(1) =~= self.vars@.skip(i + 1));
            if str_equal(self.vars[i].0.as_str(), name) {
                return owned(self.vars[i].1.as_str());
            }
            i = i + 1;
        }
        String::new()
    }

    /// Whether the variable `name` is set (possibly to an empty value).
    pub fn is_set(&self, name: &str) -> (r: bool)
        ensures
            r == env_has(self.vars@, name@),
    {
        let mut i: usize = 0;
        while i < self.vars.len()
            invariant
                i <= self.vars@.len(),
                forall|j: int| 0 <= j < i ==> self.vars@[j].0@ != name@,
            decreases self.vars@.len() - i,
        {
            if str_equal(self.vars[i].0.as_str(), name) {
                return true;
            }
            i = i + 1;
        }
        false
    }
}

} // verus!
