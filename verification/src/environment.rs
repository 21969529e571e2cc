//! The environment variables that a process was started with.

use crate::text::{option_text, same_text};
use vstd::prelude::*;

verus! {

/// Environment variables, as names and values. Where a name is listed more
/// than once, the first one counts.
#[derive(Debug, PartialEq, Eq)]
pub struct Environment {
    pub vars: Vec<(String, String)>,
}

/// The variables that a list of names and values stands for.
pub open spec fn vars_model(vars: Seq<(String, String)>) -> Map<Seq<char>, Seq<char>>
    decreases vars.len(),
{
    if vars.len() == 0 {
        Map::empty()
    } else {
        vars_model(vars.drop_first()).insert(vars.first().0@, vars.first().1@)
    }
}

/// The value of the variable of that name, where it is set.
pub open spec fn variable(vars: Map<Seq<char>, Seq<char>>, name: Seq<char>) -> Option<Seq<char>> {
    if vars.contains_key(name) {
        Some(vars[name])
    } else {
        None
    }
}

impl View for Environment {
    type V = Map<Seq<char>, Seq<char>>;

    open spec fn view(&self) -> Map<Seq<char>, Seq<char>> {
        vars_model(self.vars@)
    }
}

impl Environment {
    /// The value of the variable of that name, where it is set.
    pub fn var(&self, name: &str) -> (value: Option<String>)
        ensures
            option_text(value) == variable(self@, name@),
    {
        assert(self.vars@.skip(0) =~= self.vars@);
        for i in 0..self.vars.len()
            invariant
                variable(vars_model(self.vars@.skip(i as int)), name@) == variable(self@, name@),
        {
            proof {
                assert(self.vars@.skip(i as int).first() == self.vars@[i as int]);
                assert(self.vars@.skip(i as int).drop_first() =~= self.vars@.skip(i + 1));
            }
            if same_text(self.vars[i].0.as_str(), name) {
                return Some(self.vars[i].1.clone());
            }
        }
        None
    }
}

} // verus!
