//! A snapshot of process environment variables, handed in by the caller and
//! threaded through the planners by value.

use vstd::prelude::*;
use vstd::string::*;
use crate::common::text::{opt_string_view, str_eq};

verus! {

/// Environment variables as name and value pairs. Where a name occurs more
/// than once, the pair nearest the end counts.
#[derive(Debug, Clone, PartialEq, Eq)]
pub struct Environment {
    pub vars: Vec<(String, String)>,
}

impl View for Environment {
    type V = Seq<(Seq<char>, Seq<char>)>;

    open spec fn view(&self) -> Seq<(Seq<char>, Seq<char>)> {
        self.vars.deep_view()
    }
}

/// The value a name is bound to, if any: that of the last pair with the name.
pub open spec fn lookup(vars: Seq<(Seq<char>, Seq<char>)>, name: Seq<char>) -> Option<Seq<char>>
    decreases vars.len(),
{
    if vars.len() == 0 {
        None
    } else if vars.last().0 == name {
        Some(vars.last().1)
    } else {
        lookup(vars.drop_last(), name)
    }
}

impl Environment {
    /// An environment that binds no name.
    pub fn new() -> (r: Environment)
        ensures
            r@ == Seq::<(Seq<char>, Seq<char>)>::empty(),
    {
        let r = Environment { vars: Vec::new() };
        assert(r@ =~= Seq::empty());
        r
    }

    /// A second environment with the same bindings.
    pub fn copy(&self) -> (r: Environment)
        ensures
            r@ == self@,
    {
        let mut vars: Vec<(String, String)> = Vec::new();
        for i in 0..self.vars.len()
            invariant
                vars.deep_view() == self@.take(i as int),
        {
            let ghost before = vars;
            let pair = (self.vars[i].0.clone(), self.vars[i].1.clone());
            vars.push(pair);
            assert(vars.deep_view() =~= before.deep_view().push(self@[i as int]));
            assert(vars.deep_view() =~= self@.take(i + 1));
        }
        assert(self@.take(self.vars.len() as int) =~= self@);
        Environment { vars }
    }

    /// The value of a variable, if it is set.
    pub fn get(&self, name: &str) -> (r: Option<String>)
        ensures
            opt_string_view(r) == lookup(self@, name@),
    {
        let ghost all = self@;
        let mut i: usize = self.vars.len();
        assert(all.take(i as int) =~= all);
        while i > 0
            invariant
                i <= self.vars@.len(),
                all == self@,
                lookup(all, name@) == lookup(all.take(i as int), name@),
            decreases i,
        {
            i = i - 1;
            proof {
                assert(all.take(i + 1).drop_last() =~= all.take(i as int));
                assert(all.take(i + 1).last() == all[i as int]);
            }
            if str_eq(self.vars[i].0.as_str(), name) {
                return Some(self.vars[i].1.clone());
            }
        }
        None
    }

    /// Binds a variable, overriding an earlier binding of the same name.
    pub fn set(&mut self, name: &str, value: &str)
        ensures
            final(self)@ == old(self)@.push((name@, value@)),
    {
        self.vars.push((String::from_str(name), String::from_str(value)));
        assert(self@ =~= old(self)@.push((name@, value@)));
    }
}

/// After a variable is set, looking it up gives the new value, and every
/// other variable is bound as before.
pub proof fn lemma_set_then_lookup(
    vars: Seq<(Seq<char>, Seq<char>)>,
    name: Seq<char>,
    value: Seq<char>,
    other: Seq<char>,
)
    ensures
        lookup(vars.push((name, value)), name) == Some(value),
        other != name ==> lookup(vars.push((name, value)), other) == lookup(vars, other),
{
    assert(vars.push((name, value)).drop_last() =~= vars);
}

} // verus!
