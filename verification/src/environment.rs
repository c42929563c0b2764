use vstd::prelude::*;

use crate::ast::{ExprV, Expression, Name};

verus! {

/// The run-time environment: a mapping from variable names to the
/// values last assigned to them.
///
/// Bindings are kept as a sequence of pairs; the most recent binding
/// for a name stands first and shadows any older one. The environment
/// is viewed as the finite map this sequence denotes.
pub struct Environment {
    bindings: Vec<(Name, Expression)>,
}

/// The map a sequence of bindings denotes: a name refers to the first
/// pair that carries it.
spec fn bindings_map(s: Seq<(Name, Expression)>) -> Map<Seq<char>, ExprV>
    decreases s.len(),
{
    if s.len() == 0 {
        Map::empty()
    } else {
        bindings_map(s.subrange(1, s.len() as int)).insert(s[0].0@, s[0].1@)
    }
}

impl View for Environment {
    type V = Map<Seq<char>, ExprV>;

    closed spec fn view(&self) -> Map<Seq<char>, ExprV> {
        bindings_map(self.bindings@)
    }
}

proof fn lemma_bindings_first_match(s: Seq<(Name, Expression)>, i: int)
    requires
        0 <= i < s.len(),
        forall|j: int| 0 <= j < i ==> s[j].0@ != s[i].0@,
    ensures
        bindings_map(s).contains_key(s[i].0@),
        bindings_map(s)[s[i].0@] == s[i].1@,
    decreases i,
{
    if i > 0 {
        let tail = s.subrange(1, s.len() as int);
        assert forall|j: int| 0 <= j < i - 1 implies (#[trigger] tail[j]).0@ != tail[i - 1].0@ by {
            assert(tail[j] == s[j + 1]);
            assert(tail[i - 1] == s[i]);
        }
        lemma_bindings_first_match(tail, i - 1);
        assert(tail[i - 1] == s[i]);
        assert(s[0].0@ != s[i].0@);
    }
}

proof fn lemma_bindings_no_match(s: Seq<(Name, Expression)>, n: Seq<char>)
    requires
        forall|j: int| 0 <= j < s.len() ==> s[j].0@ != n,
    ensures
        !bindings_map(s).contains_key(n),
    decreases s.len(),
{
    if s.len() > 0 {
        let tail = s.subrange(1, s.len() as int);
        assert forall|j: int| 0 <= j < tail.len() implies (#[trigger] tail[j]).0@ != n by {
            assert(tail[j] == s[j + 1]);
        }
        lemma_bindings_no_match(tail, n);
    }
}

impl Environment {
    /// An environment with no bindings at all.
    pub fn new() -> (r: Environment)
        ensures
            r@ == Map::<Seq<char>, ExprV>::empty(),
    {
        Environment { bindings: Vec::new() }
    }

    /// Looks a name up; yields the value bound to it, or nothing when
    /// the name is unbound.
    pub fn get(&self, name: &str) -> (r: Option<&Expression>)
        ensures
            match r {
                Some(v) => self@.contains_key(name@) && v@ == self@[name@],
                None => !self@.contains_key(name@),
            },
    {
        let key: String = name.to_owned();
        let n = self.bindings.len();
        let mut i: usize = 0;
        while i < n
            invariant
                n == self.bindings@.len(),
                i <= n,
                key@ == name@,
                forall|j: int| 0 <= j < i ==> self.bindings@[j].0@ != name@,
            decreases n - i,
        {
            let p: &(Name, Expression) = &self.bindings[i];
            if p.0 == key {
                proof {
                    lemma_bindings_first_match(self.bindings@, i as int);
                }
                return Some(&p.1);
            }
            i = i + 1;
        }
        proof {
            lemma_bindings_no_match(self.bindings@, name@);
        }
        None
    }

    /// Binds a name to a value: the new binding shadows any older one,
    /// and every other name keeps the value it had.
    pub fn insert(&mut self, name: Name, value: Expression)
        ensures
            final(self)@ == old(self)@.insert(name@, value@),
    {
        let ghost before = self.bindings@;
        let ghost nv = (name@, value@);
        self.bindings.insert(0, (name, value));
        proof {
            assert(self.bindings@.subrange(1, self.bindings@.len() as int) =~= before);
            assert(self.bindings@[0].0@ == nv.0 && self.bindings@[0].1@ == nv.1);
        }
    }
}

} // verus!
