use vstd::prelude::*;

use crate::text::{str_eq_chars, str_to_chars};

verus! {

/// The names of the parameters a config exposes explicitly.
#[derive(Debug)]
pub struct ExplicitParameters {
    inner: Vec<String>,
}

/// The names held, as character sequences.
pub open spec fn names_view(v: Seq<String>) -> Seq<Seq<char>> {
    Seq::new(v.len(), |i: int| v[i]@)
}

impl ExplicitParameters {
    /// The names, in order.
    pub closed spec fn names(&self) -> Seq<Seq<char>> {
        names_view(self.inner@)
    }

    /// A set of explicit parameters holding the given names.
    pub fn from_vec(parameters: Vec<String>) -> (r: Self)
        ensures
            r.names() == names_view(parameters@),
    {
        ExplicitParameters { inner: parameters }
    }

    /// Whether a name is among the parameters.
    pub fn contains(&self, parameter: &str) -> (r: bool)
        ensures
            r == self.names().contains(parameter@),
    {
        let p = str_to_chars(parameter);
        let mut i: usize = 0;
        while i < self.inner.len()
            invariant
                i <= self.inner.len(),
                p@ == parameter@,
                forall|k: int| 0 <= k < i ==> self.inner@[k]@ != parameter@,
            decreases self.inner.len() - i,
        {
            if str_eq_chars(self.inner[i].as_str(), &p) {
                assert(self.names()[i as int] == parameter@);
                return true;
            }
            i = i + 1;
        }
        assert forall|k: int| 0 <= k < self.names().len() implies self.names()[k] != parameter@ by {
            assert(self.names()[k] == self.inner@[k]@);
        }
        false
    }

    /// The names as a vector of strings.
    pub fn unperformant_to_vec(&self) -> (r: Vec<String>)
        ensures
            names_view(r@) == self.names(),
    {
        let mut r: Vec<String> = Vec::new();
        let mut i: usize = 0;
        while i < self.inner.len()
            invariant
                i <= self.inner.len(),
                r@ == self.inner@.take(i as int),
            decreases self.inner.len() - i,
        {
            r.push(self.inner[i].clone());
            assert(self.inner@.take(i + 1) =~= self.inner@.take(i as int).push(self.inner@[i as int]));
            i = i + 1;
        }
        assert(self.inner@.take(self.inner.len() as int) =~= self.inner@);
        r
    }

    /// A copy holding the same names.
    pub fn copy_params(&self) -> (r: Self)
        ensures
            r.names() == self.names(),
    {
        ExplicitParameters { inner: self.unperformant_to_vec() }
    }
}

} // verus!
