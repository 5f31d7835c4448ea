//! The prefixes a message must start with to invoke a prefixed command.

use vstd::prelude::*;

use crate::commands::errors::RuntimeError;

verus! {

/// Normalizes what a prefix getter returns into the list of prefixes, or the error it raised.
pub trait IntoPrefixesResult: Sized {
    /// The normalized result of this value.
    spec fn spec_prefixes_result(&self) -> Result<Vec<String>, RuntimeError>;

    /// Normalizes this value.
    fn into_prefixes_result(self) -> (r: Result<Vec<String>, RuntimeError>)
        ensures
            r == self.spec_prefixes_result(),
    ;
}

impl IntoPrefixesResult for Vec<String> {
    open spec fn spec_prefixes_result(&self) -> Result<Vec<String>, RuntimeError> {
        Ok(*self)
    }

    fn into_prefixes_result(self) -> (r: Result<Vec<String>, RuntimeError>) {
        Ok(self)
    }
}

impl IntoPrefixesResult for Result<Vec<String>, RuntimeError> {
    open spec fn spec_prefixes_result(&self) -> Result<Vec<String>, RuntimeError> {
        *self
    }

    fn into_prefixes_result(self) -> (r: Result<Vec<String>, RuntimeError>) {
        self
    }
}

/// The prefixes a fixed prefix list stands for: the strings of `prefixes`, in order.
pub fn static_prefixes(prefixes: &[&str]) -> (r: Vec<String>)
    ensures
        r@.len() == prefixes@.len(),
        forall|i: int| 0 <= i < r@.len() ==> #[trigger] r@[i]@ == prefixes@[i]@,
{
    let mut r: Vec<String> = Vec::new();
    let mut i: usize = 0;
    while i < prefixes.len()
        invariant
            i <= prefixes.len(),
            r@.len() == i,
            forall|j: int| 0 <= j < i ==> #[trigger] r@[j]@ == prefixes@[j]@,
        decreases prefixes.len() - i,
    {
        r.push(prefixes[i].to_owned());
        i += 1;
    }
    r
}

} // verus!
