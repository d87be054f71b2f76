//! What one resume reports to the caller.
use vstd::prelude::*;
use vstd::std_specs::cmp::PartialEqSpec;
use vstd::std_specs::cmp::PartialEqSpecImpl;

verus! {

/// The outcome of one resume that reached a verdict.
#[derive(Debug, Hash)]
pub enum CoroutineResult<YIELD, RET> {
    /// The routine suspended itself and handed this value out.
    Yield(YIELD),
    /// The routine ran to its end with this value.
    Return(RET),
    /// The coroutine could not be run; the message says why.
    Error(&'static str),
}

/// `str`'s `==` from the standard library: true exactly when the two strings
/// hold the same characters.
#[verifier::external_body]
fn same_text(a: &str, b: &str) -> (r: bool)
    ensures
        r == (a@ == b@),
{
    a == b
}

impl<YIELD: Clone, RET: Clone> Clone for CoroutineResult<YIELD, RET> {
    /// A result of the same kind around a clone of the value; an error keeps
    /// its message.
    fn clone(&self) -> (res: Self)
        ensures
            match (*self, res) {
                (CoroutineResult::Error(a), CoroutineResult::Error(b)) => a == b,
                (CoroutineResult::Return(a), CoroutineResult::Return(b)) => cloned::<RET>(a, b),
                (CoroutineResult::Yield(a), CoroutineResult::Yield(b)) => cloned::<YIELD>(a, b),
                _ => false,
            },
    {
        match self {
            CoroutineResult::Error(e) => CoroutineResult::Error(e),
            CoroutineResult::Return(r) => CoroutineResult::Return(r.clone()),
            CoroutineResult::Yield(y) => CoroutineResult::Yield(y.clone()),
        }
    }
}

impl<YIELD: Copy, RET: Copy> Copy for CoroutineResult<YIELD, RET> {

}

impl<YIELD: PartialEq, RET: PartialEq> PartialEq for CoroutineResult<YIELD, RET> {
    fn eq(&self, other: &Self) -> (r: bool) {
        match (self, other) {
            (CoroutineResult::Error(a), CoroutineResult::Error(b)) => same_text(a, b),
            (CoroutineResult::Return(a), CoroutineResult::Return(b)) => a.eq(b),
            (CoroutineResult::Yield(a), CoroutineResult::Yield(b)) => a.eq(b),
            _ => false,
        }
    }
}

impl<YIELD: PartialEq, RET: PartialEq> PartialEqSpecImpl for CoroutineResult<YIELD, RET> {
    /// `==` is what is stated below wherever it is so for both value types.
    open spec fn obeys_eq_spec() -> bool {
        YIELD::obeys_eq_spec() && RET::obeys_eq_spec()
    }

    /// Two results are equal when they are of the same kind and hold equal
    /// values; two errors, when their messages read the same.
    open spec fn eq_spec(&self, other: &Self) -> bool {
        match (*self, *other) {
            (CoroutineResult::Error(a), CoroutineResult::Error(b)) => a@ == b@,
            (CoroutineResult::Return(a), CoroutineResult::Return(b)) => a.eq_spec(&b),
            (CoroutineResult::Yield(a), CoroutineResult::Yield(b)) => a.eq_spec(&b),
            _ => false,
        }
    }
}

impl<YIELD: Eq, RET: Eq> Eq for CoroutineResult<YIELD, RET> {

}

} // verus!
