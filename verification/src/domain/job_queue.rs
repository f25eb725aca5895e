//! Messages published to the job queues.

use vstd::prelude::*;

verus! {

/// A message that knows the subject it is published under.
pub trait HasSubject {
    /// The subject.
    spec fn subject(&self) -> Seq<char>;

    /// The subject.
    fn get_subject(&self) -> (r: &str)
        ensures
            r@ == self.subject(),
    ;
}

} // verus!
