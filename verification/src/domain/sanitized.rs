//! Names that may only hold letters, digits, spaces and underscores.

use crate::domain::error::ValidationError;
use crate::text::{char_is_alphanumeric, chars_of, is_alphanumeric, push_char};
use vstd::prelude::*;

verus! {

/// Whether `c` may appear in a name before sanitizing.
pub open spec fn sanitize_allowed(c: char) -> bool {
    char_is_alphanumeric(c) || c == ' ' || c == '_'
}

/// `c` with a space turned into an underscore.
pub open spec fn underscore_space(c: char) -> char {
    if c == ' ' {
        '_'
    } else {
        c
    }
}

/// The outcome of sanitizing `s`: every space becomes `_` when all the
/// characters are allowed, otherwise `s` is refused as it is.
pub open spec fn sanitized(s: Seq<char>) -> Result<Seq<char>, Seq<char>> {
    if forall|i: int| 0 <= i < s.len() ==> sanitize_allowed(#[trigger] s[i]) {
        Ok(s.map_values(|c: char| underscore_space(c)))
    } else {
        Err(s)
    }
}

/// A name made of letters, digits and underscores, where every space of the
/// input has become an underscore.
#[derive(Debug, Clone)]
pub struct SanitizedString(String);

impl View for SanitizedString {
    type V = Seq<char>;

    closed spec fn view(&self) -> Seq<char> {
        self.0@
    }
}

impl SanitizedString {
    /// Sanitizes `str`, or refuses it with `InvalidCharacters` holding the input.
    pub fn new(str: String) -> (r: Result<Self, ValidationError>)
        ensures
            sanitized(str@) is Ok ==> (r matches Ok(v) && Ok::<Seq<char>, Seq<char>>(v@) == sanitized(str@)),
            sanitized(str@) is Err ==> (r matches Err(ValidationError::InvalidCharacters(e)) && e@ == str@),
    {
        match Self::sanitize(str) {
            Ok(s) => Ok(SanitizedString(s)),
            Err(e) => Err(e),
        }
    }

    /// The sanitized name.
    pub fn as_str(&self) -> (r: &str)
        ensures
            r@ == self@,
    {
        self.0.as_str()
    }

    fn sanitize(val: String) -> (r: Result<String, ValidationError>)
        ensures
            sanitized(val@) is Ok ==> (r matches Ok(v) && Ok::<Seq<char>, Seq<char>>(v@) == sanitized(val@)),
            sanitized(val@) is Err ==> (r matches Err(ValidationError::InvalidCharacters(e)) && e@ == val@),
    {
        let cs = chars_of(val.as_str());
        let n = cs.len();
        let mut out = String::new();
        let mut i: usize = 0;
        while i < n
            invariant
                n == cs@.len(),
                cs@ == val@,
                i <= n,
                forall|j: int| 0 <= j < i ==> sanitize_allowed(#[trigger] cs@[j]),
                out@ == cs@.subrange(0, i as int).map_values(|c: char| underscore_space(c)),
            decreases n - i,
        {
            let c = cs[i];
            if !(is_alphanumeric(c) || c == ' ' || c == '_') {
                return Err(ValidationError::InvalidCharacters(val));
            }
            if c == ' ' {
                push_char(&mut out, '_');
            } else {
                push_char(&mut out, c);
            }
            assert(cs@.subrange(0, i + 1).map_values(|c: char| underscore_space(c))
                == cs@.subrange(0, i as int).map_values(|c: char| underscore_space(c)).push(underscore_space(c)));
            i = i + 1;
        }
        assert(cs@.subrange(0, n as int) == cs@);
        Ok(out)
    }
}

/// Sanitizing is idempotent: a sanitized name is accepted again and comes
/// back unchanged.
pub proof fn lemma_sanitize_idempotent(s: Seq<char>)
    requires
        sanitized(s) is Ok,
    ensures
        sanitized(sanitized(s)->Ok_0) == sanitized(s),
{
    let t = sanitized(s)->Ok_0;
    assert forall|i: int| 0 <= i < t.len() implies sanitize_allowed(#[trigger] t[i]) by {
        assert(sanitize_allowed(s[i]));
    }
    assert(t.map_values(|c: char| underscore_space(c)) =~= t);
}

/// A sanitized name holds no space.
pub proof fn lemma_sanitized_has_no_space(s: Seq<char>)
    requires
        sanitized(s) is Ok,
    ensures
        !sanitized(s)->Ok_0.contains(' '),
{
}

} // verus!
