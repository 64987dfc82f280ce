//! A customer's name, trimmed and bounded in length.

use vstd::prelude::*;
use vstd::utf8::encode_utf8;

use crate::domain::error::ValidationError;
use crate::text::{lemma_trim_idempotent, to_chars, trim, trimmed, utf8_len_capped};

verus! {

/// The shortest name accepted, in bytes of UTF-8.
pub const NAME_MIN_LENGTH: usize = 3;

/// The longest name accepted, in bytes of UTF-8.
pub const NAME_MAX_LENGTH: usize = 120;

/// A name is acceptable when its UTF-8 encoding has 3 to 120 bytes.
pub open spec fn name_length_ok(n: Seq<char>) -> bool {
    NAME_MIN_LENGTH <= encode_utf8(n).len() <= NAME_MAX_LENGTH
}

/// White space around a name never changes what `Name::new` returns, and the
/// name it keeps is accepted again unchanged.
pub proof fn law_name_trim_once(s: Seq<char>)
    ensures
        trim(trim(s)) == trim(s),
        name_length_ok(trim(s)) ==> name_length_ok(trim(trim(s))),
{
    lemma_trim_idempotent(s);
}

/// A validated, trimmed name.
#[derive(Debug, PartialEq)]
pub struct Name(String);

impl View for Name {
    type V = Seq<char>;

    closed spec fn view(&self) -> Seq<char> {
        self.0@
    }
}

impl Clone for Name {
    fn clone(&self) -> (r: Self)
        ensures
            r@ == self@,
    {
        proof {
            use_type_invariant(self);
        }
        Name(self.0.clone())
    }
}

impl Name {
    #[verifier::type_invariant]
    spec fn well_formed(self) -> bool {
        &&& name_length_ok(self.0@)
        &&& trim(self.0@) == self.0@
    }

    /// Trims `name` and accepts it when it then has 3 to 120 bytes; otherwise
    /// `InvalidName`.
    pub fn new(name: &str) -> (r: Result<Self, ValidationError>)
        ensures
            r is Ok <==> name_length_ok(trim(name@)),
            r matches Ok(n) ==> n@ == trim(name@),
            r matches Err(e) ==> e == ValidationError::InvalidName,
    {
        let ghost input = name@;
        let name = trimmed(name);
        let len = utf8_len_capped(&to_chars(name.as_str()), NAME_MAX_LENGTH);
        if len < NAME_MIN_LENGTH || len > NAME_MAX_LENGTH {
            return Err(ValidationError::InvalidName);
        }
        proof {
            lemma_trim_idempotent(input);
        }
        Ok(Self(name))
    }

    /// The trimmed name.
    pub fn as_str(&self) -> (r: &str)
        ensures
            r@ == self@,
            name_length_ok(r@),
            trim(r@) == r@,
    {
        proof {
            use_type_invariant(self);
        }
        self.0.as_str()
    }
}

} // verus!
