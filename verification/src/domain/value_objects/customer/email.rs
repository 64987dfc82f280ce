//! A customer's e-mail address, trimmed, lower-cased and checked for a
//! `local@domain.tld` shape.

use vstd::prelude::*;
use vstd::utf8::encode_utf8;

use crate::domain::error::ValidationError;
use crate::text::{lemma_trim_idempotent, to_chars, trim, trimmed, utf8_len_capped};

verus! {

/// What `str::to_lowercase` of std returns for a string with the characters `s`.
pub uninterp spec fn lowercase_of(s: Seq<char>) -> Seq<char>;

/// `str::to_lowercase` of std: the Unicode lower-case form of `s`, which it
/// computes from `s` alone; its result is named [`lowercase_of`] and nothing
/// more is stated of it.
#[verifier::external_body]
fn to_lowercase(s: &str) -> (r: String)
    ensures
        r@ == lowercase_of(s@),
{
    s.to_lowercase()
}

/// The index of the first `'@'` of `s`, or `s.len()` when there is none.
pub open spec fn first_at(s: Seq<char>) -> int
    decreases s.len(),
{
    if s.len() == 0 {
        0
    } else if s[0] == '@' {
        0
    } else {
        1 + first_at(s.drop_first())
    }
}

/// The form in which an address is kept: trimmed, then lower-cased.
pub open spec fn normalized_email(s: Seq<char>) -> Seq<char> {
    lowercase_of(trim(s))
}

/// The shape an e-mail address must have: not empty, at most 254 bytes of
/// UTF-8, a non-empty part before its first `'@'`, and a non-empty part
/// after it that contains a `'.'`.
pub open spec fn email_shape(e: Seq<char>) -> bool {
    let k = first_at(e);
    &&& e.len() > 0
    &&& encode_utf8(e).len() <= 254
    &&& k < e.len()
    &&& k > 0
    &&& k + 1 < e.len()
    &&& e.subrange(k + 1, e.len() as int).contains('.')
}

proof fn lemma_first_at(s: Seq<char>, i: int)
    requires
        0 <= i <= s.len(),
        forall|k: int| 0 <= k < i ==> #[trigger] s[k] != '@',
        i == s.len() || s[i] == '@',
    ensures
        first_at(s) == i,
    decreases i,
{
    if i > 0 {
        assert forall|k: int| 0 <= k < i - 1 implies #[trigger] s.drop_first()[k] != '@' by {
            assert(s.drop_first()[k] == s[k + 1]);
        }
        if i < s.len() {
            assert(s.drop_first()[i - 1] == s[i]);
        }
        lemma_first_at(s.drop_first(), i - 1);
    }
}

/// Every address `Email::new` accepts (and every `Email` holds, see
/// `as_str`) has an `'@'` at some position `i > 0` with no `'@'` before it,
/// and a `'.'` at some position after `i`: the dot is in the domain, not in
/// the local part. It is also non-empty and at most 254 bytes of UTF-8.
pub proof fn law_accepted_email_has_domain_dot(e: Seq<char>)
    requires
        email_shape(e),
    ensures
        exists|i: int, j: int|
            #![trigger e[i], e[j]]
            0 < i < j < e.len() && e[i] == '@' && e[j] == '.' && (forall|k: int|
                0 <= k < i ==> e[k] != '@'),
        encode_utf8(e).len() <= 254,
{
    let i = first_at(e);
    lemma_first_at_props(e);
    let dom = e.subrange(i + 1, e.len() as int);
    let k = choose|k: int| 0 <= k < dom.len() && dom[k] == '.';
    let j = i + 1 + k;
    assert(e[j] == dom[k]);
    assert(0 < i < j < e.len() && e[i] == '@' && e[j] == '.');
}

proof fn lemma_first_at_props(s: Seq<char>)
    ensures
        0 <= first_at(s) <= s.len(),
        first_at(s) < s.len() ==> s[first_at(s)] == '@',
        forall|k: int| 0 <= k < first_at(s) ==> s[k] != '@',
    decreases s.len(),
{
    if s.len() > 0 && s[0] != '@' {
        lemma_first_at_props(s.drop_first());
        assert forall|k: int| 0 <= k < first_at(s) implies s[k] != '@' by {
            if k > 0 {
                assert(s[k] == s.drop_first()[k - 1]);
            }
        }
        if first_at(s) < s.len() {
            assert(s[first_at(s)] == s.drop_first()[first_at(s) - 1]);
        }
    }
}

/// White space around an address never changes what `Email::new` returns:
/// the address is trimmed before it is lower-cased and checked.
pub proof fn law_email_ignores_surrounding_space(s: Seq<char>)
    ensures
        normalized_email(trim(s)) == normalized_email(s),
{
    lemma_trim_idempotent(s);
}

/// A validated, normalised e-mail address.
#[derive(Debug, PartialEq)]
pub struct Email(String);

impl View for Email {
    type V = Seq<char>;

    closed spec fn view(&self) -> Seq<char> {
        self.0@
    }
}

impl Clone for Email {
    fn clone(&self) -> (r: Self)
        ensures
            r@ == self@,
    {
        proof {
            use_type_invariant(self);
        }
        Email(self.0.clone())
    }
}

impl Email {
    #[verifier::type_invariant]
    spec fn well_formed(self) -> bool {
        email_shape(self.0@)
    }

    /// Trims and lower-cases `email`, then accepts it when it has the shape of
    /// [`email_shape`]; otherwise `InvalidEmail`.
    pub fn new(email: &str) -> (r: Result<Self, ValidationError>)
        ensures
            r is Ok <==> email_shape(normalized_email(email@)),
            r matches Ok(e) ==> e@ == normalized_email(email@),
            r matches Err(x) ==> x == ValidationError::InvalidEmail,
    {
        let email = to_lowercase(trimmed(email).as_str());

        if email.as_str().is_empty() {
            return Err(ValidationError::InvalidEmail);
        }

        let v = to_chars(email.as_str());
        if utf8_len_capped(&v, 254) > 254 {
            return Err(ValidationError::InvalidEmail);
        }

        let mut at: usize = 0;
        while at < v.len() && v[at] != '@'
            invariant
                at <= v.len(),
                forall|k: int| 0 <= k < at ==> #[trigger] v@[k] != '@',
            decreases v.len() - at,
        {
            at = at + 1;
        }
        proof {
            lemma_first_at(v@, at as int);
        }
        if at == v.len() {
            return Err(ValidationError::InvalidEmail);
        }

        if at == 0 {
            return Err(ValidationError::InvalidEmail);
        }

        if at + 1 == v.len() {
            return Err(ValidationError::InvalidEmail);
        }

        let ghost domain = v@.subrange(at + 1, v.len() as int);
        let mut j: usize = at + 1;
        let mut has_dot = false;
        while j < v.len()
            invariant
                at + 1 <= j <= v.len(),
                domain == v@.subrange(at + 1, v.len() as int),
                has_dot == exists|k: int| at + 1 <= k < j && #[trigger] v@[k] == '.',
            decreases v.len() - j,
        {
            if v[j] == '.' {
                has_dot = true;
            }
            j = j + 1;
        }
        if !has_dot {
            assert(!domain.contains('.')) by {
                if domain.contains('.') {
                    let k = choose|k: int| 0 <= k < domain.len() && domain[k] == '.';
                    assert(v@[at + 1 + k] == '.');
                }
            }
            return Err(ValidationError::InvalidEmail);
        }
        assert(domain.contains('.')) by {
            let k = choose|k: int| at + 1 <= k < v.len() && #[trigger] v@[k] == '.';
            assert(domain[k - at - 1] == '.');
        }
        Ok(Email(email))
    }

    /// The normalised address.
    pub fn as_str(&self) -> (r: &str)
        ensures
            r@ == self@,
            email_shape(r@),
    {
        proof {
            use_type_invariant(self);
        }
        self.0.as_str()
    }
}

} // verus!
