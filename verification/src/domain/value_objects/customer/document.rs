//! Brazilian taxpayer documents: CPF (individuals) and CNPJ (companies),
//! validated by their check digits.

use vstd::prelude::*;

use crate::domain::error::ValidationError;
use crate::text::{ascii_digit, digit_char, digit_value, is_ascii_digit, to_chars, trim, trim_bounds};

verus! {

/// The kind of a taxpayer document.
#[derive(Debug, Clone, Copy, PartialEq, Eq, Structural)]
pub enum DocumentType {
    Cpf,
    Cnpj,
}

// ---------------------------------------------------------------------------
// Specification
// ---------------------------------------------------------------------------

/// The ASCII digits of `s`, in order; every other character is dropped.
pub open spec fn only_digits(s: Seq<char>) -> Seq<char>
    decreases s.len(),
{
    if s.len() == 0 {
        seq![]
    } else if is_ascii_digit(s.last()) {
        only_digits(s.drop_last()).push(s.last())
    } else {
        only_digits(s.drop_last())
    }
}

/// Every character of `s` equals its first one (true of the empty sequence).
pub open spec fn all_same(s: Seq<char>) -> bool {
    forall|i: int| 0 <= i < s.len() ==> #[trigger] s[i] == s[0]
}

/// Every character of `s` is an ASCII digit.
pub open spec fn all_digits(s: Seq<char>) -> bool {
    forall|i: int| 0 <= i < s.len() ==> is_ascii_digit(#[trigger] s[i])
}

/// The numeric values of the digits of `s`.
pub open spec fn digit_seq(s: Seq<char>) -> Seq<u32> {
    Seq::new(s.len(), |i: int| digit_value(s[i]) as u32)
}

/// How many (digit, weight) pairs `calcular_digito` sums: the weights run
/// from `peso` down to 2.
pub open spec fn weighted_terms(len: int, peso: int) -> int {
    if peso < 2 {
        0
    } else if len < peso - 1 {
        len
    } else {
        peso - 1
    }
}

/// `base[0] * peso + base[1] * (peso - 1) + ...` over the first `n` digits.
pub open spec fn weighted_sum(base: Seq<u32>, peso: int, n: int) -> int
    decreases n,
{
    if n <= 0 {
        0
    } else {
        weighted_sum(base, peso, n - 1) + base[n - 1] * (peso - (n - 1))
    }
}

/// The modulus-11 check digit of a weighted sum.
pub open spec fn check_digit_of(sum: int) -> int {
    if sum % 11 < 2 {
        0
    } else {
        11 - sum % 11
    }
}

/// The check digit that `calcular_digito(base, peso)` computes.
pub open spec fn spec_calcular_digito(base: Seq<u32>, peso: int) -> int {
    check_digit_of(weighted_sum(base, peso, weighted_terms(base.len() as int, peso)))
}

/// The weights of the first CNPJ check digit.
pub open spec fn cnpj_weights1() -> Seq<u32> {
    seq![5u32, 4, 3, 2, 9, 8, 7, 6, 5, 4, 3, 2]
}

/// The weights of the second CNPJ check digit.
pub open spec fn cnpj_weights2() -> Seq<u32> {
    seq![6u32, 5, 4, 3, 2, 9, 8, 7, 6, 5, 4, 3, 2]
}

/// `a[0] * w[0] + ... + a[n - 1] * w[n - 1]`.
pub open spec fn dot(a: Seq<u32>, w: Seq<u32>, n: int) -> int
    decreases n,
{
    if n <= 0 {
        0
    } else {
        dot(a, w, n - 1) + a[n - 1] * w[n - 1]
    }
}

/// A CPF: eleven digits once the mask is dropped, not all the same, whose last
/// two are the check digits of the nine and ten before them.
pub open spec fn cpf_valid(s: Seq<char>) -> bool {
    let d = only_digits(s);
    let v = digit_seq(d);
    &&& d.len() == 11
    &&& !all_same(d)
    &&& v[9] == spec_calcular_digito(v.take(9), 10)
    &&& v[10] == spec_calcular_digito(v.take(10), 11)
}

/// A CNPJ: fourteen digits once the mask is dropped, not all the same, whose
/// last two are the weighted modulus-11 check digits of the twelve and
/// thirteen before them.
pub open spec fn cnpj_valid(s: Seq<char>) -> bool {
    let d = only_digits(s);
    let v = digit_seq(d);
    &&& d.len() == 14
    &&& !all_same(d)
    &&& v[12] == check_digit_of(dot(v, cnpj_weights1(), 12))
    &&& v[13] == check_digit_of(dot(v, cnpj_weights2(), 13))
}

/// Whether `number` is a valid document of kind `t`.
pub open spec fn document_valid(number: Seq<char>, t: DocumentType) -> bool {
    match t {
        DocumentType::Cpf => cpf_valid(number),
        DocumentType::Cnpj => cnpj_valid(number),
    }
}

/// The ASCII lower-case form of `c`.
pub open spec fn ascii_lower(c: char) -> char {
    if 'A' <= c && c <= 'Z' {
        ((c as u32) + 32) as char
    } else {
        c
    }
}

/// The document kind that `DocumentType::new` reads from `s`: `"cpf"` or
/// `"cnpj"`, in any ASCII case, with surrounding white space ignored.
pub open spec fn document_type_of(s: Seq<char>) -> Option<DocumentType> {
    let t = trim(s).map_values(|c: char| ascii_lower(c));
    if t == seq!['c', 'p', 'f'] {
        Some(DocumentType::Cpf)
    } else if t == seq!['c', 'n', 'p', 'j'] {
        Some(DocumentType::Cnpj)
    } else {
        None
    }
}

// ---------------------------------------------------------------------------
// Lemmas
// ---------------------------------------------------------------------------

proof fn lemma_weighted_sum_monotone(base: Seq<u32>, peso: int, k: int, n: int)
    requires
        0 <= k <= n,
        n <= peso - 1,
    ensures
        weighted_sum(base, peso, k) <= weighted_sum(base, peso, n),
    decreases n - k,
{
    if k < n {
        lemma_weighted_sum_monotone(base, peso, k, n - 1);
        let b = base[n - 1];
        let w = peso - (n - 1);
        assert(b * w >= 0) by (nonlinear_arith)
            requires
                b >= 0,
                w >= 0,
        ;
    }
}

proof fn lemma_dot_bound(a: Seq<u32>, w: Seq<u32>, n: int)
    requires
        0 <= n <= a.len(),
        n <= w.len(),
        forall|i: int| 0 <= i < n ==> a[i] <= 9,
        forall|i: int| 0 <= i < n ==> w[i] <= 9,
    ensures
        0 <= dot(a, w, n) <= 81 * n,
    decreases n,
{
    if n > 0 {
        lemma_dot_bound(a, w, n - 1);
        let x = a[n - 1];
        let y = w[n - 1];
        assert(0 <= x * y <= 81) by (nonlinear_arith)
            requires
                0 <= x <= 9,
                0 <= y <= 9,
        ;
    }
}

/// Dropping the non-digits of a digit-only sequence leaves it unchanged.
pub proof fn lemma_only_digits_of_digits(s: Seq<char>)
    requires
        all_digits(s),
    ensures
        only_digits(s) == s,
    decreases s.len(),
{
    if s.len() > 0 {
        assert(is_ascii_digit(s[s.len() - 1]));
        lemma_only_digits_of_digits(s.drop_last());
        assert(s.drop_last().push(s.last()) =~= s);
    }
}

/// `only_digits` yields digits only.
pub proof fn lemma_only_digits_are_digits(s: Seq<char>)
    ensures
        all_digits(only_digits(s)),
    decreases s.len(),
{
    if s.len() > 0 {
        lemma_only_digits_are_digits(s.drop_last());
        let p = only_digits(s.drop_last());
        if is_ascii_digit(s.last()) {
            assert forall|i: int| 0 <= i < p.push(s.last()).len() implies is_ascii_digit(
                #[trigger] p.push(s.last())[i],
            ) by {
                if i < p.len() {
                    assert(p.push(s.last())[i] == p[i]);
                }
            }
        }
    }
}

proof fn lemma_cpf_first_sum(b: Seq<u32>)
    requires
        b.len() == 9,
    ensures
        weighted_terms(9, 10) == 9,
        weighted_sum(b, 10, 9) == 10 * b[0] + 9 * b[1] + 8 * b[2] + 7 * b[3] + 6 * b[4] + 5 * b[5] + 4 * b[6] + 3 * b[7] + 2 * b[8],
{
    assert(weighted_sum(b, 10, 0) == 0);
    assert(b[0] * (10 - 0) == 10 * b[0]);
    assert(weighted_sum(b, 10, 1) == 10 * b[0]);
    assert(b[1] * (10 - 1) == 9 * b[1]);
    assert(weighted_sum(b, 10, 2) == 10 * b[0] + 9 * b[1]);
    assert(b[2] * (10 - 2) == 8 * b[2]);
    assert(weighted_sum(b, 10, 3) == 10 * b[0] + 9 * b[1] + 8 * b[2]);
    assert(b[3] * (10 - 3) == 7 * b[3]);
    assert(weighted_sum(b, 10, 4) == 10 * b[0] + 9 * b[1] + 8 * b[2] + 7 * b[3]);
    assert(b[4] * (10 - 4) == 6 * b[4]);
    assert(weighted_sum(b, 10, 5) == 10 * b[0] + 9 * b[1] + 8 * b[2] + 7 * b[3] + 6 * b[4]);
    assert(b[5] * (10 - 5) == 5 * b[5]);
    assert(weighted_sum(b, 10, 6) == 10 * b[0] + 9 * b[1] + 8 * b[2] + 7 * b[3] + 6 * b[4] + 5 * b[5]);
    assert(b[6] * (10 - 6) == 4 * b[6]);
    assert(weighted_sum(b, 10, 7) == 10 * b[0] + 9 * b[1] + 8 * b[2] + 7 * b[3] + 6 * b[4] + 5 * b[5] + 4 * b[6]);
    assert(b[7] * (10 - 7) == 3 * b[7]);
    assert(weighted_sum(b, 10, 8) == 10 * b[0] + 9 * b[1] + 8 * b[2] + 7 * b[3] + 6 * b[4] + 5 * b[5] + 4 * b[6] + 3 * b[7]);
    assert(b[8] * (10 - 8) == 2 * b[8]);
    assert(weighted_sum(b, 10, 9) == 10 * b[0] + 9 * b[1] + 8 * b[2] + 7 * b[3] + 6 * b[4] + 5 * b[5] + 4 * b[6] + 3 * b[7] + 2 * b[8]);
}

proof fn lemma_cpf_second_sum(b: Seq<u32>)
    requires
        b.len() == 10,
    ensures
        weighted_terms(10, 11) == 10,
        weighted_sum(b, 11, 10) == 11 * b[0] + 10 * b[1] + 9 * b[2] + 8 * b[3] + 7 * b[4] + 6 * b[5] + 5 * b[6] + 4 * b[7] + 3 * b[8] + 2 * b[9],
{
    assert(weighted_sum(b, 11, 0) == 0);
    assert(b[0] * (11 - 0) == 11 * b[0]);
    assert(weighted_sum(b, 11, 1) == 11 * b[0]);
    assert(b[1] * (11 - 1) == 10 * b[1]);
    assert(weighted_sum(b, 11, 2) == 11 * b[0] + 10 * b[1]);
    assert(b[2] * (11 - 2) == 9 * b[2]);
    assert(weighted_sum(b, 11, 3) == 11 * b[0] + 10 * b[1] + 9 * b[2]);
    assert(b[3] * (11 - 3) == 8 * b[3]);
    assert(weighted_sum(b, 11, 4) == 11 * b[0] + 10 * b[1] + 9 * b[2] + 8 * b[3]);
    assert(b[4] * (11 - 4) == 7 * b[4]);
    assert(weighted_sum(b, 11, 5) == 11 * b[0] + 10 * b[1] + 9 * b[2] + 8 * b[3] + 7 * b[4]);
    assert(b[5] * (11 - 5) == 6 * b[5]);
    assert(weighted_sum(b, 11, 6) == 11 * b[0] + 10 * b[1] + 9 * b[2] + 8 * b[3] + 7 * b[4] + 6 * b[5]);
    assert(b[6] * (11 - 6) == 5 * b[6]);
    assert(weighted_sum(b, 11, 7) == 11 * b[0] + 10 * b[1] + 9 * b[2] + 8 * b[3] + 7 * b[4] + 6 * b[5] + 5 * b[6]);
    assert(b[7] * (11 - 7) == 4 * b[7]);
    assert(weighted_sum(b, 11, 8) == 11 * b[0] + 10 * b[1] + 9 * b[2] + 8 * b[3] + 7 * b[4] + 6 * b[5] + 5 * b[6] + 4 * b[7]);
    assert(b[8] * (11 - 8) == 3 * b[8]);
    assert(weighted_sum(b, 11, 9) == 11 * b[0] + 10 * b[1] + 9 * b[2] + 8 * b[3] + 7 * b[4] + 6 * b[5] + 5 * b[6] + 4 * b[7] + 3 * b[8]);
    assert(b[9] * (11 - 9) == 2 * b[9]);
    assert(weighted_sum(b, 11, 10) == 11 * b[0] + 10 * b[1] + 9 * b[2] + 8 * b[3] + 7 * b[4] + 6 * b[5] + 5 * b[6] + 4 * b[7] + 3 * b[8] + 2 * b[9]);
}

proof fn lemma_only_digits_len(s: Seq<char>)
    ensures
        only_digits(s).len() <= s.len(),
        only_digits(s).len() == s.len() ==> all_digits(s),
    decreases s.len(),
{
    if s.len() > 0 {
        lemma_only_digits_len(s.drop_last());
        if only_digits(s).len() == s.len() {
            assert forall|i: int| 0 <= i < s.len() implies is_ascii_digit(#[trigger] s[i]) by {
                if i < s.len() - 1 {
                    assert(s[i] == s.drop_last()[i]);
                }
            }
        }
    }
}

proof fn lemma_digit_char_unique(x: char, c: int)
    requires
        is_ascii_digit(x),
        0 <= c < 10,
        digit_value(x) == c,
    ensures
        x == digit_char(c),
{
    crate::text::lemma_digit_char(c);
    assert(x as int == digit_char(c) as int);
}

// ---------------------------------------------------------------------------
// Laws
// ---------------------------------------------------------------------------

/// A mask never matters: a number is a valid document exactly when its digits
/// alone are, and keeping the digits of the digits changes nothing; so
/// `Document::new` on `"529.982.247-25"` and on `"52998224725"` agree.
pub proof fn law_mask_is_irrelevant(s: Seq<char>, t: DocumentType)
    ensures
        document_valid(only_digits(s), t) == document_valid(s, t),
        only_digits(only_digits(s)) == only_digits(s),
{
    lemma_only_digits_are_digits(s);
    lemma_only_digits_of_digits(only_digits(s));
}

/// The number a `Document` holds is accepted again as it is: `Document::new`
/// on `d.number()` and `d.document_type()` gives a document with the same
/// number and kind.
pub proof fn law_document_roundtrip(number: Seq<char>, t: DocumentType)
    requires
        all_digits(number),
        document_valid(number, t),
    ensures
        document_valid(number, t),
        only_digits(number) == number,
{
    lemma_only_digits_of_digits(number);
}

/// `DocumentType::new` reads the kind from the trimmed text, letter by letter
/// in either ASCII case: `Cpf` exactly for the variants of `c p f` (`"cpf"`,
/// `"CPF"`, `"Cpf"`, ...), `Cnpj` exactly for the variants of `c n p j`
/// (`"Cnpj"`, `"cNPJ"`, ...), and nothing for any other text.
pub proof fn law_document_type_any_case(s: Seq<char>)
    ensures
        ({
            let t = trim(s);
            &&& (document_type_of(s) == Some(DocumentType::Cpf)) <==> (t.len() == 3 && (t[0] == 'c'
                || t[0] == 'C') && (t[1] == 'p' || t[1] == 'P') && (t[2] == 'f' || t[2] == 'F'))
            &&& (document_type_of(s) == Some(DocumentType::Cnpj)) <==> (t.len() == 4 && (t[0]
                == 'c' || t[0] == 'C') && (t[1] == 'n' || t[1] == 'N') && (t[2] == 'p' || t[2]
                == 'P') && (t[3] == 'j' || t[3] == 'J'))
            &&& document_type_of(s) is None <==> !(document_type_of(s) == Some(DocumentType::Cpf)
                || document_type_of(s) == Some(DocumentType::Cnpj))
        }),
{
    let t = trim(s);
    let l = t.map_values(|c: char| ascii_lower(c));
    if t.len() == 3 {
        if l == seq!['c', 'p', 'f'] {
            assert(l[0] == 'c' && l[1] == 'p' && l[2] == 'f');
        }
        if (t[0] == 'c' || t[0] == 'C') && (t[1] == 'p' || t[1] == 'P') && (t[2] == 'f' || t[2]
            == 'F') {
            assert(l =~= seq!['c', 'p', 'f']);
        }
    }
    if t.len() == 4 {
        if l == seq!['c', 'n', 'p', 'j'] {
            assert(l[0] == 'c' && l[1] == 'n' && l[2] == 'p' && l[3] == 'j');
        }
        if (t[0] == 'c' || t[0] == 'C') && (t[1] == 'n' || t[1] == 'N') && (t[2] == 'p' || t[2]
            == 'P') && (t[3] == 'j' || t[3] == 'J') {
            assert(l =~= seq!['c', 'n', 'p', 'j']);
        }
    }
    if l == seq!['c', 'p', 'f'] {
        assert(l.len() == 3);
    }
    if l == seq!['c', 'n', 'p', 'j'] {
        assert(l.len() == 4);
    }
}

/// A CNPJ is valid exactly when its digits `v[0..14]` (mask dropped) are not
/// all the same and its check digits are the weighted modulus-11 digits with
/// the fixed weights 5,4,3,2,9,8,7,6,5,4,3,2 (first) and
/// 6,5,4,3,2,9,8,7,6,5,4,3,2 (second): a remainder below 2 gives 0, any other
/// remainder `r` gives `11 - r`.
pub proof fn law_cnpj_check_digits(s: Seq<char>)
    ensures
        ({
            let d = only_digits(s);
            let v = digit_seq(d);
            let s1 = 5 * v[0] + 4 * v[1] + 3 * v[2] + 2 * v[3] + 9 * v[4] + 8 * v[5] + 7 * v[6] + 6
                * v[7] + 5 * v[8] + 4 * v[9] + 3 * v[10] + 2 * v[11];
            let s2 = 6 * v[0] + 5 * v[1] + 4 * v[2] + 3 * v[3] + 2 * v[4] + 9 * v[5] + 8 * v[6] + 7
                * v[7] + 6 * v[8] + 5 * v[9] + 4 * v[10] + 3 * v[11] + 2 * v[12];
            cnpj_valid(s) <==> {
                &&& d.len() == 14
                &&& !all_same(d)
                &&& v[12] == (if s1 % 11 < 2 {
                    0
                } else {
                    11 - s1 % 11
                })
                &&& v[13] == (if s2 % 11 < 2 {
                    0
                } else {
                    11 - s2 % 11
                })
            }
        }),
{
    let v = digit_seq(only_digits(s));
    assert(cnpj_weights1()[0] == 5 && cnpj_weights1()[1] == 4 && cnpj_weights1()[2] == 3
        && cnpj_weights1()[3] == 2 && cnpj_weights1()[4] == 9 && cnpj_weights1()[5] == 8
        && cnpj_weights1()[6] == 7 && cnpj_weights1()[7] == 6 && cnpj_weights1()[8] == 5
        && cnpj_weights1()[9] == 4 && cnpj_weights1()[10] == 3 && cnpj_weights1()[11] == 2);
    assert(cnpj_weights2()[0] == 6 && cnpj_weights2()[1] == 5 && cnpj_weights2()[2] == 4
        && cnpj_weights2()[3] == 3 && cnpj_weights2()[4] == 2 && cnpj_weights2()[5] == 9
        && cnpj_weights2()[6] == 8 && cnpj_weights2()[7] == 7 && cnpj_weights2()[8] == 6
        && cnpj_weights2()[9] == 5 && cnpj_weights2()[10] == 4 && cnpj_weights2()[11] == 3
        && cnpj_weights2()[12] == 2);
    assert(dot(v, cnpj_weights1(), 0) == 0);
    let w = cnpj_weights1();
    let w2 = cnpj_weights2();
    assert(dot(v, cnpj_weights2(), 0) == 0);
    assert(v[0] * w[0] == 5 * v[0]);
    assert(dot(v, cnpj_weights1(), 1) == 5 * v[0]);
    assert(v[1] * w[1] == 4 * v[1]);
    assert(dot(v, cnpj_weights1(), 2) == 5 * v[0] + 4 * v[1]);
    assert(v[2] * w[2] == 3 * v[2]);
    assert(dot(v, cnpj_weights1(), 3) == 5 * v[0] + 4 * v[1] + 3 * v[2]);
    assert(v[3] * w[3] == 2 * v[3]);
    assert(dot(v, cnpj_weights1(), 4) == 5 * v[0] + 4 * v[1] + 3 * v[2] + 2 * v[3]);
    assert(v[4] * w[4] == 9 * v[4]);
    assert(dot(v, cnpj_weights1(), 5) == 5 * v[0] + 4 * v[1] + 3 * v[2] + 2 * v[3] + 9 * v[4]);
    assert(v[5] * w[5] == 8 * v[5]);
    assert(dot(v, cnpj_weights1(), 6) == 5 * v[0] + 4 * v[1] + 3 * v[2] + 2 * v[3] + 9 * v[4] + 8 * v[5]);
    assert(v[6] * w[6] == 7 * v[6]);
    assert(dot(v, cnpj_weights1(), 7) == 5 * v[0] + 4 * v[1] + 3 * v[2] + 2 * v[3] + 9 * v[4] + 8 * v[5] + 7 * v[6]);
    assert(v[7] * w[7] == 6 * v[7]);
    assert(dot(v, cnpj_weights1(), 8) == 5 * v[0] + 4 * v[1] + 3 * v[2] + 2 * v[3] + 9 * v[4] + 8 * v[5] + 7 * v[6] + 6 * v[7]);
    assert(v[8] * w[8] == 5 * v[8]);
    assert(dot(v, cnpj_weights1(), 9) == 5 * v[0] + 4 * v[1] + 3 * v[2] + 2 * v[3] + 9 * v[4] + 8 * v[5] + 7 * v[6] + 6 * v[7] + 5 * v[8]);
    assert(v[9] * w[9] == 4 * v[9]);
    assert(dot(v, cnpj_weights1(), 10) == 5 * v[0] + 4 * v[1] + 3 * v[2] + 2 * v[3] + 9 * v[4] + 8 * v[5] + 7 * v[6] + 6 * v[7] + 5 * v[8] + 4 * v[9]);
    assert(v[10] * w[10] == 3 * v[10]);
    assert(dot(v, cnpj_weights1(), 11) == 5 * v[0] + 4 * v[1] + 3 * v[2] + 2 * v[3] + 9 * v[4] + 8 * v[5] + 7 * v[6] + 6 * v[7] + 5 * v[8] + 4 * v[9] + 3 * v[10]);
    assert(v[11] * w[11] == 2 * v[11]);
    assert(dot(v, cnpj_weights1(), 12) == 5 * v[0] + 4 * v[1] + 3 * v[2] + 2 * v[3] + 9 * v[4] + 8 * v[5] + 7 * v[6] + 6 * v[7] + 5 * v[8] + 4 * v[9] + 3 * v[10] + 2 * v[11]);
    assert(v[0] * w2[0] == 6 * v[0]);
    assert(dot(v, cnpj_weights2(), 1) == 6 * v[0]);
    assert(v[1] * w2[1] == 5 * v[1]);
    assert(dot(v, cnpj_weights2(), 2) == 6 * v[0] + 5 * v[1]);
    assert(v[2] * w2[2] == 4 * v[2]);
    assert(dot(v, cnpj_weights2(), 3) == 6 * v[0] + 5 * v[1] + 4 * v[2]);
    assert(v[3] * w2[3] == 3 * v[3]);
    assert(dot(v, cnpj_weights2(), 4) == 6 * v[0] + 5 * v[1] + 4 * v[2] + 3 * v[3]);
    assert(v[4] * w2[4] == 2 * v[4]);
    assert(dot(v, cnpj_weights2(), 5) == 6 * v[0] + 5 * v[1] + 4 * v[2] + 3 * v[3] + 2 * v[4]);
    assert(v[5] * w2[5] == 9 * v[5]);
    assert(dot(v, cnpj_weights2(), 6) == 6 * v[0] + 5 * v[1] + 4 * v[2] + 3 * v[3] + 2 * v[4] + 9 * v[5]);
    assert(v[6] * w2[6] == 8 * v[6]);
    assert(dot(v, cnpj_weights2(), 7) == 6 * v[0] + 5 * v[1] + 4 * v[2] + 3 * v[3] + 2 * v[4] + 9 * v[5] + 8 * v[6]);
    assert(v[7] * w2[7] == 7 * v[7]);
    assert(dot(v, cnpj_weights2(), 8) == 6 * v[0] + 5 * v[1] + 4 * v[2] + 3 * v[3] + 2 * v[4] + 9 * v[5] + 8 * v[6] + 7 * v[7]);
    assert(v[8] * w2[8] == 6 * v[8]);
    assert(dot(v, cnpj_weights2(), 9) == 6 * v[0] + 5 * v[1] + 4 * v[2] + 3 * v[3] + 2 * v[4] + 9 * v[5] + 8 * v[6] + 7 * v[7] + 6 * v[8]);
    assert(v[9] * w2[9] == 5 * v[9]);
    assert(dot(v, cnpj_weights2(), 10) == 6 * v[0] + 5 * v[1] + 4 * v[2] + 3 * v[3] + 2 * v[4] + 9 * v[5] + 8 * v[6] + 7 * v[7] + 6 * v[8] + 5 * v[9]);
    assert(v[10] * w2[10] == 4 * v[10]);
    assert(dot(v, cnpj_weights2(), 11) == 6 * v[0] + 5 * v[1] + 4 * v[2] + 3 * v[3] + 2 * v[4] + 9 * v[5] + 8 * v[6] + 7 * v[7] + 6 * v[8] + 5 * v[9] + 4 * v[10]);
    assert(v[11] * w2[11] == 3 * v[11]);
    assert(dot(v, cnpj_weights2(), 12) == 6 * v[0] + 5 * v[1] + 4 * v[2] + 3 * v[3] + 2 * v[4] + 9 * v[5] + 8 * v[6] + 7 * v[7] + 6 * v[8] + 5 * v[9] + 4 * v[10] + 3 * v[11]);
    assert(v[12] * w2[12] == 2 * v[12]);
    assert(dot(v, cnpj_weights2(), 13) == 6 * v[0] + 5 * v[1] + 4 * v[2] + 3 * v[3] + 2 * v[4] + 9 * v[5] + 8 * v[6] + 7 * v[7] + 6 * v[8] + 5 * v[9] + 4 * v[10] + 3 * v[11] + 2 * v[12]);
}

/// Every nine digits that are not all the same extend to exactly one valid
/// CPF. Its tenth digit comes from `s1 = 10*v0 + 9*v1 + ... + 2*v8` and its
/// eleventh from `s2 = 11*v0 + 10*v1 + ... + 3*v8 + 2*v9`, each being 0 when
/// the sum leaves a remainder below 2 modulo 11 and `11 - r` otherwise; both
/// are single decimal digits. So `"123.456.789-09"` is valid (`s1 = 210`,
/// remainder 1, digit 0).
pub proof fn law_cpf_check_digits(d: Seq<char>)
    requires
        d.len() == 9,
        all_digits(d),
        !all_same(d),
    ensures
        ({
            let v = digit_seq(d);
            let s1 = 10 * v[0] + 9 * v[1] + 8 * v[2] + 7 * v[3] + 6 * v[4] + 5 * v[5] + 4 * v[6] + 3
                * v[7] + 2 * v[8];
            let c1 = if s1 % 11 < 2 {
                0
            } else {
                11 - s1 % 11
            };
            let s2 = 11 * v[0] + 10 * v[1] + 9 * v[2] + 8 * v[3] + 7 * v[4] + 6 * v[5] + 5 * v[6]
                + 4 * v[7] + 3 * v[8] + 2 * c1;
            let c2 = if s2 % 11 < 2 {
                0
            } else {
                11 - s2 % 11
            };
            &&& 0 <= c1 <= 9
            &&& 0 <= c2 <= 9
            &&& cpf_valid(d.push(digit_char(c1)).push(digit_char(c2)))
            &&& forall|x: char, y: char|
                cpf_valid(#[trigger] (d.push(x).push(y))) ==> x == digit_char(c1) && y == digit_char(
                    c2,
                )
        }),
{
    let v = digit_seq(d);
    let s1 = 10 * v[0] + 9 * v[1] + 8 * v[2] + 7 * v[3] + 6 * v[4] + 5 * v[5] + 4 * v[6] + 3 * v[7]
        + 2 * v[8];
    let c1 = if s1 % 11 < 2 {
        0
    } else {
        11 - s1 % 11
    };
    let s2 = 11 * v[0] + 10 * v[1] + 9 * v[2] + 8 * v[3] + 7 * v[4] + 6 * v[5] + 5 * v[6] + 4 * v[7]
        + 3 * v[8] + 2 * c1;
    let c2 = if s2 % 11 < 2 {
        0
    } else {
        11 - s2 % 11
    };
    let i0 = choose|i: int| 0 <= i < d.len() && #[trigger] d[i] != d[0];
    assert forall|x: char, y: char|
        is_ascii_digit(x) && is_ascii_digit(y) implies #[trigger] cpf_valid(d.push(x).push(y)) == (
        digit_value(x) == c1 && digit_value(y) == c2) by {
        let e = d.push(x).push(y);
        assert forall|i: int| 0 <= i < e.len() implies is_ascii_digit(#[trigger] e[i]) by {
            if i < 9 {
                assert(e[i] == d[i]);
            }
        }
        lemma_only_digits_of_digits(e);
        let ve = digit_seq(e);
        assert(ve.take(9) =~= v) by {
            assert forall|k: int| 0 <= k < 9 implies ve.take(9)[k] == v[k] by {
                assert(e[k] == d[k]);
            }
        }
        lemma_cpf_first_sum(ve.take(9));
        lemma_cpf_second_sum(ve.take(10));
        assert(ve[9] == digit_value(x) as u32);
        assert(ve[10] == digit_value(y) as u32);
        assert(e[i0] != e[0]);
        assert(!all_same(e));
        let t = ve.take(10);
        assert(t[9] == ve[9]);
        assert forall|k: int| 0 <= k < 9 implies t[k] == v[k] by {
            assert(t[k] == ve.take(9)[k]);
        }
        if digit_value(x) == c1 {
            assert(weighted_sum(t, 11, 10) == s2);
        }
    }
    crate::text::lemma_digit_char(c1);
    crate::text::lemma_digit_char(c2);
    assert forall|x: char, y: char| cpf_valid(#[trigger] (d.push(x).push(y))) implies x == digit_char(
        c1,
    ) && y == digit_char(c2) by {
        let e = d.push(x).push(y);
        lemma_only_digits_len(e);
        assert(is_ascii_digit(e[9]) && is_ascii_digit(e[10]));
        assert(e[9] == x && e[10] == y);
        lemma_digit_char_unique(x, c1);
        lemma_digit_char_unique(y, c2);
    }
}

/// No number is both a valid CPF and a valid CNPJ: they differ in length.
pub proof fn law_cpf_is_not_cnpj(s: Seq<char>)
    ensures
        !(cpf_valid(s) && cnpj_valid(s)),
{
}

// ---------------------------------------------------------------------------
// Executable code
// ---------------------------------------------------------------------------

impl DocumentType {
    /// Reads a document kind: `"cpf"` or `"cnpj"`, in any ASCII case, with
    /// surrounding white space ignored; anything else is `InvalidDocument`.
    pub fn new(value: &str) -> (r: Result<Self, ValidationError>)
        ensures
            r == (match document_type_of(value@) {
                Some(t) => Ok::<DocumentType, ValidationError>(t),
                None => Err(ValidationError::InvalidDocument),
            }),
    {
        let v = to_chars(value);
        let (a, b) = trim_bounds(&v);
        let ghost t = trim(value@).map_values(|c: char| ascii_lower(c));
        let n = b - a;
        assert(t.len() == n);
        assert forall|k: int| 0 <= k < n implies #[trigger] t[k] == ascii_lower(v@[a + k]) by {
            assert(trim(value@)[k] == v@.subrange(a as int, b as int)[k]);
        }
        if n == 3 && is_letter(v[a], 'c', 'C') && is_letter(v[a + 1], 'p', 'P') && is_letter(
            v[a + 2],
            'f',
            'F',
        ) {
            assert(t =~= seq!['c', 'p', 'f']);
            Ok(DocumentType::Cpf)
        } else if n == 4 && is_letter(v[a], 'c', 'C') && is_letter(v[a + 1], 'n', 'N')
            && is_letter(v[a + 2], 'p', 'P') && is_letter(v[a + 3], 'j', 'J') {
            assert(t =~= seq!['c', 'n', 'p', 'j']);
            Ok(DocumentType::Cnpj)
        } else {
            proof {
                if t == seq!['c', 'p', 'f'] {
                    assert(t[0] == 'c' && t[1] == 'p' && t[2] == 'f');
                }
                if t == seq!['c', 'n', 'p', 'j'] {
                    assert(t[0] == 'c' && t[1] == 'n' && t[2] == 'p' && t[3] == 'j');
                }
            }
            Err(ValidationError::InvalidDocument)
        }
    }
}

/// A validated taxpayer document, holding only the digits of its number.
#[derive(Debug, PartialEq)]
pub struct Document {
    number: String,
    document_type: DocumentType,
}

impl Clone for Document {
    fn clone(&self) -> (r: Self)
        ensures
            r == *self,
    {
        proof {
            use_type_invariant(self);
        }
        Document { number: self.number.clone(), document_type: self.document_type }
    }
}

impl Document {
    #[verifier::type_invariant]
    spec fn well_formed(self) -> bool {
        &&& all_digits(self.number@)
        &&& document_valid(self.number@, self.document_type)
    }

    /// The digits of the document number.
    pub closed spec fn number_view(self) -> Seq<char> {
        self.number@
    }

    /// The kind of the document.
    pub closed spec fn kind(self) -> DocumentType {
        self.document_type
    }

    /// The document number, digits only.
    pub fn number(&self) -> (r: &str)
        ensures
            r@ == self.number_view(),
            all_digits(r@),
            document_valid(r@, self.kind()),
    {
        proof {
            use_type_invariant(self);
        }
        self.number.as_str()
    }

    /// The kind of the document.
    pub fn document_type(&self) -> (r: &DocumentType)
        ensures
            *r == self.kind(),
    {
        &self.document_type
    }

    /// Validates `number` as a document of kind `document_type` (a mask of
    /// dots, dashes and slashes is allowed) and keeps its digits only.
    pub fn new(number: &str, document_type: DocumentType) -> (r: Result<Self, ValidationError>)
        ensures
            r is Ok <==> document_valid(number@, document_type),
            r matches Ok(d) ==> d.number_view() == only_digits(number@) && d.kind()
                == document_type,
            r matches Err(e) ==> e == ValidationError::InvalidDocument,
    {
        match document_type {
            DocumentType::Cpf => validar_cpf(number)?,
            DocumentType::Cnpj => validar_cnpj(number)?,
        }
        let normalized = Self::normalize(number);
        proof {
            lemma_only_digits_are_digits(number@);
            lemma_only_digits_of_digits(only_digits(number@));
        }
        Ok(Self { number: normalized, document_type })
    }

    /// The ASCII digits of `document`.
    fn normalize(document: &str) -> (r: String)
        ensures
            r@ == only_digits(document@),
    {
        somente_numeros(document)
    }
}

/// Whether `c` is the letter `lower` in either ASCII case.
fn is_letter(c: char, lower: char, upper: char) -> (b: bool)
    requires
        'a' <= lower <= 'z',
        upper as u32 + 32 == lower as u32,
    ensures
        b == (ascii_lower(c) == lower),
{
    c == lower || c == upper
}

/// Drops every character of `input` that is not an ASCII digit.
fn somente_numeros(input: &str) -> (r: String)
    ensures
        r@ == only_digits(input@),
{
    let v = to_chars(input);
    let mut r = String::new();
    let mut i: usize = 0;
    while i < v.len()
        invariant
            v@ == input@,
            i <= v.len(),
            r@ == only_digits(v@.take(i as int)),
        decreases v.len() - i,
    {
        assert(v@.take(i + 1).drop_last() =~= v@.take(i as int));
        if ascii_digit(v[i]) {
            crate::text::push(&mut r, v[i]);
        }
        i = i + 1;
    }
    assert(v@.take(v.len() as int) =~= v@);
    r
}

/// Whether every character of `input` equals its first one.
fn todos_iguais(input: &str) -> (r: bool)
    ensures
        r == all_same(input@),
{
    let v = to_chars(input);
    if v.len() == 0 {
        return true;
    }
    let first = v[0];
    let mut i: usize = 0;
    while i < v.len()
        invariant
            v@ == input@,
            v.len() > 0,
            first == v@[0],
            i <= v.len(),
            forall|k: int| 0 <= k < i ==> #[trigger] v@[k] == v@[0],
        decreases v.len() - i,
    {
        if v[i] != first {
            return false;
        }
        i = i + 1;
    }
    true
}

/// The numeric values of the characters of `input`, which must all be
/// decimal digits; otherwise `InvalidDocument`.
fn str_para_digits(input: &str) -> (r: Result<Vec<u32>, ValidationError>)
    ensures
        all_digits(input@) ==> r == Ok::<Vec<u32>, ValidationError>(r->Ok_0) && r->Ok_0@
            == digit_seq(input@),
        !all_digits(input@) ==> r == Err::<Vec<u32>, ValidationError>(
            ValidationError::InvalidDocument,
        ),
{
    let v = to_chars(input);
    let mut out: Vec<u32> = Vec::new();
    let mut i: usize = 0;
    while i < v.len()
        invariant
            v@ == input@,
            i <= v.len(),
            forall|k: int| 0 <= k < i ==> is_ascii_digit(#[trigger] v@[k]),
            out@ == digit_seq(v@.take(i as int)),
        decreases v.len() - i,
    {
        let c = v[i];
        if !ascii_digit(c) {
            return Err(ValidationError::InvalidDocument);
        }
        out.push((c as u32) - ('0' as u32));
        assert(out@ =~= digit_seq(v@.take(i + 1)));
        i = i + 1;
    }
    assert(v@.take(v.len() as int) =~= v@);
    Ok(out)
}

/// The modulus-11 check digit of `base`, weighted from `peso_inicial` down to 2.
fn calcular_digito(base: &[u32], peso_inicial: u32) -> (r: u32)
    requires
        weighted_sum(base@, peso_inicial as int, weighted_terms(base@.len() as int, peso_inicial as int))
            <= u32::MAX,
    ensures
        r == spec_calcular_digito(base@, peso_inicial as int),
{
    let ghost n = weighted_terms(base@.len() as int, peso_inicial as int);
    let terms: usize = if peso_inicial < 2 {
        0
    } else if base.len() < (peso_inicial - 1) as usize {
        base.len()
    } else {
        (peso_inicial - 1) as usize
    };
    assert(terms == n);
    let mut soma: u32 = 0;
    let mut i: usize = 0;
    while i < terms
        invariant
            terms == n,
            n == weighted_terms(base@.len() as int, peso_inicial as int),
            weighted_sum(base@, peso_inicial as int, n) <= u32::MAX,
            i <= terms,
            soma == weighted_sum(base@, peso_inicial as int, i as int),
        decreases terms - i,
    {
        proof {
            lemma_weighted_sum_monotone(base@, peso_inicial as int, i + 1, n);
            let b = base@[i as int];
            let w = peso_inicial - i;
            assert(b * w >= 0) by (nonlinear_arith)
                requires
                    b >= 0,
                    w >= 0,
            ;
        }
        let peso = peso_inicial - i as u32;
        soma = soma + base[i] * peso;
        i = i + 1;
    }
    let resto = soma % 11;
    if resto < 2 {
        0
    } else {
        11 - resto
    }
}

proof fn lemma_weighted_sum_small(base: Seq<u32>, peso: int, n: int)
    requires
        0 <= n <= base.len(),
        n <= peso - 1,
        peso <= 11,
        forall|i: int| 0 <= i < n ==> base[i] <= 9,
    ensures
        0 <= weighted_sum(base, peso, n) <= 99 * n,
    decreases n,
{
    if n > 0 {
        lemma_weighted_sum_small(base, peso, n - 1);
        let b = base[n - 1];
        let w = peso - (n - 1);
        assert(0 <= b * w <= 99) by (nonlinear_arith)
            requires
                0 <= b <= 9,
                0 <= w <= 11,
        ;
    }
}

proof fn lemma_digit_seq_small(d: Seq<char>)
    requires
        all_digits(d),
    ensures
        forall|i: int| 0 <= i < d.len() ==> #[trigger] digit_seq(d)[i] <= 9,
{
    assert forall|i: int| 0 <= i < d.len() implies #[trigger] digit_seq(d)[i] <= 9 by {
        assert(is_ascii_digit(d[i]));
    }
}

/// Validates a CPF, masked or not: eleven digits, not all the same, with
/// matching check digits.
pub fn validar_cpf(cpf: &str) -> (r: Result<(), ValidationError>)
    ensures
        r == (if cpf_valid(cpf@) {
            Ok::<(), ValidationError>(())
        } else {
            Err(ValidationError::InvalidDocument)
        }),
{
    let ghost input = cpf@;
    let cpf = somente_numeros(cpf);
    proof {
        lemma_only_digits_are_digits(input);
    }
    if cpf.as_str().unicode_len() != 11 {
        return Err(ValidationError::InvalidDocument);
    }
    if todos_iguais(cpf.as_str()) {
        return Err(ValidationError::InvalidDocument);
    }
    let digits = str_para_digits(cpf.as_str())?;
    let ghost v = digit_seq(cpf@);
    proof {
        lemma_digit_seq_small(cpf@);
        lemma_weighted_sum_small(v.take(9), 10, 9);
        lemma_weighted_sum_small(v.take(10), 11, 10);
    }
    let base1 = &digits.as_slice()[0..9];
    let base2 = &digits.as_slice()[0..10];
    assert(base1@ =~= v.take(9));
    assert(base2@ =~= v.take(10));
    let dv1 = calcular_digito(base1, 10);
    let dv2 = calcular_digito(base2, 11);
    if digits[9] != dv1 || digits[10] != dv2 {
        return Err(ValidationError::InvalidDocument);
    }
    Ok(())
}

/// Validates a CNPJ, masked or not: fourteen digits, not all the same, with
/// matching check digits.
pub fn validar_cnpj(cnpj: &str) -> (r: Result<(), ValidationError>)
    ensures
        r == (if cnpj_valid(cnpj@) {
            Ok::<(), ValidationError>(())
        } else {
            Err(ValidationError::InvalidDocument)
        }),
{
    let ghost input = cnpj@;
    let cnpj = somente_numeros(cnpj);
    proof {
        lemma_only_digits_are_digits(input);
    }
    if cnpj.as_str().unicode_len() != 14 {
        return Err(ValidationError::InvalidDocument);
    }
    if todos_iguais(cnpj.as_str()) {
        return Err(ValidationError::InvalidDocument);
    }
    let digits = str_para_digits(cnpj.as_str())?;
    let ghost v = digit_seq(cnpj@);
    proof {
        lemma_digit_seq_small(cnpj@);
    }

    let pesos_dv1: [u32; 12] = [5, 4, 3, 2, 9, 8, 7, 6, 5, 4, 3, 2];
    let pesos_dv2: [u32; 13] = [6, 5, 4, 3, 2, 9, 8, 7, 6, 5, 4, 3, 2];
    assert(pesos_dv1@ =~= cnpj_weights1());
    assert(pesos_dv2@ =~= cnpj_weights2());

    let mut soma1: u32 = 0;
    let mut i: usize = 0;
    while i < 12
        invariant
            digits@ == v,
            v.len() == 14,
            forall|k: int| 0 <= k < 14 ==> #[trigger] v[k] <= 9,
            pesos_dv1@ == cnpj_weights1(),
            i <= 12,
            soma1 == dot(v, cnpj_weights1(), i as int),
        decreases 12 - i,
    {
        proof {
            lemma_dot_bound(v, cnpj_weights1(), i + 1);
        }
        soma1 = soma1 + digits[i] * pesos_dv1[i];
        i = i + 1;
    }
    let dv1: u32 = match soma1 % 11 {
        0 | 1 => 0,
        resto => 11 - resto,
    };

    let mut soma2: u32 = 0;
    let mut j: usize = 0;
    while j < 13
        invariant
            digits@ == v,
            v.len() == 14,
            forall|k: int| 0 <= k < 14 ==> #[trigger] v[k] <= 9,
            pesos_dv2@ == cnpj_weights2(),
            j <= 13,
            soma2 == dot(v, cnpj_weights2(), j as int),
        decreases 13 - j,
    {
        proof {
            lemma_dot_bound(v, cnpj_weights2(), j + 1);
        }
        soma2 = soma2 + digits[j] * pesos_dv2[j];
        j = j + 1;
    }
    let dv2: u32 = match soma2 % 11 {
        0 | 1 => 0,
        resto => 11 - resto,
    };

    if digits[12] != dv1 || digits[13] != dv2 {
        return Err(ValidationError::InvalidDocument);
    }
    Ok(())
}

} // verus!
