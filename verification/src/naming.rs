use vstd::prelude::*;
use vstd::set_lib::{lemma_int_range, lemma_len_subset, lemma_map_size, set_int_range};
use crate::strings::{ascii_lower, ascii_lower_spec, empty_string, str_eq, string_push};

verus! {

/// The decimal digit character for `d` (0 to 9).
pub open spec fn digit_char(d: int) -> char {
    if d == 0 {
        '0'
    } else if d == 1 {
        '1'
    } else if d == 2 {
        '2'
    } else if d == 3 {
        '3'
    } else if d == 4 {
        '4'
    } else if d == 5 {
        '5'
    } else if d == 6 {
        '6'
    } else if d == 7 {
        '7'
    } else if d == 8 {
        '8'
    } else {
        '9'
    }
}

/// The value of a decimal digit character.
pub open spec fn digit_value(c: char) -> int {
    if c == '0' {
        0
    } else if c == '1' {
        1
    } else if c == '2' {
        2
    } else if c == '3' {
        3
    } else if c == '4' {
        4
    } else if c == '5' {
        5
    } else if c == '6' {
        6
    } else if c == '7' {
        7
    } else if c == '8' {
        8
    } else {
        9
    }
}

/// The decimal notation of `k`, without leading zeros.
pub open spec fn decimal(k: nat) -> Seq<char>
    decreases k,
{
    if k < 10 {
        seq![digit_char(k as int)]
    } else {
        decimal(k / 10) + seq![digit_char((k % 10) as int)]
    }
}

/// The number that a string of decimal digits stands for.
pub open spec fn decimal_value(s: Seq<char>) -> int
    decreases s.len(),
{
    if s.len() == 0 {
        0
    } else {
        decimal_value(s.drop_last()) * 10 + digit_value(s.last())
    }
}

/// Reading the decimal notation of a number gives the number back.
pub proof fn lemma_decimal_value(k: nat)
    ensures
        decimal_value(decimal(k)) == k,
        decimal(k).len() > 0,
    decreases k,
{
    if k >= 10 {
        lemma_decimal_value(k / 10);
        let d = decimal(k / 10) + seq![digit_char((k % 10) as int)];
        assert(decimal(k) == d);
        assert(d.drop_last() =~= decimal(k / 10));
        assert(d.last() == digit_char((k % 10) as int));
        assert(decimal_value(d) == decimal_value(d.drop_last()) * 10 + digit_value(d.last()));
        assert(0 <= k % 10 < 10);
        assert(digit_value(digit_char((k % 10) as int)) == k % 10);
        assert(k == (k / 10) * 10 + k % 10) by (nonlinear_arith);
    } else {
        let d = seq![digit_char(k as int)];
        assert(decimal(k) == d);
        assert(d.drop_last() =~= Seq::<char>::empty());
        assert(decimal_value(d) == decimal_value(d.drop_last()) * 10 + digit_value(d.last()));
        assert(digit_value(digit_char(k as int)) == k);
    }
}

/// Distinct numbers have distinct decimal notations.
pub proof fn lemma_decimal_injective(a: nat, b: nat)
    requires
        decimal(a) == decimal(b),
    ensures
        a == b,
{
    lemma_decimal_value(a);
    lemma_decimal_value(b);
}

/// The text with ASCII capitals turned into small letters.
pub open spec fn lower(s: Seq<char>) -> Seq<char> {
    s.map_values(|c: char| ascii_lower_spec(c))
}

/// Returns the text with ASCII capitals turned into small letters.
pub fn to_ascii_lower(s: &str) -> (r: String)
    ensures
        r@ == lower(s@),
{
    let n = vstd::string::StrSliceExecFns::unicode_len(s);
    let mut out = empty_string();
    let mut i: usize = 0;
    while i < n
        invariant
            n == s@.len(),
            i <= n,
            out@ == lower(s@.subrange(0, i as int)),
        decreases n - i,
    {
        let c = vstd::string::StrSliceExecFns::get_char(s, i);
        string_push(&mut out, ascii_lower(c));
        assert(lower(s@.subrange(0, i + 1)) =~= lower(s@.subrange(0, i as int)).push(ascii_lower_spec(c)));
        i = i + 1;
    }
    assert(s@.subrange(0, n as int) == s@);
    out
}

/// Appends the decimal notation of `k`.
pub fn push_decimal(s: &mut String, k: usize)
    ensures
        final(s)@ == old(s)@ + decimal(k as nat),
    decreases k,
{
    if k >= 10 {
        push_decimal(s, k / 10);
    }
    let d = k % 10;
    let c = if d == 0 {
        '0'
    } else if d == 1 {
        '1'
    } else if d == 2 {
        '2'
    } else if d == 3 {
        '3'
    } else if d == 4 {
        '4'
    } else if d == 5 {
        '5'
    } else if d == 6 {
        '6'
    } else if d == 7 {
        '7'
    } else if d == 8 {
        '8'
    } else {
        '9'
    };
    let ghost before = s@;
    string_push(s, c);
    proof {
        if k >= 10 {
            assert(s@ =~= old(s)@ + decimal(k as nat));
        } else {
            assert(s@ =~= old(s)@ + decimal(k as nat));
        }
    }
}

/// The candidate `prefix` followed by the decimal notation of `k`.
pub open spec fn candidate(prefix: Seq<char>, k: nat) -> Seq<char> {
    prefix + decimal(k)
}

/// Number `k` is free: its candidate, in small letters, is not taken.
pub open spec fn number_free(taken: Seq<Seq<char>>, prefix: Seq<char>, k: nat) -> bool {
    !taken.contains(lower(candidate(prefix, k)))
}

/// The smallest positive number whose candidate is not taken.
pub open spec fn least_free_number(taken: Seq<Seq<char>>, prefix: Seq<char>) -> nat {
    choose|k: nat| 1 <= k && number_free(taken, prefix, k) && forall|j: nat| 1 <= j < k ==> !number_free(taken, prefix, j)
}

/// Digits are no capitals: a candidate in small letters is the prefix in
/// small letters followed by the number.
proof fn lemma_lower_candidate(prefix: Seq<char>, k: nat)
    ensures
        lower(candidate(prefix, k)) == lower(prefix) + decimal(k),
    decreases k,
{
    let d = decimal(k);
    assert forall|i: int| 0 <= i < d.len() implies ascii_lower_spec(#[trigger] d[i]) == d[i] by {
        lemma_decimal_digits(k, i);
    }
    assert(lower(candidate(prefix, k)) =~= lower(prefix) + decimal(k));
}

proof fn lemma_decimal_digits(k: nat, i: int)
    requires
        0 <= i < decimal(k).len(),
    ensures
        '0' <= decimal(k)[i] <= '9',
    decreases k,
{
    if k >= 10 {
        let p = decimal(k / 10);
        if i < p.len() {
            lemma_decimal_digits(k / 10, i);
        }
    }
}

/// Not every one of the numbers `1..=taken.len() + 1` can be taken.
pub proof fn lemma_some_number_free(taken: Seq<Seq<char>>, prefix: Seq<char>)
    ensures
        exists|k: nat| 1 <= k <= taken.len() + 1 && number_free(taken, prefix, k),
{
    if forall|k: nat| 1 <= k <= taken.len() + 1 ==> !number_free(taken, prefix, k) {
        let n = taken.len() as int;
        let f = |k: int| lower(candidate(prefix, k as nat));
        let ks = set_int_range(1, n + 2);
        lemma_int_range(1, n + 2);
        assert forall|a: int, b: int| ks.contains(a) && ks.contains(b) && #[trigger] f(a) == #[trigger] f(b) implies a == b by {
            lemma_lower_candidate(prefix, a as nat);
            lemma_lower_candidate(prefix, b as nat);
            let la = lower(prefix);
            assert((la + decimal(a as nat)).subrange(la.len() as int, (la + decimal(a as nat)).len() as int) =~= decimal(a as nat));
            assert((la + decimal(b as nat)).subrange(la.len() as int, (la + decimal(b as nat)).len() as int) =~= decimal(b as nat));
            lemma_decimal_injective(a as nat, b as nat);
        }
        let img = ks.map(f);
        lemma_map_size(ks, img, f);
        assert forall|x: Seq<char>| img.contains(x) implies taken.to_set().contains(x) by {
            let a = choose|a: int| ks.contains(a) && f(a) == x;
            assert(!number_free(taken, prefix, a as nat));
        }
        taken.lemma_cardinality_of_set();
        lemma_len_subset(img, taken.to_set());
        assert(false);
    }
}

/// The least free number exists and is what `least_free_number` names.
pub proof fn lemma_least_free(taken: Seq<Seq<char>>, prefix: Seq<char>, k: nat)
    requires
        1 <= k,
        number_free(taken, prefix, k),
        forall|j: nat| 1 <= j < k ==> !number_free(taken, prefix, j),
    ensures
        least_free_number(taken, prefix) == k,
{
    let c = least_free_number(taken, prefix);
    assert(1 <= c && number_free(taken, prefix, c) && forall|j: nat| 1 <= j < c ==> !number_free(taken, prefix, j));
    if c < k {
        assert(!number_free(taken, prefix, c));
    }
    if k < c {
        assert(!number_free(taken, prefix, k));
    }
}

fn contains_text(taken: &Vec<String>, s: &str) -> (r: bool)
    ensures
        r == taken@.map_values(|t: String| t@).contains(s@),
{
    let ghost tv = taken@.map_values(|t: String| t@);
    let mut i: usize = 0;
    while i < taken.len()
        invariant
            i <= taken.len(),
            tv == taken@.map_values(|t: String| t@),
            forall|j: int| 0 <= j < i ==> tv[j] != s@,
        decreases taken.len() - i,
    {
        if str_eq(taken[i].as_str(), s) {
            assert(tv[i as int] == s@);
            return true;
        }
        i = i + 1;
    }
    false
}

/// Returns `prefix` followed by the smallest positive number whose
/// candidate, in small letters, is not among `taken`.
pub fn first_free_name(taken: &Vec<String>, prefix: &str) -> (r: String)
    requires
        taken.len() < usize::MAX,
    ensures
        r@ == candidate(prefix@, least_free_number(taken@.map_values(|t: String| t@), prefix@)),
{
    let ghost tv = taken@.map_values(|t: String| t@);
    proof {
        lemma_some_number_free(tv, prefix@);
    }
    let mut k: usize = 1;
    loop
        invariant
            1 <= k <= taken.len() + 1,
            taken.len() < usize::MAX,
            tv == taken@.map_values(|t: String| t@),
            exists|m: nat| k <= m <= taken.len() + 1 && number_free(tv, prefix@, m),
            forall|j: nat| 1 <= j < k ==> !number_free(tv, prefix@, j),
        decreases taken.len() + 1 - k,
    {
        let mut name = crate::strings::to_owned_string(prefix);
        push_decimal(&mut name, k);
        let low = to_ascii_lower(name.as_str());
        if !contains_text(taken, low.as_str()) {
            proof {
                lemma_least_free(tv, prefix@, k as nat);
            }
            return name;
        }
        assert(!number_free(tv, prefix@, k as nat));
        proof {
            let m = choose|m: nat| k <= m <= taken.len() + 1 && number_free(tv, prefix@, m);
            assert(k <= m <= taken.len() + 1 && number_free(tv, prefix@, m));
            assert(m != k);
            assert(k < taken.len() + 1);
        }
        k = k + 1;
    }
}

} // verus!
