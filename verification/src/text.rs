use vstd::prelude::*;
use vstd::string::*;

verus! {

/// The view of an optional string.
pub open spec fn opt_str(o: Option<String>) -> Option<Seq<char>> {
    match o {
        Some(s) => Some(s@),
        None => None,
    }
}

/// The view of a vector of strings.
pub open spec fn strs(v: Seq<String>) -> Seq<Seq<char>> {
    v.map_values(|s: String| s@)
}

/// Copies an optional string.
pub fn copy_opt_string(o: &Option<String>) -> (r: Option<String>)
    ensures
        opt_str(r) == opt_str(*o),
{
    match o {
        Some(s) => Some(s.clone()),
        None => None,
    }
}

/// Copies a vector of strings, element by element.
pub fn copy_strings(v: &Vec<String>) -> (r: Vec<String>)
    ensures
        strs(r@) == strs(v@),
{
    let mut r: Vec<String> = Vec::new();
    let mut i: usize = 0;
    while i < v.len()
        invariant
            i <= v.len(),
            r@.len() == i,
            forall|j: int| 0 <= j < i ==> #[trigger] r@[j]@ == v@[j]@,
        decreases v.len() - i,
    {
        r.push(v[i].clone());
        i = i + 1;
    }
    assert(strs(r@) =~= strs(v@));
    r
}

} // verus!

verus! {

/// `a` comes strictly before `b` in the order of `String`: code point by
/// code point, a proper prefix coming first.
pub open spec fn str_lt(a: Seq<char>, b: Seq<char>) -> bool {
    exists|i: int| #[trigger] differs_at(a, b, i)
}

/// `i` is the first position where `a` and `b` part, and there `a` is the smaller.
pub open spec fn differs_at(a: Seq<char>, b: Seq<char>, i: int) -> bool {
    &&& 0 <= i <= a.len()
    &&& i <= b.len()
    &&& a.subrange(0, i) == b.subrange(0, i)
    &&& (i == a.len() && i < b.len() || i < a.len() && i < b.len() && (a[i] as int) < (b[i] as int))
}

proof fn lemma_prefix_agree(a: Seq<char>, b: Seq<char>, i: int, k: int)
    requires
        0 <= k < i <= a.len(),
        i <= b.len(),
        a.subrange(0, i) == b.subrange(0, i),
    ensures
        a[k] == b[k],
{
    let sa = a.subrange(0, i);
    let sb = b.subrange(0, i);
    assert(sa[k] == a[k]);
    assert(sb[k] == b[k]);
}

/// The order on strings is irreflexive.
pub proof fn lemma_str_lt_irreflexive(a: Seq<char>)
    ensures
        !str_lt(a, a),
{
}

/// The order on strings is transitive.
pub proof fn lemma_str_lt_transitive(a: Seq<char>, b: Seq<char>, c: Seq<char>)
    requires
        str_lt(a, b),
        str_lt(b, c),
    ensures
        str_lt(a, c),
{
    let i = choose|i: int| differs_at(a, b, i);
    let j = choose|j: int| differs_at(b, c, j);
    if i < j {
        assert forall|k: int| 0 <= k < i implies a[k] == c[k] by {
            lemma_prefix_agree(a, b, i, k);
            lemma_prefix_agree(b, c, j, k);
        }
        assert(a.subrange(0, i) =~= c.subrange(0, i));
        if i < a.len() {
            lemma_prefix_agree(b, c, j, i);
        }
        assert(differs_at(a, c, i));
    } else {
        assert forall|k: int| 0 <= k < j implies a[k] == c[k] by {
            if k < i {
                lemma_prefix_agree(a, b, i, k);
            }
            lemma_prefix_agree(b, c, j, k);
        }
        assert(a.subrange(0, j) =~= c.subrange(0, j));
        if i > j {
            lemma_prefix_agree(a, b, i, j);
        }
        assert(differs_at(a, c, j));
    }
}

/// Any two different strings are ordered one way or the other.
pub proof fn lemma_str_lt_total(a: Seq<char>, b: Seq<char>)
    requires
        a != b,
    ensures
        str_lt(a, b) || str_lt(b, a),
{
    let n = if a.len() < b.len() { a.len() } else { b.len() };
    if forall|k: int| 0 <= k < n ==> a[k] == b[k] {
        if a.len() == b.len() {
            assert(a =~= b);
        } else if a.len() < b.len() {
            assert(a.subrange(0, n as int) =~= b.subrange(0, n as int));
            assert(differs_at(a, b, n as int));
        } else {
            assert(a.subrange(0, n as int) =~= b.subrange(0, n as int));
            assert(differs_at(b, a, n as int));
        }
    } else {
        let k0 = choose|k: int| 0 <= k < n && a[k] != b[k];
        let first = first_difference(a, b, k0);
        assert(a.subrange(0, first) =~= b.subrange(0, first));
        if (a[first] as int) < (b[first] as int) {
            assert(differs_at(a, b, first));
        } else {
            assert((a[first] as int) != (b[first] as int));
            assert(differs_at(b, a, first));
        }
    }
}

proof fn first_difference(a: Seq<char>, b: Seq<char>, k: int) -> (f: int)
    requires
        0 <= k < a.len(),
        k < b.len(),
        a[k] != b[k],
    ensures
        0 <= f <= k,
        a[f] != b[f],
        forall|m: int| 0 <= m < f ==> a[m] == b[m],
    decreases k,
{
    if exists|m: int| 0 <= m < k && a[m] != b[m] {
        let m = choose|m: int| 0 <= m < k && a[m] != b[m];
        first_difference(a, b, m)
    } else {
        k
    }
}

/// Compares two strings in the order of `String`.
pub fn string_lt(a: &str, b: &str) -> (r: bool)
    ensures
        r == str_lt(a@, b@),
{
    let la = a.unicode_len();
    let lb = b.unicode_len();
    let mut i: usize = 0;
    while i < la && i < lb
        invariant
            la == a@.len(),
            lb == b@.len(),
            i <= la,
            i <= lb,
            a@.subrange(0, i as int) == b@.subrange(0, i as int),
        decreases la - i,
    {
        let ca = a.get_char(i);
        let cb = b.get_char(i);
        if (ca as u32) < (cb as u32) {
            assert(differs_at(a@, b@, i as int));
            return true;
        }
        if ca != cb {
            proof {
                assert forall|j: int| #[trigger] differs_at(a@, b@, j) implies false by {
                    if j < i {
                        lemma_prefix_agree(a@, b@, i as int, j);
                    } else if j > i {
                        lemma_prefix_agree(a@, b@, j, i as int);
                    }
                }
            }
            return false;
        }
        assert(a@.subrange(0, i + 1) =~= a@.subrange(0, i as int).push(ca));
        assert(b@.subrange(0, i + 1) =~= b@.subrange(0, i as int).push(cb));
        i = i + 1;
    }
    if i == la && i < lb {
        assert(differs_at(a@, b@, i as int));
        true
    } else {
        proof {
            assert forall|j: int| #[trigger] differs_at(a@, b@, j) implies false by {
                if j < i {
                    lemma_prefix_agree(a@, b@, i as int, j);
                }
            }
        }
        false
    }
}

/// Compares two strings for equality.
pub fn string_eq(a: &str, b: &str) -> (r: bool)
    ensures
        r == (a@ == b@),
{
    let la = a.unicode_len();
    let lb = b.unicode_len();
    if la != lb {
        return false;
    }
    let mut i: usize = 0;
    while i < la
        invariant
            la == a@.len(),
            lb == b@.len(),
            la == lb,
            i <= la,
            forall|k: int| 0 <= k < i ==> a@[k] == b@[k],
        decreases la - i,
    {
        if a.get_char(i) != b.get_char(i) {
            return false;
        }
        i = i + 1;
    }
    assert(a@ =~= b@);
    true
}

} // verus!

verus! {

/// Whether two optional strings are equal.
pub fn opt_string_eq(a: &Option<String>, b: &Option<String>) -> (r: bool)
    ensures
        r == (opt_str(*a) == opt_str(*b)),
{
    match (a, b) {
        (Some(x), Some(y)) => *x == *y,
        (None, None) => true,
        _ => false,
    }
}

/// Whether two vectors of strings are equal, element by element.
pub fn strings_eq(a: &Vec<String>, b: &Vec<String>) -> (r: bool)
    ensures
        r == (strs(a@) == strs(b@)),
{
    if a.len() != b.len() {
        assert(strs(a@).len() != strs(b@).len());
        return false;
    }
    let mut i: usize = 0;
    while i < a.len()
        invariant
            a.len() == b.len(),
            i <= a.len(),
            forall|k: int| 0 <= k < i ==> #[trigger] a@[k]@ == b@[k]@,
        decreases a.len() - i,
    {
        if a[i] != b[i] {
            assert(strs(a@)[i as int] != strs(b@)[i as int]);
            return false;
        }
        i = i + 1;
    }
    assert(strs(a@) =~= strs(b@));
    true
}

} // verus!

verus! {

/// The decimal digit for `d`, which is below 10.
pub open spec fn digit_char(d: nat) -> char {
    (48 + d) as char
}

/// The decimal text of `n`, without leading zeros.
pub open spec fn decimal(n: nat) -> Seq<char>
    decreases n,
{
    if n < 10 {
        seq![digit_char(n)]
    } else {
        decimal(n / 10).push(digit_char(n % 10))
    }
}

fn digit_str(d: u64) -> (r: &'static str)
    requires
        d < 10,
    ensures
        r@ == seq![digit_char(d as nat)],
{
    proof {
        reveal_strlit("0");
        reveal_strlit("1");
        reveal_strlit("2");
        reveal_strlit("3");
        reveal_strlit("4");
        reveal_strlit("5");
        reveal_strlit("6");
        reveal_strlit("7");
        reveal_strlit("8");
        reveal_strlit("9");
    }
    if d == 0 {
        "0"
    } else if d == 1 {
        "1"
    } else if d == 2 {
        "2"
    } else if d == 3 {
        "3"
    } else if d == 4 {
        "4"
    } else if d == 5 {
        "5"
    } else if d == 6 {
        "6"
    } else if d == 7 {
        "7"
    } else if d == 8 {
        "8"
    } else {
        "9"
    }
}

/// The decimal text of `n`, as `to_string` writes it.
pub fn decimal_string(n: u64) -> (r: String)
    ensures
        r@ == decimal(n as nat),
        decimal_value(r@) == n,
    decreases n,
{
    proof { law_decimal_denotes(n as nat); }
    if n < 10 {
        digit_str(n).to_owned()
    } else {
        let mut s = decimal_string(n / 10);
        s.append(digit_str(n % 10));
        s
    }
}

} // verus!

verus! {

/// Decimal text is made of digits only and has no leading zero.
pub proof fn law_decimal_digits(n: nat)
    ensures
        decimal(n).len() >= 1,
        forall|i: int| 0 <= i < decimal(n).len() ==> '0' <= #[trigger] decimal(n)[i] <= '9',
        n > 0 ==> decimal(n)[0] != '0',
    decreases n,
{
    if n >= 10 {
        law_decimal_digits(n / 10);
        assert(decimal(n)[0] == decimal(n / 10)[0]);
    }
}


/// The number that decimal digits spell, most significant first, each
/// character counting its distance from `'0'`.
pub open spec fn decimal_value(s: Seq<char>) -> int
    decreases s.len(),
{
    if s.len() == 0 {
        0
    } else {
        decimal_value(s.drop_last()) * 10 + (s.last() as int - '0' as int)
    }
}

/// Decimal text denotes its number: read back digit by digit, it gives `n`.
pub proof fn law_decimal_denotes(n: nat)
    ensures
        decimal_value(decimal(n)) == n,
    decreases n,
{
    assert('0' as int == 48);
    if n < 10 {
        assert(decimal(n).drop_last() =~= Seq::<char>::empty());
        assert(decimal(n).last() == digit_char(n));
        assert(digit_char(n) as int == 48 + n);
        assert(decimal_value(decimal(n).drop_last()) == 0);
        assert(decimal_value(decimal(n)) == decimal_value(decimal(n).drop_last()) * 10 + (decimal(n).last() as int - 48));
    } else {
        law_decimal_denotes(n / 10);
        assert(decimal(n).drop_last() =~= decimal(n / 10));
        assert(decimal(n).last() == digit_char(n % 10));
        assert(digit_char((n % 10) as nat) as int == 48 + n % 10);
        assert(decimal_value(decimal(n)) == decimal_value(decimal(n).drop_last()) * 10 + (decimal(n).last() as int - 48));
        assert((n / 10) * 10 + n % 10 == n);
    }
}

} // verus!
