//! Character-level helpers: decimal rendering and reading a string's characters.
use vstd::prelude::*;
use vstd::string::*;

verus! {

/// The ten decimal digits, in order.
pub open spec fn digits() -> Seq<char> {
    seq!['0', '1', '2', '3', '4', '5', '6', '7', '8', '9']
}

/// The decimal rendering of `n`, most significant digit first, without leading zeros.
pub open spec fn decimal(n: nat) -> Seq<char>
    decreases n,
{
    if n < 10 {
        seq![digits()[n as int]]
    } else {
        decimal(n / 10).push(digits()[(n % 10) as int])
    }
}

/// A number's decimal rendering has at least two digits from ten upwards.
pub proof fn lemma_decimal_len(n: nat)
    ensures
        decimal(n).len() >= 1,
        n >= 10 ==> decimal(n).len() >= 2,
    decreases n,
{
    if n >= 10 {
        lemma_decimal_len(n / 10);
    }
}

/// Different numbers have different decimal renderings.
pub proof fn lemma_decimal_injective(a: nat, b: nat)
    requires
        decimal(a) == decimal(b),
    ensures
        a == b,
    decreases a,
{
    lemma_decimal_len(a);
    lemma_decimal_len(b);
    if a < 10 {
        assert(b < 10);
        assert(decimal(a)[0] == digits()[a as int]);
        assert(decimal(b)[0] == digits()[b as int]);
        assert(digits()[a as int] == digits()[b as int]);
    } else {
        assert(b >= 10);
        let da = decimal(a);
        assert(da.last() == digits()[(a % 10) as int]);
        assert(da.last() == digits()[(b % 10) as int]);
        assert(a % 10 == b % 10);
        assert(da.drop_last() =~= decimal(a / 10));
        assert(decimal(b).drop_last() =~= decimal(b / 10));
        lemma_decimal_injective(a / 10, b / 10);
    }
}

/// Renders `n` in decimal.
pub fn decimal_string(n: u128) -> (s: String)
    ensures
        s@ == decimal(n as nat),
{
    let table = "0123456789";
    proof {
        reveal_strlit("0123456789");
    }
    assert(table@ == digits());
    let mut m: u128 = n;
    let mut acc = String::new();
    if n == 0 {
        return String::from_str(table.substring_char(0, 1));
    }
    while m > 0
        invariant
            table@ == digits(),
            m > 0 ==> decimal(n as nat) == decimal(m as nat) + acc@,
            m == 0 ==> decimal(n as nat) == acc@,
        decreases m,
    {
        let d: usize = (m % 10) as usize;
        let piece = String::from_str(table.substring_char(d, d + 1));
        assert(piece@ =~= seq![digits()[d as int]]);
        let ghost old_acc = acc@;
        acc = piece.concat(acc.as_str());
        assert(acc@ =~= seq![digits()[d as int]] + old_acc);
        if m < 10 {
            assert(decimal(m as nat) == seq![digits()[m as int]]);
        } else {
            assert(decimal(m as nat) == decimal((m / 10) as nat).push(digits()[(m % 10) as int]));
            assert(decimal(m as nat) + old_acc =~= decimal((m / 10) as nat) + acc@);
        }
        m = m / 10;
    }
    acc
}

/// Reads the characters of `s` into a vector.
pub fn chars_of(s: &str) -> (v: Vec<char>)
    ensures
        v@ == s@,
{
    let n = s.unicode_len();
    let mut v: Vec<char> = Vec::new();
    let mut i: usize = 0;
    while i < n
        invariant
            n == s@.len(),
            i <= n,
            v@ == s@.take(i as int),
        decreases n - i,
    {
        let c = s.get_char(i);
        v.push(c);
        assert(v@ =~= s@.take(i + 1));
        i = i + 1;
    }
    assert(v@ =~= s@);
    v
}

/// Whether the characters in `a` are exactly those in `b`.
pub fn same_chars(a: &Vec<char>, b: &[char]) -> (r: bool)
    ensures
        r == (a@ == b@),
{
    if a.len() != b.len() {
        return false;
    }
    let mut i: usize = 0;
    while i < a.len()
        invariant
            a@.len() == b@.len(),
            i <= a@.len(),
            a@.take(i as int) == b@.take(i as int),
        decreases a@.len() - i,
    {
        if a[i] != b[i] {
            assert(a@[i as int] != b@[i as int]);
            return false;
        }
        assert(a@.take(i + 1) =~= a@.take(i as int).push(a@[i as int]));
        assert(b@.take(i + 1) =~= b@.take(i as int).push(b@[i as int]));
        i = i + 1;
    }
    assert(a@ =~= a@.take(i as int));
    assert(b@ =~= b@.take(i as int));
    true
}

} // verus!
