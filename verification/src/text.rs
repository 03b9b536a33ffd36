use vstd::prelude::*;
use vstd::string::*;

verus! {

/// `suffix` is a suffix of `s` (as character sequences).
pub open spec fn has_suffix(s: Seq<char>, suffix: Seq<char>) -> bool {
    &&& suffix.len() <= s.len()
    &&& s.subrange(s.len() - suffix.len(), s.len() as int) == suffix
}

/// Tests whether `s` ends with `suffix`, as `str::ends_with` does for a string pattern.
pub fn ends_with(s: &str, suffix: &str) -> (r: bool)
    ensures
        r == has_suffix(s@, suffix@),
{
    let n = s.unicode_len();
    let k = suffix.unicode_len();
    if k > n {
        return false;
    }
    let off = n - k;
    let mut i: usize = 0;
    while i < k
        invariant
            n == s@.len(),
            k == suffix@.len(),
            off == n - k,
            i <= k,
            forall|j: int| 0 <= j < i ==> s@[off + j] == suffix@[j],
        decreases k - i,
    {
        if s.get_char(off + i) != suffix.get_char(i) {
            assert(s@.subrange(off as int, n as int)[i as int] != suffix@[i as int]);
            return false;
        }
        i = i + 1;
    }
    assert(s@.subrange(off as int, n as int) =~= suffix@);
    true
}

/// The character of a decimal digit.
pub open spec fn digit_char(d: nat) -> char
    recommends
        d < 10,
{
    if d == 0 { '0' }
    else if d == 1 { '1' }
    else if d == 2 { '2' }
    else if d == 3 { '3' }
    else if d == 4 { '4' }
    else if d == 5 { '5' }
    else if d == 6 { '6' }
    else if d == 7 { '7' }
    else if d == 8 { '8' }
    else { '9' }
}

/// The decimal digits of a natural number, most significant first, without leading zeros.
pub open spec fn natural_digits(n: nat) -> Seq<char>
    decreases n,
{
    if n < 10 {
        seq![digit_char(n)]
    } else {
        natural_digits(n / 10).push(digit_char(n % 10))
    }
}

/// The decimal text of an integer: a minus sign before the digits of a negative number.
pub open spec fn decimal(n: int) -> Seq<char> {
    if n < 0 {
        seq!['-'] + natural_digits((-n) as nat)
    } else {
        natural_digits(n as nat)
    }
}

fn digit_string(d: u64) -> (r: String)
    requires
        d < 10,
    ensures
        r@ == seq![digit_char(d as nat)],
{
    let s: &str = if d == 0 {
        proof { reveal_strlit("0"); }
        "0"
    } else if d == 1 {
        proof { reveal_strlit("1"); }
        "1"
    } else if d == 2 {
        proof { reveal_strlit("2"); }
        "2"
    } else if d == 3 {
        proof { reveal_strlit("3"); }
        "3"
    } else if d == 4 {
        proof { reveal_strlit("4"); }
        "4"
    } else if d == 5 {
        proof { reveal_strlit("5"); }
        "5"
    } else if d == 6 {
        proof { reveal_strlit("6"); }
        "6"
    } else if d == 7 {
        proof { reveal_strlit("7"); }
        "7"
    } else if d == 8 {
        proof { reveal_strlit("8"); }
        "8"
    } else {
        proof { reveal_strlit("9"); }
        "9"
    };
    assert(s@ =~= seq![digit_char(d as nat)]);
    String::from_str(s)
}

fn natural_text(m: u64) -> (r: String)
    ensures
        r@ == natural_digits(m as nat),
{
    let mut rest: u64 = m;
    let mut acc = String::new();
    loop
        invariant_except_break
            natural_digits(m as nat) == natural_digits(rest as nat) + acc@,
        ensures
            acc@ == natural_digits(m as nat),
        decreases rest,
    {
        let d = digit_string(rest % 10);
        if rest < 10 {
            let res = d.concat(acc.as_str());
            assert(natural_digits(rest as nat) == seq![digit_char(rest as nat)]);
            acc = res;
            break;
        }
        assert(natural_digits(rest as nat) == natural_digits((rest / 10) as nat).push(
            digit_char((rest % 10) as nat),
        ));
        let res = d.concat(acc.as_str());
        assert(natural_digits(m as nat) =~= natural_digits((rest / 10) as nat) + res@);
        acc = res;
        rest = rest / 10;
    }
    acc
}

/// Formats an `i32` in decimal, as its `Display` implementation does.
pub fn i32_to_text(n: i32) -> (r: String)
    ensures
        r@ == decimal(n as int),
{
    if n < 0 {
        let magnitude: u64 = (0i64 - (n as i64)) as u64;
        let digits = natural_text(magnitude);
        let minus: &str = "-";
        proof { reveal_strlit("-"); }
        let r = String::from_str(minus).concat(digits.as_str());
        assert(r@ =~= decimal(n as int));
        r
    } else {
        natural_text(n as u64)
    }
}

} // verus!
