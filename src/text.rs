//! Text helpers shared by the actions: decimal rendering, the iteration
//! placeholder substitution and character-wise comparison.

use vstd::prelude::*;
use vstd::string::*;

verus! {

/// The character of a decimal digit.
pub open spec fn digit_char(d: nat) -> char
    recommends
        d < 10,
{
    seq!['0', '1', '2', '3', '4', '5', '6', '7', '8', '9'][d as int]
}

/// Decimal rendering of `n`, most significant digit first, without leading zeros.
pub open spec fn decimal(n: nat) -> Seq<char>
    decreases n,
{
    if n < 10 {
        seq![digit_char(n)]
    } else {
        decimal(n / 10).push(digit_char(n % 10))
    }
}

/// Whether the placeholder `{N}` starts at position `i` of `s`.
pub open spec fn placeholder_at(s: Seq<char>, i: int) -> bool {
    0 <= i && i + 3 <= s.len() && s[i] == '{' && s[i + 1] == 'N' && s[i + 2] == '}'
}

/// `s` from position `i` on, with each placeholder `{N}` (scanned left to
/// right, without overlap) replaced by `by`.
pub open spec fn substituted_from(s: Seq<char>, by: Seq<char>, i: int) -> Seq<char>
    decreases s.len() - i,
{
    if i < 0 || i >= s.len() {
        Seq::empty()
    } else if placeholder_at(s, i) {
        by + substituted_from(s, by, i + 3)
    } else {
        seq![s[i]] + substituted_from(s, by, i + 1)
    }
}

/// `s` with each placeholder `{N}` replaced by `by`.
pub open spec fn substituted(s: Seq<char>, by: Seq<char>) -> Seq<char> {
    substituted_from(s, by, 0)
}

/// The decimal rendering of `n`.
pub fn decimal_string(n: u64) -> (r: String)
    ensures
        r@ == decimal(n as nat),
    decreases n,
{
    let digits = "0123456789";
    proof {
        reveal_strlit("0123456789");
    }
    let d = (n % 10) as usize;
    let last = digits.substring_char(d, d + 1);
    assert(last@ =~= seq![digit_char(d as nat)]);
    if n < 10 {
        String::from_str(last)
    } else {
        let mut r = decimal_string(n / 10);
        r.append(last);
        assert(r@ =~= decimal(n as nat));
        r
    }
}

/// Whether two texts hold the same characters.
pub fn same_text(a: &str, b: &str) -> (r: bool)
    ensures
        r == (a@ == b@),
{
    let n = a.unicode_len();
    if n != b.unicode_len() {
        return false;
    }
    let mut i: usize = 0;
    while i < n
        invariant
            n == a@.len(),
            n == b@.len(),
            i <= n,
            forall|j: int| 0 <= j < i ==> a@[j] == b@[j],
        decreases n - i,
    {
        if a.get_char(i) != b.get_char(i) {
            return false;
        }
        i = i + 1;
    }
    assert(a@ =~= b@);
    true
}

/// `template` with each placeholder `{N}` replaced by `by`.
pub fn substitute_placeholder(template: &str, by: &str) -> (r: String)
    ensures
        r@ == substituted(template@, by@),
{
    let n = template.unicode_len();
    let mut r = String::new();
    let mut i: usize = 0;
    while i < n
        invariant
            n == template@.len(),
            i <= n,
            r@ + substituted_from(template@, by@, i as int) == substituted(template@, by@),
        decreases n - i,
    {
        let ghost before = r@;
        if n - i >= 3 && template.get_char(i) == '{' && template.get_char(i + 1) == 'N'
            && template.get_char(i + 2) == '}' {
            assert(placeholder_at(template@, i as int));
            r.append(by);
            assert(r@ + substituted_from(template@, by@, i + 3) =~= before
                + substituted_from(template@, by@, i as int));
            i = i + 3;
        } else {
            assert(!placeholder_at(template@, i as int));
            let c = template.substring_char(i, i + 1);
            assert(c@ =~= seq![template@[i as int]]);
            r.append(c);
            assert(r@ + substituted_from(template@, by@, i + 1) =~= before
                + substituted_from(template@, by@, i as int));
            i = i + 1;
        }
    }
    assert(r@ =~= r@ + substituted_from(template@, by@, i as int));
    r
}

} // verus!
