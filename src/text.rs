use vstd::prelude::*;

verus! {

/// The ASCII digit for `d < 10`.
pub open spec fn digit_char(d: nat) -> char {
    if d == 0 { '0' }
    else if d == 1 { '1' }
    else if d == 2 { '2' }
    else if d == 3 { '3' }
    else if d == 4 { '4' }
    else if d == 5 { '5' }
    else if d == 6 { '6' }
    else if d == 7 { '7' }
    else if d == 8 { '8' }
    else { '9' }
}

/// Decimal text of a natural number, without leading zeros.
pub open spec fn dec(n: nat) -> Seq<char>
    decreases n,
{
    if n < 10 {
        seq![digit_char(n)]
    } else {
        dec(n / 10).push(digit_char(n % 10))
    }
}

fn digit_str(d: u64) -> (r: &'static str)
    requires
        d < 10,
    ensures
        r@ == seq![digit_char(d as nat)],
{
    proof {
        reveal_strlit("0");
        reveal_strlit("1");
        reveal_strlit("2");
        reveal_strlit("3");
        reveal_strlit("4");
        reveal_strlit("5");
        reveal_strlit("6");
        reveal_strlit("7");
        reveal_strlit("8");
        reveal_strlit("9");
    }
    let r = if d == 0 { "0" }
    else if d == 1 { "1" }
    else if d == 2 { "2" }
    else if d == 3 { "3" }
    else if d == 4 { "4" }
    else if d == 5 { "5" }
    else if d == 6 { "6" }
    else if d == 7 { "7" }
    else if d == 8 { "8" }
    else { "9" };
    assert(r@ =~= seq![digit_char(d as nat)]);
    r
}

/// Appends the decimal text of `n` to `s`.
pub fn append_decimal(s: &mut String, n: u64)
    ensures
        final(s)@ == old(s)@ + dec(n as nat),
    decreases n,
{
    if n >= 10 {
        append_decimal(s, n / 10);
    }
    s.append(digit_str(n % 10));
    assert(old(s)@ + dec(n as nat) =~= final(s)@) by {
        if n >= 10 {
            assert(dec(n as nat) == dec((n / 10) as nat).push(digit_char((n % 10) as nat)));
        }
    }
}


/// Relies on `String::from_utf8`: it succeeds exactly on valid UTF-8 and then
/// holds the decoded characters.
#[verifier::external_body]
pub(crate) fn decode_utf8_text(bytes: Vec<u8>) -> (r: Option<String>)
    ensures
        r is Some <==> vstd::utf8::valid_utf8(bytes@),
        r is Some ==> r->0@ == vstd::utf8::decode_utf8(bytes@),
{
    String::from_utf8(bytes).ok()
}


/// Whether `p` is a prefix of `s`.
pub fn str_starts_with(s: &str, p: &str) -> (r: bool)
    ensures
        r == p@.is_prefix_of(s@),
{
    let n = p.unicode_len();
    if n > s.unicode_len() {
        return false;
    }
    let mut i: usize = 0;
    while i < n
        invariant
            n == p@.len(),
            n <= s@.len(),
            i <= n,
            forall|j: int| 0 <= j < i ==> p@[j] == s@[j],
        decreases n - i,
    {
        if p.get_char(i) != s.get_char(i) {
            return false;
        }
        i = i + 1;
    }
    true
}

/// Whether `a` and `b` hold the same characters.
pub fn str_eq(a: &str, b: &str) -> (r: bool)
    ensures
        r == (a@ == b@),
{
    if a.unicode_len() != b.unicode_len() {
        return false;
    }
    let r = str_starts_with(a, b);
    if r {
        assert(a@ =~= b@);
    }
    r
}

/// Index of the first `c` in `s`, or -1 when there is none.
pub open spec fn first_index(s: Seq<char>, c: char) -> int
    decreases s.len(),
{
    if s.len() == 0 {
        -1
    } else if s[0] == c {
        0
    } else {
        let r = first_index(s.drop_first(), c);
        if r < 0 { -1 } else { r + 1 }
    }
}

proof fn lemma_first_index(s: Seq<char>, c: char, i: int)
    requires
        0 <= i <= s.len(),
        forall|j: int| 0 <= j < i ==> s[j] != c,
    ensures
        i < s.len() && s[i] == c ==> first_index(s, c) == i,
        i == s.len() ==> first_index(s, c) == -1,
    decreases i,
{
    if i > 0 {
        assert forall|j: int| 0 <= j < i - 1 implies s.drop_first()[j] != c by {
            assert(s.drop_first()[j] == s[j + 1]);
        }
        lemma_first_index(s.drop_first(), c, i - 1);
    }
}

/// Position of the first `c` in `s`.
pub fn find_char(s: &str, c: char) -> (r: Option<usize>)
    ensures
        r is None ==> first_index(s@, c) == -1,
        r is Some ==> first_index(s@, c) == r->0 as int && r->0 < s@.len(),
{
    let n = s.unicode_len();
    let mut i: usize = 0;
    while i < n
        invariant
            n == s@.len(),
            i <= n,
            forall|j: int| 0 <= j < i ==> s@[j] != c,
        decreases n - i,
    {
        if s.get_char(i) == c {
            proof {
                lemma_first_index(s@, c, i as int);
            }
            return Some(i);
        }
        i = i + 1;
    }
    proof {
        lemma_first_index(s@, c, i as int);
    }
    None
}

/// Whether every character of `s` is an ASCII digit.
pub open spec fn all_digits(s: Seq<char>) -> bool {
    forall|i: int| 0 <= i < s.len() ==> '0' <= #[trigger] s[i] <= '9'
}

/// Value of a string of ASCII digits.
pub open spec fn digits_value(s: Seq<char>) -> nat
    decreases s.len(),
{
    if s.len() == 0 {
        0
    } else {
        digits_value(s.drop_last()) * 10 + ((s.last() as u32) - ('0' as u32)) as nat
    }
}

/// The digits of an unsigned number as Rust's `from_str` reads them: an
/// optional '+', then at least one digit.
pub open spec fn unsigned_digits(s: Seq<char>) -> Seq<char> {
    if s.len() > 0 && s[0] == '+' { s.drop_first() } else { s }
}

/// Value of `s` read as an unsigned decimal number no larger than `limit`,
/// as Rust's `from_str` for unsigned integers reads it.
pub open spec fn spec_parse_unsigned(s: Seq<char>, limit: nat) -> Option<nat> {
    let d = unsigned_digits(s);
    if d.len() > 0 && all_digits(d) && digits_value(d) <= limit {
        Some(digits_value(d))
    } else {
        None
    }
}

/// Reads `s` as an unsigned decimal number no larger than `limit`.
pub fn parse_unsigned(s: &str, limit: u64) -> (r: Option<u64>)
    ensures
        match spec_parse_unsigned(s@, limit as nat) {
            Some(v) => r == Some(v as u64),
            None => r is None,
        },
{
    let n = s.unicode_len();
    let mut i: usize = 0;
    if n > 0 && s.get_char(0) == '+' {
        i = 1;
    }
    let ghost d = unsigned_digits(s@);
    let ghost off = i as int;
    assert(d =~= s@.subrange(off, n as int));
    if i == n {
        return None;
    }
    let mut acc: u64 = 0;
    while i < n
        invariant
            n == s@.len(),
            0 <= off <= i <= n,
            d == unsigned_digits(s@),
            d == s@.subrange(off, n as int),
            all_digits(s@.subrange(off, i as int)),
            acc as nat == digits_value(s@.subrange(off, i as int)),
            acc <= limit,
        decreases n - i,
    {
        let c = s.get_char(i);
        let ghost pre = s@.subrange(off, i as int);
        let ghost next = s@.subrange(off, i as int + 1);
        assert(next.drop_last() =~= pre);
        if c < '0' || c > '9' {
            assert(d[i - off] == c);
            return None;
        }
        let v: u128 = (acc as u128) * 10 + ((c as u32) - ('0' as u32)) as u128;
        if v > limit as u128 {
            proof {
                assert(next =~= d.subrange(0, i - off + 1));
                assert(digits_value(next) == acc * 10 + ((c as u32) - ('0' as u32)) as nat);
                assert(all_digits(next)) by {
                    assert forall|k: int| 0 <= k < next.len() implies '0' <= #[trigger] next[k] <= '9' by {
                        if k < next.len() - 1 {
                            assert(next[k] == pre[k]);
                        }
                    }
                }
                lemma_digits_value_grows(d, i - off + 1);
            }
            return None;
        }
        acc = v as u64;
        i = i + 1;
    }
    assert(s@.subrange(off, n as int) =~= d);
    Some(acc)
}

proof fn lemma_digits_value_grows(d: Seq<char>, k: int)
    requires
        0 < k <= d.len(),
        all_digits(d.subrange(0, k)),
    ensures
        all_digits(d) ==> digits_value(d.subrange(0, k)) <= digits_value(d),
    decreases d.len() - k,
{
    if k < d.len() && all_digits(d) {
        lemma_digits_value_grows(d, k + 1);
        assert(d.subrange(0, k + 1).drop_last() =~= d.subrange(0, k));
    }
    if k == d.len() {
        assert(d.subrange(0, k) =~= d);
    }
}

} // verus!
