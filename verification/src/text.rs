use vstd::prelude::*;

verus! {

// ---------------------------------------------------------------------------
// Whitespace trimming
// ---------------------------------------------------------------------------

/// The characters treated as removable whitespace around a server response
/// body: the ASCII whitespace characters.
pub open spec fn is_space(c: char) -> bool {
    c == ' ' || c == '\t' || c == '\n' || c == '\r' || c == '\u{b}' || c == '\u{c}'
}

pub open spec fn trim_front(s: Seq<char>) -> Seq<char>
    decreases s.len(),
{
    if s.len() > 0 && is_space(s[0]) {
        trim_front(s.drop_first())
    } else {
        s
    }
}

pub open spec fn trim_back(s: Seq<char>) -> Seq<char>
    decreases s.len(),
{
    if s.len() > 0 && is_space(s.last()) {
        trim_back(s.drop_last())
    } else {
        s
    }
}

/// The sequence with leading and trailing whitespace removed.
pub open spec fn trim_seq(s: Seq<char>) -> Seq<char> {
    trim_back(trim_front(s))
}

proof fn lemma_trim_front_skip(s: Seq<char>, i: int)
    requires
        0 <= i <= s.len(),
        forall|k: int| 0 <= k < i ==> is_space(s[k]),
        i == s.len() || !is_space(s[i]),
    ensures
        trim_front(s) == s.subrange(i, s.len() as int),
    decreases i,
{
    if i == 0 {
        assert(trim_front(s) =~= s.subrange(0, s.len() as int));
    } else {
        let d = s.drop_first();
        assert(forall|k: int| 0 <= k < i - 1 ==> is_space(d[k]));
        lemma_trim_front_skip(d, i - 1);
        assert(d.subrange(i - 1, d.len() as int) =~= s.subrange(i, s.len() as int));
    }
}

proof fn lemma_trim_back_keep(s: Seq<char>, j: int)
    requires
        0 <= j <= s.len(),
        forall|k: int| j <= k < s.len() ==> is_space(s[k]),
        j == 0 || !is_space(s[j - 1]),
    ensures
        trim_back(s) == s.subrange(0, j),
    decreases s.len() - j,
{
    if j == s.len() {
        assert(trim_back(s) =~= s.subrange(0, j));
    } else {
        let d = s.drop_last();
        assert(is_space(s.last()));
        assert(forall|k: int| j <= k < d.len() ==> is_space(d[k]));
        lemma_trim_back_keep(d, j);
        assert(d.subrange(0, j) =~= s.subrange(0, j));
    }
}

fn is_space_char(c: char) -> (r: bool)
    ensures
        r == is_space(c),
{
    c == ' ' || c == '\t' || c == '\n' || c == '\r' || c == '\u{b}' || c == '\u{c}'
}

/// A copy of `s` with leading and trailing ASCII whitespace removed.
pub fn trim(s: &str) -> (r: String)
    ensures
        r@ == trim_seq(s@),
{
    let n = s.unicode_len();
    let mut i: usize = 0;
    while i < n && is_space_char(s.get_char(i))
        invariant
            0 <= i <= n,
            n == s@.len(),
            forall|k: int| 0 <= k < i ==> is_space(s@[k]),
        decreases n - i,
    {
        i = i + 1;
    }
    let mut j: usize = n;
    while j > i && is_space_char(s.get_char(j - 1))
        invariant
            i <= j <= n,
            n == s@.len(),
            forall|k: int| 0 <= k < i ==> is_space(s@[k]),
            forall|k: int| j <= k < n ==> is_space(s@[k]),
        decreases j,
    {
        j = j - 1;
    }
    let sub = s.substring_char(i, j);
    proof {
        lemma_trim_front_skip(s@, i as int);
        let t = s@.subrange(i as int, s@.len() as int);
        assert(forall|k: int| j - i <= k < t.len() ==> is_space(t[k]));
        assert(j > i ==> t[j - i - 1] == s@[j - 1]);
        lemma_trim_back_keep(t, j - i);
        assert(t.subrange(0, j - i) =~= s@.subrange(i as int, j as int));
    }
    sub.to_owned()
}

// ---------------------------------------------------------------------------
// Decimal rendering of integers and booleans
// ---------------------------------------------------------------------------

/// The decimal digit character for `d`.
pub open spec fn digit_char(d: int) -> char {
    if d == 0 { '0' }
    else if d == 1 { '1' }
    else if d == 2 { '2' }
    else if d == 3 { '3' }
    else if d == 4 { '4' }
    else if d == 5 { '5' }
    else if d == 6 { '6' }
    else if d == 7 { '7' }
    else if d == 8 { '8' }
    else { '9' }
}

/// The decimal digit sequence of a non-negative value, most significant
/// digit first, without leading zeros (except for the value zero itself).
pub open spec fn dec_digits(n: nat) -> Seq<char>
    decreases n,
{
    if n < 10 {
        seq![digit_char(n as int)]
    } else {
        dec_digits(n / 10) + seq![digit_char((n % 10) as int)]
    }
}

/// The decimal rendering of a signed value: a minus sign followed by the
/// digits of the magnitude when negative, the bare digits otherwise.
pub open spec fn dec_int(v: int) -> Seq<char> {
    if v < 0 {
        seq!['-'] + dec_digits((-v) as nat)
    } else {
        dec_digits(v as nat)
    }
}

fn push_digit(out: &mut String, d: u64)
    requires
        d < 10,
    ensures
        final(out)@ == old(out)@ + seq![digit_char(d as int)],
{
    if d == 0 {
        proof { reveal_strlit("0"); }
        out.append("0");
        assert(out@ =~= old(out)@ + seq![digit_char(d as int)]);
    } else if d == 1 {
        proof { reveal_strlit("1"); }
        out.append("1");
        assert(out@ =~= old(out)@ + seq![digit_char(d as int)]);
    } else if d == 2 {
        proof { reveal_strlit("2"); }
        out.append("2");
        assert(out@ =~= old(out)@ + seq![digit_char(d as int)]);
    } else if d == 3 {
        proof { reveal_strlit("3"); }
        out.append("3");
        assert(out@ =~= old(out)@ + seq![digit_char(d as int)]);
    } else if d == 4 {
        proof { reveal_strlit("4"); }
        out.append("4");
        assert(out@ =~= old(out)@ + seq![digit_char(d as int)]);
    } else if d == 5 {
        proof { reveal_strlit("5"); }
        out.append("5");
        assert(out@ =~= old(out)@ + seq![digit_char(d as int)]);
    } else if d == 6 {
        proof { reveal_strlit("6"); }
        out.append("6");
        assert(out@ =~= old(out)@ + seq![digit_char(d as int)]);
    } else if d == 7 {
        proof { reveal_strlit("7"); }
        out.append("7");
        assert(out@ =~= old(out)@ + seq![digit_char(d as int)]);
    } else if d == 8 {
        proof { reveal_strlit("8"); }
        out.append("8");
        assert(out@ =~= old(out)@ + seq![digit_char(d as int)]);
    } else {
        proof { reveal_strlit("9"); }
        out.append("9");
        assert(out@ =~= old(out)@ + seq![digit_char(d as int)]);
    }
}

fn push_u64_dec(out: &mut String, n: u64)
    ensures
        final(out)@ == old(out)@ + dec_digits(n as nat),
    decreases n,
{
    if n < 10 {
        push_digit(out, n);
    } else {
        let q = n / 10;
        let r = n % 10;
        proof {
            assert(q < n) by (nonlinear_arith)
                requires n >= 10, q == n / 10;
        }
        push_u64_dec(out, q);
        push_digit(out, r);
        assert(out@ =~= old(out)@ + dec_digits(n as nat));
    }
}

/// The decimal rendering of an unsigned value, as `to_string` writes it.
pub fn u64_to_dec(n: u64) -> (r: String)
    ensures
        r@ == dec_digits(n as nat),
{
    let mut out = String::new();
    push_u64_dec(&mut out, n);
    proof {
        assert(out@ =~= dec_digits(n as nat));
    }
    out
}

/// The decimal rendering of a signed value, as `to_string` writes it.
pub fn i64_to_dec(v: i64) -> (r: String)
    ensures
        r@ == dec_int(v as int),
{
    if v >= 0 {
        u64_to_dec(v as u64)
    } else {
        let m: u64 = if v == i64::MIN {
            9223372036854775808u64
        } else {
            (-v) as u64
        };
        assert(m as int == -(v as int));
        let mut out = String::new();
        proof { reveal_strlit("-"); }
        out.append("-");
        push_u64_dec(&mut out, m);
        proof {
            assert(out@ =~= seq!['-'] + dec_digits(m as nat));
        }
        out
    }
}

/// The decimal rendering of a 32-bit signed value.
pub fn i32_to_dec(v: i32) -> (r: String)
    ensures
        r@ == dec_int(v as int),
{
    i64_to_dec(v as i64)
}

/// The lower-case keyword rendering of a boolean.
pub open spec fn bool_seq(b: bool) -> Seq<char> {
    if b { "true"@ } else { "false"@ }
}

/// `"true"` or `"false"`.
pub fn bool_str(b: bool) -> (r: &'static str)
    ensures
        r@ == bool_seq(b),
{
    if b { "true" } else { "false" }
}

} // verus!
