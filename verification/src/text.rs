//! Text formatting shared by the tree nodes: joining report lines with
//! newlines, trimming trailing whitespace, and rendering integers as
//! signed decimal text.
use crate::Component;
use vstd::prelude::*;

verus! {

/// Characters that count as whitespace when a report is trimmed.
pub open spec fn is_report_ws(c: char) -> bool {
    c == '\n' || c == ' ' || c == '\t' || c == '\r'
}

/// The given text with its trailing whitespace removed.
pub open spec fn trim_trailing_ws(s: Seq<char>) -> Seq<char>
    decreases s.len(),
{
    if s.len() > 0 && is_report_ws(s.last()) {
        trim_trailing_ws(s.drop_last())
    } else {
        s
    }
}

/// Concatenation of the children's reports, a newline after each.
pub open spec fn raw_report<Content: Component>(s: Seq<Content>) -> Seq<char>
    decreases s,
{
    if s.len() == 0 {
        Seq::empty()
    } else {
        raw_report(s.subrange(0, s.len() - 1)) + s.last().spec_report() + seq!['\n']
    }
}

/// What a composite with the given children reports: the children's
/// reports, newline-joined in order, with trailing whitespace trimmed.
pub open spec fn joined_report<Content: Component>(s: Seq<Content>) -> Seq<char> {
    trim_trailing_ws(raw_report(s))
}

/// The decimal digit character for a value below ten.
pub open spec fn spec_digit_char(d: int) -> char {
    if d == 0 {
        '0'
    } else if d == 1 {
        '1'
    } else if d == 2 {
        '2'
    } else if d == 3 {
        '3'
    } else if d == 4 {
        '4'
    } else if d == 5 {
        '5'
    } else if d == 6 {
        '6'
    } else if d == 7 {
        '7'
    } else if d == 8 {
        '8'
    } else {
        '9'
    }
}

/// The decimal digits of a natural number, most significant first,
/// without grouping and without leading zeros (except for zero itself).
pub open spec fn spec_dec_nat(n: nat) -> Seq<char>
    decreases n,
{
    if n < 10 {
        seq![spec_digit_char(n as int)]
    } else {
        spec_dec_nat(n / 10) + seq![spec_digit_char((n % 10) as int)]
    }
}

/// A signed integer as decimal text: a minus sign for negative values,
/// then the digits of the magnitude.
pub open spec fn spec_dec_int(v: int) -> Seq<char> {
    if v < 0 {
        seq!['-'] + spec_dec_nat((-v) as nat)
    } else {
        spec_dec_nat(v as nat)
    }
}

/// Joining distributes over concatenation of child sequences.
pub proof fn lemma_raw_report_concat<Content: Component>(s1: Seq<Content>, s2: Seq<Content>)
    ensures
        raw_report(s1 + s2) == raw_report(s1) + raw_report(s2),
    decreases s2.len(),
{
    if s2.len() == 0 {
        assert(s1 + s2 =~= s1);
        assert(raw_report(s1) + raw_report(s2) =~= raw_report(s1));
    } else {
        let t = s1 + s2;
        lemma_raw_report_concat(s1, s2.subrange(0, s2.len() - 1));
        assert(t.subrange(0, t.len() - 1) =~= s1 + s2.subrange(0, s2.len() - 1));
        assert(t.last() == s2.last());
        assert(raw_report(s1 + s2) =~= raw_report(s1) + raw_report(s2));
    }
}

/// A single child contributes its own report followed by one newline.
pub proof fn lemma_raw_report_one<Content: Component>(c: Content)
    ensures
        raw_report(seq![c]) == c.spec_report() + seq!['\n'],
{
    let one = seq![c];
    assert(one.subrange(0, 0) =~= Seq::<Content>::empty());
    assert(raw_report(Seq::<Content>::empty()) == Seq::<char>::empty());
    assert(one.last() == c);
    assert(raw_report(one) == raw_report(one.subrange(0, 0)) + one.last().spec_report() + seq![
        '\n',
    ]);
    assert(raw_report(one) =~= c.spec_report() + seq!['\n']);
}

/// Reports are depth-first and order-preserving: the line block of a child
/// sequence splits, at any position, into the lines of the children before
/// it, that child's own report followed by one newline, and the lines of the
/// children after it. Removing the child at that position omits exactly its
/// contribution and shifts the later children's lines up.
pub proof fn lemma_report_omits_removed_child<Content: Component>(s: Seq<Content>, i: int)
    requires
        0 <= i < s.len(),
    ensures
        raw_report(s) == raw_report(s.subrange(0, i)) + s[i].spec_report() + seq!['\n']
            + raw_report(s.subrange(i + 1, s.len() as int)),
        raw_report(s.remove(i)) == raw_report(s.subrange(0, i))
            + raw_report(s.subrange(i + 1, s.len() as int)),
{
    let front = s.subrange(0, i);
    let back = s.subrange(i + 1, s.len() as int);
    assert(s =~= front + (seq![s[i]] + back));
    lemma_raw_report_concat(front, seq![s[i]] + back);
    lemma_raw_report_concat(seq![s[i]], back);
    lemma_raw_report_one(s[i]);
    assert(raw_report(s) =~= raw_report(front) + s[i].spec_report() + seq!['\n'] + raw_report(
        back,
    ));
    assert(s.remove(i) =~= front + back);
    lemma_raw_report_concat(front, back);
}

/// A composite without children reports empty text.
pub proof fn lemma_report_of_empty<Content: Component>()
    ensures
        joined_report(Seq::<Content>::empty()) == Seq::<char>::empty(),
{
    assert(raw_report(Seq::<Content>::empty()) == Seq::<char>::empty());
}

/// True of a character exactly when report trimming strips it.
fn char_is_report_ws(c: char) -> (b: bool)
    ensures
        b == is_report_ws(c),
{
    c == '\n' || c == ' ' || c == '\t' || c == '\r'
}

/// Trimming a text whose characters from position `k` on are all whitespace,
/// with no whitespace just before `k`, keeps exactly the first `k` characters.
proof fn lemma_trim_prefix(s: Seq<char>, k: int)
    requires
        0 <= k <= s.len(),
        forall|j: int| k <= j < s.len() ==> is_report_ws(s[j]),
        k == 0 || !is_report_ws(s[k - 1]),
    ensures
        trim_trailing_ws(s) == s.subrange(0, k),
    decreases s.len(),
{
    if s.len() == k {
        assert(s.subrange(0, k) =~= s);
    } else {
        assert(is_report_ws(s.last()));
        lemma_trim_prefix(s.drop_last(), k);
        assert(s.drop_last().subrange(0, k) =~= s.subrange(0, k));
    }
}

/// Remove trailing whitespace from a report.
pub fn trim_report(s: &str) -> (r: String)
    ensures
        r@ == trim_trailing_ws(s@),
{
    let n = s.unicode_len();
    let mut k = n;
    while k > 0 && char_is_report_ws(s.get_char(k - 1))
        invariant
            k <= n,
            n == s@.len(),
            forall|j: int| k <= j < s@.len() ==> is_report_ws(s@[j]),
        decreases k,
    {
        k -= 1;
    }
    proof {
        lemma_trim_prefix(s@, k as int);
    }
    let t = s.substring_char(0, k);
    String::from_str(t)
}

/// The one-character text holding the decimal digit for `d`.
fn digit_str(d: u32) -> (s: &'static str)
    requires
        d < 10,
    ensures
        s@ == seq![spec_digit_char(d as int)],
{
    proof {
        reveal_strlit("0");
        reveal_strlit("1");
        reveal_strlit("2");
        reveal_strlit("3");
        reveal_strlit("4");
        reveal_strlit("5");
        reveal_strlit("6");
        reveal_strlit("7");
        reveal_strlit("8");
        reveal_strlit("9");
    }
    let s: &'static str = if d == 0 {
        "0"
    } else if d == 1 {
        "1"
    } else if d == 2 {
        "2"
    } else if d == 3 {
        "3"
    } else if d == 4 {
        "4"
    } else if d == 5 {
        "5"
    } else if d == 6 {
        "6"
    } else if d == 7 {
        "7"
    } else if d == 8 {
        "8"
    } else {
        "9"
    };
    proof {
        assert(s@ =~= seq![spec_digit_char(d as int)]);
    }
    s
}

/// The decimal digits of an unsigned value, most significant first.
pub fn dec_u32(n: u32) -> (r: String)
    ensures
        r@ == spec_dec_nat(n as nat),
    decreases n,
{
    if n < 10 {
        String::from_str(digit_str(n))
    } else {
        let mut r = dec_u32(n / 10);
        r.append(digit_str(n % 10));
        r
    }
}

/// A signed value as decimal text, a minus sign first when it is negative.
pub fn dec_i32(v: i32) -> (r: String)
    ensures
        r@ == spec_dec_int(v as int),
{
    if v >= 0 {
        dec_u32(v as u32)
    } else {
        let mut r = String::from_str("-");
        let mag: u32 = (-(v as i64)) as u32;
        let digits = dec_u32(mag);
        r.append(digits.as_str());
        proof {
            reveal_strlit("-");
            assert("-"@ =~= seq!['-']);
        }
        r
    }
}

} // verus!
