//! Texts as sequences of characters: comparing, splitting into words, joining.

use vstd::prelude::*;
use vstd::string::StrSliceExecFns;
use vstd::string::StringExecFns;

verus! {

/// Whether `c` separates words: the characters that Unicode calls white space.
pub open spec fn is_space(c: char) -> bool {
    let n = c as u32;
    (0x09 <= n <= 0x0d) || n == 0x20 || n == 0x85 || n == 0xa0 || n == 0x1680 || (0x2000 <= n
        <= 0x200a) || n == 0x2028 || n == 0x2029 || n == 0x202f || n == 0x205f || n == 0x3000
}

/// How many characters at the start of `s` satisfy `is_space`.
pub open spec fn leading_spaces(s: Seq<char>) -> nat
    decreases s.len(),
{
    if s.len() > 0 && is_space(s[0]) {
        1 + leading_spaces(s.drop_first())
    } else {
        0
    }
}

/// How many characters at the start of `s` do not satisfy `is_space`.
pub open spec fn leading_word(s: Seq<char>) -> nat
    decreases s.len(),
{
    if s.len() > 0 && !is_space(s[0]) {
        1 + leading_word(s.drop_first())
    } else {
        0
    }
}

/// The words of `s`: its maximal runs of characters that are not white space,
/// in order. No word is empty.
pub open spec fn words_of(s: Seq<char>) -> Seq<Seq<char>>
    decreases s.len(),
{
    let k = leading_spaces(s);
    let t = s.skip(k as int);
    let n = leading_word(t);
    if k > s.len() || n == 0 || n > t.len() {
        Seq::empty()
    } else {
        seq![t.take(n as int)] + words_of(t.skip(n as int))
    }
}

/// The words of `ws` from index `from` up to, not including, index `to`,
/// with one blank between neighbours.
pub open spec fn joined(ws: Seq<Seq<char>>, from: int, to: int) -> Seq<char>
    decreases to - from,
{
    if to <= from {
        Seq::empty()
    } else if to == from + 1 {
        ws[from]
    } else {
        joined(ws, from, to - 1) + seq![' '] + ws[to - 1]
    }
}

/// A run of white space is measured by its first character that is none.
proof fn lemma_leading_spaces_is(s: Seq<char>, n: int)
    requires
        0 <= n <= s.len(),
        forall|i: int| 0 <= i < n ==> is_space(#[trigger] s[i]),
        n < s.len() ==> !is_space(s[n]),
    ensures
        leading_spaces(s) == n,
    decreases s.len(),
{
    if n > 0 {
        let t = s.drop_first();
        assert forall|i: int| 0 <= i < n - 1 implies is_space(#[trigger] t[i]) by {}
        lemma_leading_spaces_is(t, n - 1);
    }
}

/// A word is measured by the first white space after its start.
proof fn lemma_leading_word_is(s: Seq<char>, n: int)
    requires
        0 <= n <= s.len(),
        forall|i: int| 0 <= i < n ==> !is_space(#[trigger] s[i]),
        n < s.len() ==> is_space(s[n]),
    ensures
        leading_word(s) == n,
    decreases s.len(),
{
    if n > 0 {
        let t = s.drop_first();
        assert forall|i: int| 0 <= i < n - 1 implies !is_space(#[trigger] t[i]) by {}
        lemma_leading_word_is(t, n - 1);
    }
}

/// Whether `c` separates words.
pub fn char_is_space(c: char) -> (r: bool)
    ensures
        r == is_space(c),
{
    let n: u32 = c as u32;
    (0x09 <= n && n <= 0x0d) || n == 0x20 || n == 0x85 || n == 0xa0 || n == 0x1680 || (0x2000 <= n
        && n <= 0x200a) || n == 0x2028 || n == 0x2029 || n == 0x202f || n == 0x205f || n == 0x3000
}

/// The characters of a text, in order.
pub fn chars_of(s: &str) -> (r: Vec<char>)
    ensures
        r@ == s@,
{
    let mut out: Vec<char> = Vec::new();
    for c in it: s.chars()
        invariant
            it.seq() == s@,
            out@ == it.seq().take(it.index() as int),
    {
        out.push(c);
    }
    out
}

/// Whether two texts hold the same characters.
pub fn same_text(a: &str, b: &str) -> (r: bool)
    ensures
        r == (a@ == b@),
{
    let x = chars_of(a);
    let y = chars_of(b);
    if x.len() != y.len() {
        return false;
    }
    let mut i: usize = 0;
    while i < x.len()
        invariant
            x@ == a@,
            y@ == b@,
            x.len() == y.len(),
            i <= x.len(),
            forall|j: int| 0 <= j < i ==> x@[j] == y@[j],
        decreases x.len() - i,
    {
        if x[i] != y[i] {
            return false;
        }
        i = i + 1;
    }
    assert(x@ =~= y@);
    true
}

/// The parts of `text` before and behind the first `c` in it, if it holds one.
pub fn split_at_first(text: &str, c: char) -> (r: Option<(&str, &str)>)
    ensures
        match r {
            Some((head, tail)) => text@.index_of_first(c) matches Some(i) && head@ == text@.take(i)
                && tail@ == text@.skip(i + 1),
            None => text@.index_of_first(c) is None,
        },
{
    let cs = chars_of(text);
    let mut i: usize = 0;
    proof {
        text@.index_of_first_ensures(c);
    }
    while i < cs.len()
        invariant
            cs@ == text@,
            i <= cs.len(),
            forall|k: int| 0 <= k < i ==> text@[k] != c,
        decreases cs.len() - i,
    {
        if cs[i] == c {
            proof {
                text@.index_of_first_ensures(c);
            }
            return Some((text.substring_char(0, i), text.substring_char(i + 1, cs.len())));
        }
        i = i + 1;
    }
    proof {
        if text@.contains(c) {
            let j = choose|j: int| 0 <= j < text@.len() && text@[j] == c;
        }
        text@.index_of_first_ensures(c);
    }
    None
}

/// The character of a decimal digit, for `0 <= d < 10`.
pub open spec fn digit_char(d: int) -> char {
    seq!['0', '1', '2', '3', '4', '5', '6', '7', '8', '9'][d]
}

/// The decimal digits of `n`, without leading zeros.
pub open spec fn digits(n: nat) -> Seq<char>
    decreases n,
{
    if n < 10 {
        seq![digit_char(n as int)]
    } else {
        digits(n / 10).push(digit_char((n % 10) as int))
    }
}

/// The decimal numeral of `n`, with a minus sign where it is negative.
pub open spec fn decimal(n: int) -> Seq<char> {
    if n < 0 {
        seq!['-'] + digits((-n) as nat)
    } else {
        digits(n as nat)
    }
}

/// The numeral of a single digit.
fn digit_text(d: u64) -> (r: &'static str)
    requires
        d < 10,
    ensures
        r@ == seq![digit_char(d as int)],
{
    proof {
        reveal_strlit("0");
        reveal_strlit("1");
        reveal_strlit("2");
        reveal_strlit("3");
        reveal_strlit("4");
        reveal_strlit("5");
        reveal_strlit("6");
        reveal_strlit("7");
        reveal_strlit("8");
        reveal_strlit("9");
    }
    let r = if d == 0 {
        "0"
    } else if d == 1 {
        "1"
    } else if d == 2 {
        "2"
    } else if d == 3 {
        "3"
    } else if d == 4 {
        "4"
    } else if d == 5 {
        "5"
    } else if d == 6 {
        "6"
    } else if d == 7 {
        "7"
    } else if d == 8 {
        "8"
    } else {
        "9"
    };
    r
}

/// The decimal digits of `n`.
pub fn digits_text(n: u64) -> (r: String)
    ensures
        r@ == digits(n as nat),
    decreases n,
{
    if n < 10 {
        String::from_str(digit_text(n))
    } else {
        let mut out = digits_text(n / 10);
        out.append(digit_text(n % 10));
        out
    }
}

/// The decimal numeral of `n`.
pub fn decimal_text(n: i64) -> (r: String)
    ensures
        r@ == decimal(n as int),
{
    if n < 0 {
        let below: i64 = -(n + 1);
        let magnitude: u64 = below as u64 + 1;
        let mut out = String::from_str("-");
        let ds = digits_text(magnitude);
        out.append(ds.as_str());
        proof {
            reveal_strlit("-");
        }
        out
    } else {
        digits_text(n as u64)
    }
}

/// The texts that a list of strings holds.
pub open spec fn texts(v: Seq<String>) -> Seq<Seq<char>> {
    Seq::new(v.len(), |i: int| v[i]@)
}

/// The words of a text, in order.
pub fn words(s: &str) -> (r: Vec<String>)
    ensures
        texts(r@) == words_of(s@),
{
    let cs = chars_of(s);
    let n: usize = cs.len();
    let mut out: Vec<String> = Vec::new();
    let mut i: usize = 0;
    assert(s@.skip(0) =~= s@);
    while i < n
        invariant
            cs@ == s@,
            n == cs.len(),
            i <= n,
            words_of(s@) == texts(out@) + words_of(s@.skip(i as int)),
        decreases n - i,
    {
        let mut j: usize = i;
        while j < n && char_is_space(cs[j])
            invariant
                cs@ == s@,
                n == cs.len(),
                i <= j <= n,
                forall|k: int| i <= k < j ==> is_space(#[trigger] s@[k]),
            decreases n - j,
        {
            j = j + 1;
        }
        let mut e: usize = j;
        while e < n && !char_is_space(cs[e])
            invariant
                cs@ == s@,
                n == cs.len(),
                j <= e <= n,
                forall|k: int| j <= k < e ==> !is_space(#[trigger] s@[k]),
            decreases n - e,
        {
            e = e + 1;
        }
        proof {
            let rest = s@.skip(i as int);
            lemma_leading_spaces_is(rest, j - i);
            let t = rest.skip(j - i);
            lemma_leading_word_is(t, e - j);
            assert(t.skip(e - j) =~= s@.skip(e as int));
            assert(t.take(e - j) =~= s@.subrange(j as int, e as int));
        }
        if e > j {
            let word = String::from_str(s.substring_char(j, e));
            let ghost before = texts(out@);
            out.push(word);
            assert(texts(out@) + words_of(s@.skip(e as int)) =~= before + (seq![
                s@.subrange(j as int, e as int),
            ] + words_of(s@.skip(e as int))));
        }
        i = e;
    }
    out
}

/// The words of `ws` from index `from` on, with one blank between
/// neighbours.
pub fn join_from(ws: &Vec<String>, from: usize) -> (r: String)
    ensures
        r@ == joined(texts(ws@), from as int, ws@.len() as int),
{
    let mut out = String::new();
    if from >= ws.len() {
        return out;
    }
    out.append(ws[from].as_str());
    let mut i: usize = from + 1;
    while i < ws.len()
        invariant
            from < i <= ws.len(),
            out@ == joined(texts(ws@), from as int, i as int),
        decreases ws.len() - i,
    {
        out.append(" ");
        out.append(ws[i].as_str());
        proof {
            reveal_strlit(" ");
        }
        i = i + 1;
    }
    out
}

} // verus!
