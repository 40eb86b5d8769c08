//! Text handling for asset fields: lists separated by commas, surrounding
//! white space, and whole numbers in decimal notation.

use vstd::prelude::*;
use vstd::string::*;

verus! {

/// `c` has the Unicode property White_Space.
pub open spec fn is_space(c: char) -> bool {
    let code = c as u32;
    ||| 0x09 <= code <= 0x0D
    ||| code == 0x20
    ||| code == 0x85
    ||| code == 0xA0
    ||| code == 0x1680
    ||| 0x2000 <= code <= 0x200A
    ||| code == 0x2028
    ||| code == 0x2029
    ||| code == 0x202F
    ||| code == 0x205F
    ||| code == 0x3000
}

/// Whether `c` is white space.
pub fn is_whitespace(c: char) -> (space: bool)
    ensures
        space == is_space(c),
{
    let code: u32 = c as u32;
    (0x09 <= code && code <= 0x0D) || code == 0x20 || code == 0x85 || code == 0xA0 || code
        == 0x1680 || (0x2000 <= code && code <= 0x200A) || code == 0x2028 || code == 0x2029 || code
        == 0x202F || code == 0x205F || code == 0x3000
}

/// Position of the first `c` in `s`, or the length of `s` if there is none.
pub open spec fn first_index_of(s: Seq<char>, c: char) -> nat
    decreases s.len(),
{
    if s.len() == 0 || s.first() == c {
        0
    } else {
        1 + first_index_of(s.drop_first(), c)
    }
}

/// `s` without the white space at its start.
pub open spec fn trim_start(s: Seq<char>) -> Seq<char>
    decreases s.len(),
{
    if s.len() > 0 && is_space(s.first()) {
        trim_start(s.drop_first())
    } else {
        s
    }
}

/// `s` without the white space at its end.
pub open spec fn trim_end(s: Seq<char>) -> Seq<char>
    decreases s.len(),
{
    if s.len() > 0 && is_space(s.last()) {
        trim_end(s.drop_last())
    } else {
        s
    }
}

/// `s` without the white space at either end.
pub open spec fn trimmed(s: Seq<char>) -> Seq<char> {
    trim_end(trim_start(s))
}

/// The fields of a list: the pieces between its commas, each without the
/// white space around it, empty ones left out.
pub open spec fn fields_of(s: Seq<char>) -> Seq<Seq<char>>
    decreases s.len(),
{
    let comma = first_index_of(s, ',');
    let head = trimmed(s.take(comma as int));
    let rest = if comma < s.len() {
        fields_of(s.skip(comma as int + 1))
    } else {
        Seq::empty()
    };
    if head.len() > 0 {
        seq![head] + rest
    } else {
        rest
    }
}

/// `c` is a decimal digit.
pub open spec fn is_digit(c: char) -> bool {
    '0' <= c <= '9'
}

/// `s` is a non-empty run of decimal digits.
pub open spec fn all_digits(s: Seq<char>) -> bool {
    s.len() > 0 && forall|i: int| 0 <= i < s.len() ==> is_digit(#[trigger] s[i])
}

/// The number that a run of decimal digits denotes.
pub open spec fn digits_value(s: Seq<char>) -> nat
    decreases s.len(),
{
    if s.len() == 0 {
        0
    } else {
        10 * digits_value(s.drop_last()) + (s.last() as nat - '0' as nat) as nat
    }
}

/// The whole number that `s` denotes: an optional sign and then digits,
/// nothing else.
pub open spec fn integer_value(s: Seq<char>) -> Option<int> {
    if s.len() > 0 && s[0] == '-' {
        if all_digits(s.skip(1)) {
            Some(-(digits_value(s.skip(1)) as int))
        } else {
            None
        }
    } else if s.len() > 0 && s[0] == '+' {
        if all_digits(s.skip(1)) {
            Some(digits_value(s.skip(1)) as int)
        } else {
            None
        }
    } else if all_digits(s) {
        Some(digits_value(s) as int)
    } else {
        None
    }
}

/// The 32-bit number that `s` denotes, if it denotes one.
pub open spec fn count_value(s: Seq<char>) -> Option<i32> {
    match integer_value(s) {
        Some(v) => if i32::MIN <= v <= i32::MAX {
            Some(v as i32)
        } else {
            None
        },
        None => None,
    }
}

/// The texts of a list of strings.
pub open spec fn texts_of(list: Seq<String>) -> Seq<Seq<char>> {
    Seq::new(list.len(), |i: int| list[i]@)
}

/// `String::push` of the standard library: the character is appended to
/// the end of the string.
#[verifier::external_body]
fn push_char(text: &mut String, c: char)
    ensures
        final(text)@ == old(text)@.push(c),
{
    text.push(c)
}

/// The characters of `text`.
pub fn chars_of(text: &str) -> (chars: Vec<char>)
    ensures
        chars@ == text@,
{
    let mut chars: Vec<char> = Vec::new();
    for c in it: text.chars()
        invariant
            it.seq() == text@,
            chars@ == text@.take(it.index()),
    {
        chars.push(c);
        assert(text@.take(it.index() + 1) =~= text@.take(it.index()).push(c));
    }
    assert(text@.take(text@.len() as int) =~= text@);
    chars
}

/// The string made of the characters from `from` up to `to`.
pub fn string_of(chars: &Vec<char>, from: usize, to: usize) -> (text: String)
    requires
        from <= to <= chars@.len(),
    ensures
        text@ == chars@.subrange(from as int, to as int),
{
    let mut text: String = String::new();
    let mut i: usize = from;
    while i < to
        invariant
            from <= i <= to <= chars@.len(),
            text@ == chars@.subrange(from as int, i as int),
        decreases to - i,
    {
        push_char(&mut text, chars[i]);
        assert(chars@.subrange(from as int, i + 1) =~= chars@.subrange(from as int, i as int).push(
            chars@[i as int],
        ));
        i = i + 1;
    }
    text
}

/// Where no `c` comes before position `k`, and `k` holds one or is the
/// end, `k` is the position of the first `c`.
pub proof fn lemma_first_index(s: Seq<char>, c: char, k: int)
    requires
        0 <= k <= s.len(),
        forall|j: int| 0 <= j < k ==> s[j] != c,
        k == s.len() || s[k] == c,
    ensures
        first_index_of(s, c) == k,
    decreases k,
{
    if k > 0 {
        let rest = s.drop_first();
        assert forall|j: int| 0 <= j < k - 1 implies rest[j] != c by {
            assert(rest[j] == s[j + 1]);
        }
        lemma_first_index(rest, c, k - 1);
    }
}

/// Where the first `a` characters are white space and the next is not,
/// trimming the start removes exactly those.
pub proof fn lemma_trim_start(s: Seq<char>, a: int)
    requires
        0 <= a <= s.len(),
        forall|j: int| 0 <= j < a ==> is_space(s[j]),
        a == s.len() || !is_space(s[a]),
    ensures
        trim_start(s) == s.skip(a),
    decreases a,
{
    if a > 0 {
        let rest = s.drop_first();
        assert forall|j: int| 0 <= j < a - 1 implies is_space(rest[j]) by {
            assert(rest[j] == s[j + 1]);
        }
        lemma_trim_start(rest, a - 1);
        assert(rest.skip(a - 1) =~= s.skip(a));
    } else {
        assert(s.skip(0) =~= s);
    }
}

/// Where all characters from position `b` on are white space and the one
/// before is not, trimming the end removes exactly those.
pub proof fn lemma_trim_end(s: Seq<char>, b: int)
    requires
        0 <= b <= s.len(),
        forall|j: int| b <= j < s.len() ==> is_space(s[j]),
        b == 0 || !is_space(s[b - 1]),
    ensures
        trim_end(s) == s.take(b),
    decreases s.len() - b,
{
    if b < s.len() {
        let rest = s.drop_last();
        lemma_trim_end(rest, b);
        assert(rest.take(b) =~= s.take(b));
    } else {
        assert(s.take(b) =~= s);
    }
}

/// The fields of the comma-separated list `text`, in order: each piece
/// without the white space around it, empty pieces left out.
pub fn fields(text: &str) -> (list: Vec<String>)
    ensures
        texts_of(list@) == fields_of(text@),
{
    let chars: Vec<char> = chars_of(text);
    let n: usize = chars.len();
    let mut list: Vec<String> = Vec::new();
    let mut start: usize = 0;
    let mut done: bool = false;
    assert(texts_of(list@) =~= Seq::<Seq<char>>::empty());
    assert(chars@.skip(0) =~= chars@);
    while !done
        invariant
            n == chars@.len(),
            chars@ == text@,
            start <= n,
            !done ==> fields_of(text@) == texts_of(list@) + fields_of(chars@.skip(start as int)),
            done ==> fields_of(text@) == texts_of(list@),
        decreases
                (if done {
                    0
                } else {
                    n - start + 1
                }),
    {
        let ghost rest = chars@.skip(start as int);
        let ghost listed = texts_of(list@);
        let mut comma: usize = start;
        while comma < n && chars[comma] != ','
            invariant
                n == chars@.len(),
                start <= comma <= n,
                forall|j: int| start <= j < comma ==> chars@[j] != ',',
            decreases n - comma,
        {
            comma = comma + 1;
        }
        let mut lo: usize = start;
        while lo < comma && is_whitespace(chars[lo])
            invariant
                n == chars@.len(),
                start <= lo <= comma <= n,
                forall|j: int| start <= j < lo ==> is_space(chars@[j]),
            decreases comma - lo,
        {
            lo = lo + 1;
        }
        let mut hi: usize = comma;
        while hi > lo && is_whitespace(chars[hi - 1])
            invariant
                n == chars@.len(),
                lo <= hi <= comma <= n,
                forall|j: int| hi <= j < comma ==> is_space(chars@[j]),
            decreases hi - lo,
        {
            hi = hi - 1;
        }
        proof {
            let piece = rest.take(comma - start);
            lemma_first_index(rest, ',', comma - start);
            assert(piece =~= chars@.subrange(start as int, comma as int));
            lemma_trim_start(piece, lo - start);
            assert(piece.skip(lo - start) =~= chars@.subrange(lo as int, comma as int));
            lemma_trim_end(chars@.subrange(lo as int, comma as int), hi - lo);
            assert(chars@.subrange(lo as int, comma as int).take(hi - lo) =~= chars@.subrange(
                lo as int,
                hi as int,
            ));
            assert(trimmed(piece) == chars@.subrange(lo as int, hi as int));
            if comma < n {
                assert(rest.skip(comma - start + 1) =~= chars@.skip(comma + 1));
            }
        }
        if lo < hi {
            let field: String = string_of(&chars, lo, hi);
            list.push(field);
            assert(texts_of(list@) =~= listed + seq![chars@.subrange(lo as int, hi as int)]);
        }
        if comma < n {
            start = comma + 1;
            assert(fields_of(text@) =~= texts_of(list@) + fields_of(chars@.skip(start as int)));
        } else {
            done = true;
            assert(fields_of(text@) =~= texts_of(list@));
        }
    }
    list
}

/// A run of digits denotes at least what any of its beginnings denotes.
pub proof fn lemma_digits_grow(s: Seq<char>, k: int)
    requires
        0 <= k <= s.len(),
    ensures
        digits_value(s.take(k)) <= digits_value(s),
    decreases s.len() - k,
{
    if k == s.len() {
        assert(s.take(k) =~= s);
    } else {
        lemma_digits_grow(s.drop_last(), k);
        assert(s.drop_last().take(k) =~= s.take(k));
    }
}

/// One more digit at the end of a run.
pub proof fn lemma_digits_step(s: Seq<char>, k: int)
    requires
        0 <= k < s.len(),
    ensures
        digits_value(s.take(k + 1)) == 10 * digits_value(s.take(k)) + (s[k] as nat - '0' as nat) as nat,
{
    assert(s.take(k + 1).drop_last() =~= s.take(k));
}

/// The 32-bit number that `text` denotes in decimal notation: digits, with
/// an optional sign before them. `None` for anything else, and for a
/// number that does not fit.
pub fn parse_count(text: &str) -> (count: Option<i32>)
    ensures
        count == count_value(text@),
{
    let chars: Vec<char> = chars_of(text);
    let n: usize = chars.len();
    if n == 0 {
        return None;
    }
    let negative: bool = chars[0] == '-';
    let first: usize = if chars[0] == '-' || chars[0] == '+' {
        1
    } else {
        0
    };
    let ghost digits = chars@.skip(first as int);
    if first >= n {
        return None;
    }
    let mut value: i64 = 0;
    let mut i: usize = first;
    assert(digits.take(0).len() == 0);
    while i < n
        invariant
            n == chars@.len(),
            n > 0,
            chars@ == text@,
            negative == (text@[0] == '-'),
            first == if text@[0] == '-' || text@[0] == '+' {
                1int
            } else {
                0int
            },
            first <= i <= n,
            digits == text@.skip(first as int),
            forall|j: int| 0 <= j < i - first ==> is_digit(#[trigger] digits[j]),
            value == digits_value(digits.take(i - first)),
            value <= 0x8000_0000,
        decreases n - i,
    {
        let c: char = chars[i];
        assert(digits[i - first] == c);
        if !('0' <= c && c <= '9') {
            proof {
                assert(!is_digit(digits[i - first]));
                assert(text@.skip(0) =~= text@);
            }
            return None;
        }
        proof {
            lemma_digits_step(digits, i - first);
        }
        value = value * 10 + (c as i64 - '0' as i64);
        if value > 0x8000_0000 {
            proof {
                lemma_digits_grow(digits, i - first + 1);
                assert(text@.skip(0) =~= text@);
            }
            return None;
        }
        i = i + 1;
    }
    proof {
        assert(digits.take(n - first) =~= digits);
        assert(all_digits(digits));
        assert(text@.skip(0) =~= text@);
    }
    if negative {
        Some((-value) as i32)
    } else if value > i32::MAX as i64 {
        None
    } else {
        Some(value as i32)
    }
}

} // verus!
