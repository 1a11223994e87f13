//! Text as sequences of characters: the few operations on `str` and `String`
//! that the rest of the library is built from.

use vstd::prelude::*;

verus! {

/// The characters of `s`, in order.
pub fn chars_of(s: &str) -> (v: Vec<char>)
    ensures
        v@ == s@,
{
    let mut v: Vec<char> = Vec::new();
    for c in it: s.chars()
        invariant
            v@ == it.seq().take(it.index() as int),
            it.seq() == s@,
    {
        v.push(c);
    }
    v
}

/// Whether two texts hold the same characters.
pub fn same_text(a: &str, b: &str) -> (r: bool)
    ensures
        r == (a@ == b@),
{
    let x = chars_of(a);
    let y = chars_of(b);
    if x.len() != y.len() {
        return false;
    }
    let mut i: usize = 0;
    while i < x.len()
        invariant
            x@ == a@,
            y@ == b@,
            x.len() == y.len(),
            i <= x.len(),
            forall|j: int| 0 <= j < i ==> x@[j] == y@[j],
        decreases x.len() - i,
    {
        if x[i] != y[i] {
            return false;
        }
        i += 1;
    }
    assert(x@ =~= y@);
    true
}

/// A new `String` that holds the characters of `s`.
pub fn owned(s: &str) -> (r: String)
    ensures
        r@ == s@,
{
    String::from_str(s)
}

/// The characters of `s` from position `from` up to, not including, `to`.
pub(crate) fn slice_of(s: &str, from: usize, to: usize) -> (r: String)
    requires
        from <= to <= s@.len(),
    ensures
        r@ == s@.subrange(from as int, to as int),
{
    String::from_str(s.substring_char(from, to))
}

/// `a` followed by `b`.
pub fn followed_by(a: &str, b: &str) -> (r: String)
    ensures
        r@ == a@ + b@,
{
    let mut r = String::from_str(a);
    r.append(b);
    r
}

/// What `str::to_uppercase` makes of `s`.
pub uninterp spec fn uppercase(s: Seq<char>) -> Seq<char>;

/// `str::to_uppercase`: the upper-case form of `s` by the Unicode case
/// mappings, which depends on the characters of `s` alone. The contract names
/// the result and claims nothing else of it.
#[verifier::external_body]
pub(crate) fn to_uppercase(s: &str) -> (r: String)
    ensures
        r@ == uppercase(s@),
{
    s.to_uppercase()
}

/// What `str::to_lowercase` makes of `s`.
pub uninterp spec fn lowercase(s: Seq<char>) -> Seq<char>;

/// `str::to_lowercase`: the lower-case form of `s` by the Unicode case
/// mappings, which depends on the characters of `s` alone. The contract names
/// the result and claims nothing else of it.
#[verifier::external_body]
pub(crate) fn to_lowercase(s: &str) -> (r: String)
    ensures
        r@ == lowercase(s@),
{
    s.to_lowercase()
}

/// Position of the last `c` in `s`, or -1 where `s` holds none.
pub open spec fn last_index_of(s: Seq<char>, c: char) -> int
    decreases s.len(),
{
    if s.len() == 0 {
        -1
    } else if s.last() == c {
        s.len() - 1
    } else {
        last_index_of(s.drop_last(), c)
    }
}

/// `last_index_of` is a position of `c` with no `c` behind it, or -1 with no
/// `c` anywhere.
pub proof fn lemma_last_index_of(s: Seq<char>, c: char)
    ensures
        -1 <= last_index_of(s, c) < s.len(),
        last_index_of(s, c) >= 0 ==> s[last_index_of(s, c)] == c,
        forall|j: int| last_index_of(s, c) < j < s.len() ==> s[j] != c,
    decreases s.len(),
{
    if s.len() > 0 && s.last() != c {
        let t = s.drop_last();
        lemma_last_index_of(t, c);
        assert forall|j: int| last_index_of(s, c) < j < s.len() implies s[j] != c by {
            if j < t.len() {
                assert(t[j] == s[j]);
            }
        }
    }
}

/// Any position that meets the description of `lemma_last_index_of` is
/// `last_index_of`.
pub proof fn lemma_last_index_of_is(s: Seq<char>, c: char, r: int)
    requires
        -1 <= r < s.len(),
        r >= 0 ==> s[r] == c,
        forall|j: int| r < j < s.len() ==> s[j] != c,
    ensures
        last_index_of(s, c) == r,
{
    lemma_last_index_of(s, c);
}

/// The position of the last `c` in `v`, if there is one.
pub fn find_last(v: &Vec<char>, c: char) -> (r: Option<usize>)
    ensures
        match r {
            Some(i) => i as int == last_index_of(v@, c),
            None => last_index_of(v@, c) == -1,
        },
{
    let mut i: usize = v.len();
    while i > 0
        invariant
            i <= v.len(),
            forall|j: int| i <= j < v.len() ==> v@[j] != c,
        decreases i,
    {
        i -= 1;
        if v[i] == c {
            proof {
                lemma_last_index_of_is(v@, c, i as int);
            }
            return Some(i);
        }
    }
    proof {
        lemma_last_index_of_is(v@, c, -1);
    }
    None
}

/// The ten decimal digits.
pub open spec fn digit(d: int) -> char {
    seq!['0', '1', '2', '3', '4', '5', '6', '7', '8', '9'][d]
}

/// `n` written in decimal, without sign or leading zeros.
pub open spec fn decimal(n: nat) -> Seq<char>
    decreases n,
{
    if n < 10 {
        seq![digit(n as int)]
    } else {
        decimal(n / 10).push(digit((n % 10) as int))
    }
}

/// The digit `d` as a text of one character.
pub(crate) fn digit_text(d: u64) -> (r: &'static str)
    requires
        d < 10,
    ensures
        r@ == seq![digit(d as int)],
{
    proof {
        reveal_strlit("0123456789");
    }
    let all: &'static str = "0123456789";
    let r = all.substring_char(d as usize, d as usize + 1);
    r
}

/// Appends `n`, written in decimal, to `out`.
pub fn push_decimal(out: &mut String, n: u128)
    ensures
        final(out)@ == old(out)@ + decimal(n as nat),
    decreases n,
{
    if n >= 10 {
        push_decimal(out, n / 10);
    }
    out.append(digit_text((n % 10) as u64));
}

/// `n` written in decimal.
pub fn decimal_text(n: u64) -> (r: String)
    ensures
        r@ == decimal(n as nat),
{
    let mut r = String::new();
    push_decimal(&mut r, n as u128);
    r
}

/// The views of `texts`, in order.
pub open spec fn views_of(texts: Seq<String>) -> Seq<Seq<char>> {
    texts.map_values(|text: String| text@)
}

/// `parts` in one text, with `separator` between each two of them.
pub open spec fn joined_by(parts: Seq<Seq<char>>, separator: Seq<char>) -> Seq<char>
    decreases parts.len(),
{
    if parts.len() == 0 {
        Seq::empty()
    } else if parts.len() == 1 {
        parts[0]
    } else {
        joined_by(parts.drop_last(), separator) + separator + parts.last()
    }
}

/// The first `count` of `parts`, or all of them where there are fewer.
pub open spec fn leading(parts: Seq<Seq<char>>, count: nat) -> Seq<Seq<char>> {
    if parts.len() >= count {
        parts.take(count as int)
    } else {
        parts
    }
}

/// The first `count` of `parts` in one text, or all of them where there are
/// fewer, with `separator` between each two of them.
pub fn join_by(parts: &Vec<String>, count: usize, separator: &str) -> (r: String)
    ensures
        r@ == joined_by(leading(views_of(parts@), count as nat), separator@),
{
    let ghost views = views_of(parts@);
    let upto = if parts.len() >= count {
        count
    } else {
        parts.len()
    };
    let mut r = String::new();
    let mut i: usize = 0;
    while i < upto
        invariant
            i <= upto <= parts.len(),
            views == views_of(parts@),
            r@ == joined_by(views.take(i as int), separator@),
        decreases upto - i,
    {
        assert(views.take(i + 1).drop_last() =~= views.take(i as int));
        if i > 0 {
            r.append(separator);
        }
        r.append(parts[i].as_str());
        i += 1;
    }
    proof {
        if parts.len() < count {
            assert(views.take(upto as int) =~= views);
        }
    }
    r
}

/// The number that the digit `c` stands for; none where `c` is no digit.
pub open spec fn digit_value(c: char) -> Option<nat> {
    if '0' <= c && c <= '9' {
        Some((c as nat - '0' as nat) as nat)
    } else {
        None
    }
}

/// The number that the decimal digits `s` stand for; none where `s` is
/// empty or holds anything but digits.
pub open spec fn digits_value(s: Seq<char>) -> Option<nat>
    decreases s.len(),
{
    if s.len() == 0 {
        None
    } else if s.len() == 1 {
        digit_value(s[0])
    } else {
        match (digits_value(s.drop_last()), digit_value(s.last())) {
            (Some(above), Some(unit)) => Some(above * 10 + unit),
            _ => None,
        }
    }
}

/// The count that `s` states: decimal digits, with `+` before them or not.
pub open spec fn stated_count(s: Seq<char>) -> Option<nat> {
    if s.len() > 0 && s[0] == '+' {
        digits_value(s.drop_first())
    } else {
        digits_value(s)
    }
}

/// The count that `text` states, where it states one that fits.
pub fn parse_count(text: &str) -> (r: Option<usize>)
    ensures
        r == match stated_count(text@) {
            Some(count) => if count <= usize::MAX {
                Some(count as usize)
            } else {
                None
            },
            None => None,
        },
{
    let chars = chars_of(text);
    let first: usize = if chars.len() > 0 && chars[0] == '+' {
        1
    } else {
        0
    };
    let ghost body = chars@.subrange(first as int, chars@.len() as int);
    proof {
        if first == 0 {
            assert(body =~= text@);
        }
    }
    if chars.len() == first {
        return None;
    }
    let mut count: usize = 0;
    let mut fits = true;
    let mut i: usize = first;
    while i < chars.len()
        invariant
            first <= i <= chars.len(),
            body == chars@.subrange(first as int, chars@.len() as int),
            stated_count(text@) == digits_value(body),
            i == first ==> count == 0 && fits,
            i > first ==> match digits_value(body.take(i - first)) {
                Some(value) => if fits {
                    value == count
                } else {
                    value > usize::MAX
                },
                None => false,
            },
        decreases chars.len() - i,
    {
        let c = chars[i];
        assert(body.take(i - first + 1).drop_last() =~= body.take(i - first));
        if !(c >= '0' && c <= '9') {
            proof {
                lemma_digits_need_digits(body, i - first);
            }
            return None;
        }
        let unit: usize = (c as u32 - '0' as u32) as usize;
        if fits {
            if count > (usize::MAX - unit) / 10 {
                fits = false;
            } else {
                count = count * 10 + unit;
            }
        }
        i += 1;
    }
    assert(body.take(i - first) =~= body);
    if fits {
        Some(count)
    } else {
        None
    }
}

/// A text with anything but a digit in it states no number.
pub proof fn lemma_digits_need_digits(s: Seq<char>, i: int)
    requires
        0 <= i < s.len(),
        digit_value(s[i]) is None,
    ensures
        digits_value(s) is None,
    decreases s.len(),
{
    if s.len() > 1 && i < s.len() - 1 {
        lemma_digits_need_digits(s.drop_last(), i);
    }
}

/// The texts that stand between the `separator`s of `text`, in order,
/// without the empty ones.
pub open spec fn fields_of(text: Seq<char>, separator: char) -> Seq<Seq<char>>
    decreases text.len(),
{
    let cut = last_index_of(text, separator);
    let last = text.subrange(cut + 1, text.len() as int);
    let before = if 0 <= cut < text.len() {
        fields_of(text.take(cut), separator)
    } else {
        Seq::empty()
    };
    if last.len() > 0 {
        before.push(last)
    } else {
        before
    }
}

/// The texts that stand between the `separator`s of `text`, in order,
/// without the empty ones.
pub fn fields(text: &str, separator: char) -> (r: Vec<String>)
    ensures
        views_of(r@) == fields_of(text@, separator),
{
    let chars = chars_of(text);
    let mut r: Vec<String> = Vec::new();
    let mut start: usize = 0;
    let mut i: usize = 0;
    while i < chars.len()
        invariant
            start <= i <= chars.len(),
            chars@ == text@,
            last_index_of(text@.take(i as int), separator) == start - 1,
            views_of(r@) == if start == 0 {
                Seq::<Seq<char>>::empty()
            } else {
                fields_of(text@.take(start - 1), separator)
            },
        decreases chars.len() - i,
    {
        proof {
            lemma_last_index_of(text@.take(i as int), separator);
            assert(text@.take(i + 1).drop_last() =~= text@.take(i as int));
        }
        if chars[i] == separator {
            let ghost whole = text@.take(i as int);
            proof {
                if start > 0 {
                    assert(whole.take(start - 1) =~= text@.take(start - 1));
                }
                assert(whole.subrange(start as int, i as int) =~= text@.subrange(
                    start as int,
                    i as int,
                ));
            }
            if i > start {
                r.push(slice_of(text, start, i));
            }
            start = i + 1;
        }
        i += 1;
    }
    proof {
        assert(text@.take(i as int) =~= text@);
    }
    if chars.len() > start {
        r.push(slice_of(text, start, chars.len()));
    }
    r
}

/// The texts that stand between the `separator`s of `text`, in order, empty
/// ones included: one more text than there are separators.
pub open spec fn pieces_of(text: Seq<char>, separator: char) -> Seq<Seq<char>>
    decreases text.len(),
{
    let cut = last_index_of(text, separator);
    let last = text.subrange(cut + 1, text.len() as int);
    if 0 <= cut < text.len() {
        pieces_of(text.take(cut), separator).push(last)
    } else {
        seq![last]
    }
}

/// The texts that stand between the `separator`s of `text`, in order, empty
/// ones included.
pub fn pieces(text: &str, separator: char) -> (r: Vec<String>)
    ensures
        views_of(r@) == pieces_of(text@, separator),
{
    let chars = chars_of(text);
    let mut r: Vec<String> = Vec::new();
    let mut start: usize = 0;
    let mut i: usize = 0;
    while i < chars.len()
        invariant
            start <= i <= chars.len(),
            chars@ == text@,
            last_index_of(text@.take(i as int), separator) == start - 1,
            views_of(r@) == if start == 0 {
                Seq::<Seq<char>>::empty()
            } else {
                pieces_of(text@.take(start - 1), separator)
            },
        decreases chars.len() - i,
    {
        proof {
            lemma_last_index_of(text@.take(i as int), separator);
            assert(text@.take(i + 1).drop_last() =~= text@.take(i as int));
        }
        if chars[i] == separator {
            let ghost whole = text@.take(i as int);
            proof {
                if start > 0 {
                    assert(whole.take(start - 1) =~= text@.take(start - 1));
                }
                assert(whole.subrange(start as int, i as int) =~= text@.subrange(
                    start as int,
                    i as int,
                ));
            }
            r.push(slice_of(text, start, i));
            start = i + 1;
        }
        i += 1;
    }
    proof {
        assert(text@.take(i as int) =~= text@);
    }
    r.push(slice_of(text, start, chars.len()));
    r
}

} // verus!
