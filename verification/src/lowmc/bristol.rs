//! The text layer of the Bristol circuit format: a circuit description is
//! read as lines of whitespace-separated words, blank lines skipped, and
//! words are decimal integers or gate names.
use vstd::prelude::*;

verus! {

/// The byte length of the whitespace character at the start of `s` in
/// UTF-8, or 0 when `s` does not start with one. Whitespace is Unicode's
/// `White_Space`: tab, line feed, vertical tab, form feed, carriage return
/// and space (one byte); U+0085 and U+00A0 (two bytes); U+1680,
/// U+2000..U+200A, U+2028, U+2029, U+202F, U+205F and U+3000 (three bytes).
pub open spec fn space_len(s: Seq<u8>) -> nat {
    if s.len() >= 1 && (s[0] == 32 || (9 <= s[0] && s[0] <= 13)) {
        1
    } else if s.len() >= 2 && s[0] == 0xC2 && (s[1] == 0x85 || s[1] == 0xA0) {
        2
    } else if s.len() >= 3 && ((s[0] == 0xE1 && s[1] == 0x9A && s[2] == 0x80) || (s[0] == 0xE2 && s[1]
        == 0x80 && ((0x80 <= s[2] && s[2] <= 0x8A) || s[2] == 0xA8 || s[2] == 0xA9 || s[2] == 0xAF)) || (
    s[0] == 0xE2 && s[1] == 0x81 && s[2] == 0x9F) || (s[0] == 0xE3 && s[1] == 0x80 && s[2] == 0x80)) {
        3
    } else {
        0
    }
}

/// Length of the leading run of bytes of `s` that are not whitespace.
pub open spec fn word_len(s: Seq<u8>) -> nat
    decreases s.len(),
{
    if s.len() == 0 || space_len(s) > 0 {
        0
    } else {
        1 + word_len(s.drop_first())
    }
}

/// The whitespace-separated words of `s`, in order.
pub open spec fn words(s: Seq<u8>) -> Seq<Seq<u8>>
    decreases s.len(),
{
    if s.len() == 0 {
        Seq::empty()
    } else if space_len(s) > 0 {
        words(s.skip(space_len(s) as int))
    } else {
        let n = word_len(s);
        if 0 < n < s.len() {
            seq![s.take(n as int)] + words(s.skip(n as int))
        } else {
            seq![s]
        }
    }
}

/// Length of the first line of `s` (up to, not including, the first `\n`).
pub open spec fn line_len(s: Seq<u8>) -> nat
    decreases s.len(),
{
    if s.len() == 0 || s[0] == 10 {
        0
    } else {
        1 + line_len(s.drop_first())
    }
}

/// The words of each line of `s` that has any, in order; lines that are
/// empty or hold only whitespace are left out.
pub open spec fn token_lines(s: Seq<u8>) -> Seq<Seq<Seq<u8>>>
    decreases s.len(),
{
    if s.len() == 0 {
        Seq::empty()
    } else {
        let n = line_len(s);
        let ws = words(s.take(n as int));
        let rest = if n < s.len() {
            token_lines(s.skip(n + 1int))
        } else {
            Seq::empty()
        };
        if ws.len() > 0 {
            seq![ws] + rest
        } else {
            rest
        }
    }
}

/// The value of a string of decimal digits.
pub open spec fn digits_value(d: Seq<u8>) -> nat
    decreases d.len(),
{
    if d.len() == 0 {
        0
    } else {
        digits_value(d.drop_last()) * 10 + (d.last() - 48) as nat
    }
}

pub open spec fn all_digits(d: Seq<u8>) -> bool {
    forall|i: int| 0 <= i < d.len() ==> 48 <= #[trigger] d[i] <= 57
}

/// A word without its leading `+`, if it has one.
pub open spec fn unsigned_part(t: Seq<u8>) -> Seq<u8> {
    if t.len() > 0 && t[0] == 43 {
        t.drop_first()
    } else {
        t
    }
}

/// A word read as a `usize`: an optional `+` and at least one decimal digit,
/// whose value fits in a `usize`.
pub open spec fn parse_usize(t: Seq<u8>) -> Option<usize> {
    let d = unsigned_part(t);
    if d.len() > 0 && all_digits(d) && digits_value(d) <= usize::MAX {
        Some(digits_value(d) as usize)
    } else {
        None
    }
}

/// Every word of `ws` reads as a `usize`.
pub open spec fn all_parse(ws: Seq<Seq<u8>>) -> bool {
    forall|i: int| 0 <= i < ws.len() ==> #[trigger] parse_usize(ws[i]) is Some
}

/// The values of words that all read as `usize`.
pub open spec fn parsed_values(ws: Seq<Seq<u8>>) -> Seq<usize> {
    Seq::new(ws.len(), |i: int| parse_usize(ws[i]).unwrap())
}

/// The bytes of each word of a list.
pub open spec fn word_views(v: Seq<Vec<u8>>) -> Seq<Seq<u8>> {
    Seq::new(v.len(), |i: int| v[i]@)
}

/// The byte length of the whitespace character that starts at `text[i]`
/// within `text[..end]`, or 0.
pub fn space_len_at(text: &[u8], i: usize, end: usize) -> (n: usize)
    requires
        i < end <= text@.len(),
    ensures
        n == space_len(text@.subrange(i as int, end as int)),
        n <= end - i,
{
    let ghost s = text@.subrange(i as int, end as int);
    let b0 = text[i];
    assert(s[0] == b0);
    if b0 == 32 || (9 <= b0 && b0 <= 13) {
        return 1;
    }
    if end - i < 2 {
        return 0;
    }
    let b1 = text[i + 1];
    assert(s[1] == b1);
    if b0 == 0xC2 && (b1 == 0x85 || b1 == 0xA0) {
        return 2;
    }
    if end - i < 3 {
        return 0;
    }
    let b2 = text[i + 2];
    assert(s[2] == b2);
    if (b0 == 0xE1 && b1 == 0x9A && b2 == 0x80) || (b0 == 0xE2 && b1 == 0x80 && ((0x80 <= b2 && b2 <= 0x8A)
        || b2 == 0xA8 || b2 == 0xA9 || b2 == 0xAF)) || (b0 == 0xE2 && b1 == 0x81 && b2 == 0x9F) || (b0 == 0xE3
        && b1 == 0x80 && b2 == 0x80) {
        return 3;
    }
    0
}

/// The words of `text[start..end]`.
pub fn words_in(text: &[u8], start: usize, end: usize) -> (ws: Vec<Vec<u8>>)
    requires
        start <= end <= text@.len(),
    ensures
        word_views(ws@) == words(text@.subrange(start as int, end as int)),
{
    let ghost s = text@.subrange(start as int, end as int);
    let mut ws: Vec<Vec<u8>> = Vec::new();
    let mut i = start;
    while i < end
        invariant
            start <= i <= end <= text@.len(),
            s == text@.subrange(start as int, end as int),
            word_views(ws@) + words(text@.subrange(i as int, end as int)) == words(s),
        decreases end - i,
    {
        let ghost rest = text@.subrange(i as int, end as int);
        let sl = space_len_at(text, i, end);
        if sl > 0 {
            assert(rest.skip(sl as int) =~= text@.subrange(i + sl, end as int));
            i = i + sl;
        } else {
            let mut j = i;
            let mut w: Vec<u8> = Vec::new();
            while j < end && space_len_at(text, j, end) == 0
                invariant
                    i <= j <= end <= text@.len(),
                    i < end,
                    space_len(rest) == 0,
                    rest == text@.subrange(i as int, end as int),
                    w@ == text@.subrange(i as int, j as int),
                    word_len(rest) == (j - i) + word_len(text@.subrange(j as int, end as int)),
                decreases end - j,
            {
                assert(text@.subrange(j as int, end as int).drop_first() =~= text@.subrange(
                    j + 1,
                    end as int,
                ));
                w.push(text[j]);
                j = j + 1;
            }
            proof {
                let n = word_len(rest);
                assert(n == j - i);
                assert(rest.take(n as int) =~= w@);
                if j < end {
                    assert(rest.skip(n as int) =~= text@.subrange(j as int, end as int));
                } else {
                    assert(rest =~= w@);
                }
                assert(word_views(ws@.push(w)) =~= word_views(ws@).push(w@));
                assert(word_views(ws@).push(w@) + words(text@.subrange(j as int, end as int))
                    =~= word_views(ws@) + words(rest)) by {
                    if j < end {
                        assert(words(rest) == seq![w@] + words(text@.subrange(j as int, end as int)));
                    } else {
                        assert(words(text@.subrange(j as int, end as int)) =~= Seq::<Seq<u8>>::empty());
                    }
                }
            }
            ws.push(w);
            i = j;
        }
    }
    assert(word_views(ws@) + words(text@.subrange(end as int, end as int)) =~= word_views(ws@));
    ws
}

/// The words of the next line of `text` from `pos` that has any, and the
/// position after it; `None` when no such line is left.
pub fn next_token_line(text: &[u8], pos: usize) -> (res: (Option<Vec<Vec<u8>>>, usize))
    requires
        pos <= text@.len(),
    ensures
        res.1 <= text@.len(),
        res.0 is None ==> token_lines(text@.skip(pos as int)) == Seq::<Seq<Seq<u8>>>::empty(),
        res.0 is Some ==> token_lines(text@.skip(pos as int)) == seq![word_views(res.0->0@)]
            + token_lines(text@.skip(res.1 as int)),
        res.0 is Some ==> pos < res.1,
        res.0 is Some ==> word_views(res.0->0@).len() > 0,
{
    let mut p = pos;
    while p < text.len()
        invariant
            pos <= p <= text@.len(),
            token_lines(text@.skip(pos as int)) == token_lines(text@.skip(p as int)),
        decreases text@.len() - p,
    {
        let ghost rest = text@.skip(p as int);
        let mut e = p;
        while e < text.len() && text[e] != 10
            invariant
                p <= e <= text@.len(),
                rest == text@.skip(p as int),
                line_len(rest) == (e - p) + line_len(text@.skip(e as int)),
            decreases text@.len() - e,
        {
            assert(text@.skip(e as int).drop_first() =~= text@.skip(e + 1));
            e = e + 1;
        }
        let ws = words_in(text, p, e);
        let next = if e < text.len() {
            e + 1
        } else {
            e
        };
        proof {
            let n = line_len(rest);
            assert(n == e - p);
            assert(rest.take(n as int) =~= text@.subrange(p as int, e as int));
            if e < text@.len() {
                assert(rest.skip(n + 1int) =~= text@.skip(next as int));
            } else {
                assert(text@.skip(next as int) =~= Seq::<u8>::empty());
            }
        }
        if ws.len() > 0 {
            proof {
                if e == p {
                    assert(text@.subrange(p as int, e as int) =~= Seq::<u8>::empty());
                }
            }
            return (Some(ws), next);
        }
        p = next;
    }
    assert(text@.skip(p as int) =~= Seq::<u8>::empty());
    (None, p)
}

proof fn lemma_digits_take(d: Seq<u8>, i: int)
    requires
        0 <= i <= d.len(),
    ensures
        digits_value(d.take(i)) <= digits_value(d),
    decreases d.len(),
{
    if i < d.len() {
        lemma_digits_take(d.drop_last(), i);
        assert(d.drop_last().take(i) =~= d.take(i));
    } else {
        assert(d.take(i) =~= d);
    }
}

/// Read a word as a `usize`.
pub fn parse_usize_word(t: &Vec<u8>) -> (r: Option<usize>)
    ensures
        r == parse_usize(t@),
{
    let start: usize = if t.len() > 0 && t[0] == 43 {
        1
    } else {
        0
    };
    let ghost d = unsigned_part(t@);
    assert(d =~= t@.skip(start as int));
    if start == t.len() {
        assert(d.len() == 0);
        return None;
    }
    let mut i = start;
    while i < t.len()
        invariant
            start <= i <= t@.len(),
            d == t@.skip(start as int),
            d == unsigned_part(t@),
            forall|k: int| start <= k < i ==> 48 <= #[trigger] t@[k] <= 57,
        decreases t@.len() - i,
    {
        if t[i] < 48 || t[i] > 57 {
            assert(d[i - start] == t@[i as int]);
            return None;
        }
        i = i + 1;
    }
    assert(all_digits(d)) by {
        assert forall|k: int| 0 <= k < d.len() implies 48 <= #[trigger] d[k] <= 57 by {
            assert(d[k] == t@[k + start]);
        }
    }
    let mut acc: usize = 0;
    let mut i = start;
    while i < t.len()
        invariant
            start <= i <= t@.len(),
            d == t@.skip(start as int),
            d == unsigned_part(t@),
            all_digits(d),
            acc == digits_value(d.take(i - start)),
        decreases t@.len() - i,
    {
        assert(d.take(i - start + 1).drop_last() =~= d.take(i - start));
        assert(d.take(i - start + 1).last() == t@[i as int]);
        let digit = (t[i] - 48) as usize;
        assert(digits_value(d.take(i - start + 1)) == acc * 10 + digit);
        match acc.checked_mul(10) {
            Some(m) => match m.checked_add(digit) {
                Some(v) => {
                    acc = v;
                },
                None => {
                    proof {
                        lemma_digits_take(d, i - start + 1);
                        assert(digits_value(d) > usize::MAX);
                    }
                    return None;
                },
            },
            None => {
                proof {
                    lemma_digits_take(d, i - start + 1);
                    assert(digits_value(d) > usize::MAX);
                }
                return None;
            },
        }
        i = i + 1;
    }
    assert(d.take(i - start) =~= d);
    Some(acc)
}

/// Read every word of a list as a `usize`; `None` if any is not one.
pub fn parse_usizes(ws: &[Vec<u8>]) -> (r: Option<Vec<usize>>)
    ensures
        r is Some <==> all_parse(word_views(ws@)),
        r is Some ==> r->0@ == parsed_values(word_views(ws@)),
{
    let mut out: Vec<usize> = Vec::new();
    let mut i: usize = 0;
    while i < ws.len()
        invariant
            i <= ws@.len(),
            out@.len() == i,
            forall|k: int| 0 <= k < i ==> #[trigger] parse_usize(ws@[k]@) == Some(out@[k]),
        decreases ws@.len() - i,
    {
        match parse_usize_word(&ws[i]) {
            Some(v) => {
                out.push(v);
            },
            None => {
                assert(!(parse_usize(word_views(ws@)[i as int]) is Some));
                return None;
            },
        }
        i = i + 1;
    }
    assert(all_parse(word_views(ws@))) by {
        assert forall|k: int| 0 <= k < ws@.len() implies #[trigger] parse_usize(
            word_views(ws@)[k],
        ) is Some by {
            assert(parse_usize(ws@[k]@) == Some(out@[k]));
        }
    }
    assert(out@ =~= parsed_values(word_views(ws@))) by {
        assert forall|k: int| 0 <= k < ws@.len() implies out@[k] == parsed_values(
            word_views(ws@),
        )[k] by {
            assert(parse_usize(ws@[k]@) == Some(out@[k]));
        }
    }
    Some(out)
}

/// Whether a word equals the given bytes.
pub fn bytes_eq(a: &Vec<u8>, b: &[u8]) -> (r: bool)
    ensures
        r == (a@ == b@),
{
    if a.len() != b.len() {
        return false;
    }
    let mut i: usize = 0;
    while i < a.len()
        invariant
            i <= a@.len(),
            a@.len() == b@.len(),
            forall|k: int| 0 <= k < i ==> a@[k] == b@[k],
        decreases a@.len() - i,
    {
        if a[i] != b[i] {
            return false;
        }
        i = i + 1;
    }
    assert(a@ =~= b@);
    true
}


} // verus!
