//! String helpers shared by the rest of the crate.

use vstd::prelude::*;
use vstd::string::StrSliceExecFns;
use vstd::utf8::{encode_utf8, encode_utf8_decode_utf8};

verus! {

/// `<str as PartialEq>::eq`, the `==` of string slices: two slices are equal
/// exactly when they hold the same characters in the same order.
pub assume_specification[ <str as PartialEq>::eq ](a: &str, b: &str) -> (same: bool)
    ensures
        same == (a@ == b@),
;

/// `String::push`: the string afterwards is the string before with the
/// character added at its end.
pub assume_specification[ String::push ](s: &mut String, c: char)
    ensures
        final(s)@ == old(s)@.push(c),
;

/// Whether `text` is exactly the word `word`.
pub fn is_word(text: &str, word: &str) -> (same: bool)
    ensures
        same == (text@ == word@),
{
    *text == *word
}

/// `s` with every occurrence of `from` replaced by `to`.
pub open spec fn spec_replace_char(s: Seq<char>, from: char, to: char) -> Seq<char> {
    Seq::new(s.len(), |i: int| if s[i] == from { to } else { s[i] })
}

/// Replaces every occurrence of the character `from` by `to`.
pub fn replace_char(s: &str, from: char, to: char) -> (out: String)
    ensures
        out@ == spec_replace_char(s@, from, to),
{
    let mut out = String::new();
    for c in it: s.chars()
        invariant
            it.seq() == s@,
            out@ == spec_replace_char(s@.take(it.index()), from, to),
    {
        if c == from {
            out.push(to);
        } else {
            out.push(c);
        }
    }
    out
}

/// The character that writes the decimal digit `d`.
pub open spec fn spec_digit(d: nat) -> char
    recommends
        d < 10,
{
    if d == 0 {
        '0'
    } else if d == 1 {
        '1'
    } else if d == 2 {
        '2'
    } else if d == 3 {
        '3'
    } else if d == 4 {
        '4'
    } else if d == 5 {
        '5'
    } else if d == 6 {
        '6'
    } else if d == 7 {
        '7'
    } else if d == 8 {
        '8'
    } else {
        '9'
    }
}

/// The decimal numeral of `n`, without sign or leading zeros.
pub open spec fn spec_decimal(n: nat) -> Seq<char>
    decreases n,
{
    if n < 10 {
        seq![spec_digit(n)]
    } else {
        spec_decimal(n / 10).push(spec_digit(n % 10))
    }
}

/// The character that writes the decimal digit `d`.
pub fn digit(d: u8) -> (c: char)
    requires
        d < 10,
    ensures
        c == spec_digit(d as nat),
{
    if d == 0 {
        '0'
    } else if d == 1 {
        '1'
    } else if d == 2 {
        '2'
    } else if d == 3 {
        '3'
    } else if d == 4 {
        '4'
    } else if d == 5 {
        '5'
    } else if d == 6 {
        '6'
    } else if d == 7 {
        '7'
    } else if d == 8 {
        '8'
    } else {
        '9'
    }
}

/// Appends the decimal numeral of `n` to `out`.
pub fn push_decimal(out: &mut String, n: u64)
    ensures
        final(out)@ == old(out)@ + spec_decimal(n as nat),
    decreases n,
{
    if n >= 10 {
        push_decimal(out, n / 10);
    }
    out.push(digit((n % 10) as u8));
}

/// The decimal numeral of `n`.
pub fn decimal(n: u64) -> (out: String)
    ensures
        out@ == spec_decimal(n as nat),
{
    let mut out = String::new();
    push_decimal(&mut out, n);
    out
}

/// Appends `tail` to `out`.
pub fn push_text(out: &mut String, tail: &str)
    ensures
        final(out)@ == old(out)@ + tail@,
{
    for c in it: tail.chars()
        invariant
            it.seq() == tail@,
            out@ == old(out)@ + tail@.take(it.index()),
    {
        out.push(c);
    }
}

/// The upper-case form of an ASCII lower-case letter; every other character
/// is left as it is.
pub open spec fn spec_ascii_upper(c: char) -> char {
    if 'a' <= c && c <= 'z' {
        ((c as u8) - 32) as char
    } else {
        c
    }
}

/// `s` with every ASCII lower-case letter in upper case.
pub open spec fn spec_ascii_uppercase(s: Seq<char>) -> Seq<char> {
    Seq::new(s.len(), |i: int| spec_ascii_upper(s[i]))
}

/// The upper-case form of an ASCII lower-case letter; every other character
/// is left as it is.
pub fn ascii_upper(c: char) -> (upper: char)
    ensures
        upper == spec_ascii_upper(c),
{
    if 'a' <= c && c <= 'z' {
        ((c as u8) - 32) as char
    } else {
        c
    }
}

/// Puts every ASCII lower-case letter of `s` in upper case.
pub fn ascii_uppercase(s: &str) -> (out: String)
    ensures
        out@ == spec_ascii_uppercase(s@),
{
    let mut out = String::new();
    for c in it: s.chars()
        invariant
            it.seq() == s@,
            out@ == spec_ascii_uppercase(s@.take(it.index())),
    {
        out.push(ascii_upper(c));
    }
    out
}

/// The place of the last `c` in `s`, if there is one.
pub open spec fn spec_last_index_of(s: Seq<char>, c: char) -> Option<int>
    decreases s.len(),
{
    if s.len() == 0 {
        None
    } else if s.last() == c {
        Some(s.len() - 1)
    } else {
        spec_last_index_of(s.drop_last(), c)
    }
}

/// The last `c` of `s` is a `c` of `s`, and no `c` follows it.
pub proof fn lemma_last_index_of(s: Seq<char>, c: char)
    ensures
        match spec_last_index_of(s, c) {
            Some(at) => 0 <= at < s.len() && s[at] == c && forall|j: int|
                at < j < s.len() ==> s[j] != c,
            None => forall|j: int| 0 <= j < s.len() ==> s[j] != c,
        },
    decreases s.len(),
{
    if s.len() > 0 && s.last() != c {
        let front = s.drop_last();
        lemma_last_index_of(front, c);
        assert forall|j: int| 0 <= j < front.len() implies front[j] == s[j] by {}
        match spec_last_index_of(front, c) {
            Some(at) => {
                assert(front[at] == s[at]);
                assert forall|j: int| at < j < s.len() implies s[j] != c by {
                    if j < front.len() {
                        assert(front[j] == s[j]);
                    }
                }
            },
            None => {
                assert forall|j: int| 0 <= j < s.len() implies s[j] != c by {
                    if j < front.len() {
                        assert(front[j] == s[j]);
                    }
                }
            },
        }
    }
}

/// The place of the last `c` in `s`, counted in characters.
pub fn last_index_of(s: &str, c: char) -> (found: Option<usize>)
    ensures
        match found {
            Some(at) => spec_last_index_of(s@, c) == Some(at as int),
            None => spec_last_index_of(s@, c) is None,
        },
{
    let length = s.unicode_len();
    let mut found: Option<usize> = None;
    let mut at: usize = 0;
    for d in it: s.chars()
        invariant
            it.seq() == s@,
            at == it.index(),
            length == s@.len(),
            match found {
                Some(place) => spec_last_index_of(s@.take(at as int), c) == Some(place as int),
                None => spec_last_index_of(s@.take(at as int), c) is None,
            },
    {
        assert(s@.take(at + 1).drop_last() =~= s@.take(at as int));
        assert(s@.take(at + 1).last() == d);
        if d == c {
            found = Some(at);
        }
        at += 1;
    }
    assert(s@.take(s@.len() as int) =~= s@);
    found
}

/// Whether `c` is one of the digits `0` to `9`.
pub open spec fn spec_is_digit(c: char) -> bool {
    '0' <= c && c <= '9'
}

/// The number that the digit `c` writes.
pub open spec fn spec_digit_value(c: char) -> nat
    recommends
        spec_is_digit(c),
{
    ((c as u8) - ('0' as u8)) as nat
}

/// Whether `s` is made of digits only.
pub open spec fn spec_all_digits(s: Seq<char>) -> bool {
    forall|i: int| 0 <= i < s.len() ==> spec_is_digit(#[trigger] s[i])
}

/// The number that the digits of `s` write in decimal.
pub open spec fn spec_decimal_value(s: Seq<char>) -> nat
    decreases s.len(),
{
    if s.len() == 0 {
        0
    } else {
        spec_decimal_value(s.drop_last()) * 10 + spec_digit_value(s.last())
    }
}

/// The number below 65536 that `s` writes: an optional `+`, then one digit
/// or more, and nothing else.
pub open spec fn spec_parse_u16(s: Seq<char>) -> Option<u16> {
    let digits = if s.len() > 0 && s[0] == '+' {
        s.drop_first()
    } else {
        s
    };
    if digits.len() > 0 && spec_all_digits(digits) && spec_decimal_value(digits) <= u16::MAX {
        Some(spec_decimal_value(digits) as u16)
    } else {
        None
    }
}

/// A numeral is worth at least as much as any of its beginnings.
pub proof fn lemma_decimal_value_grows(s: Seq<char>, k: int)
    requires
        0 <= k <= s.len(),
    ensures
        spec_decimal_value(s.take(k)) <= spec_decimal_value(s),
    decreases s.len() - k,
{
    if k < s.len() {
        lemma_decimal_value_grows(s, k + 1);
        assert(s.take(k + 1).drop_last() =~= s.take(k));
    } else {
        assert(s.take(k) =~= s);
    }
}

/// Reads a number below 65536: an optional `+`, then one digit or more, and
/// nothing else.
pub fn parse_u16(s: &str) -> (parsed: Option<u16>)
    ensures
        parsed == spec_parse_u16(s@),
{
    let ghost digits = if s@.len() > 0 && s@[0] == '+' {
        s@.drop_first()
    } else {
        s@
    };
    let ghost skipped: int = s@.len() - digits.len();
    let length = s.unicode_len();
    let mut value: u32 = 0;
    let mut count: usize = 0;
    let mut pos: usize = 0;
    for c in it: s.chars()
        invariant
            it.seq() == s@,
            length == s@.len(),
            pos == it.index(),
            digits == (if s@.len() > 0 && s@[0] == '+' {
                s@.drop_first()
            } else {
                s@
            }),
            skipped == s@.len() - digits.len(),
            digits == s@.skip(skipped),
            skipped == 0 || skipped == 1,
            skipped == 1 ==> s@[0] == '+',
            skipped == 0 ==> s@.len() == 0 || s@[0] != '+',
            it.index() >= skipped ==> count == it.index() - skipped,
            it.index() < skipped ==> count == 0,
            count <= digits.len(),
            spec_all_digits(digits.take(count as int)),
            value == spec_decimal_value(digits.take(count as int)),
            value <= u16::MAX,
    {
        if pos == 0 && c == '+' {
            assert(digits.take(0) =~= Seq::<char>::empty());
        } else {
            assert(digits[count as int] == c);
            assert(digits.take(count + 1).drop_last() =~= digits.take(count as int));
            assert(digits.take(count + 1).last() == c);
            if !('0' <= c && c <= '9') {
                assert(!spec_all_digits(digits));
                return None;
            }
            let d: u32 = ((c as u8) - ('0' as u8)) as u32;
            let next: u32 = value * 10 + d;
            assert(next == spec_decimal_value(digits.take(count + 1)));
            if next > 65535 {
                proof {
                    lemma_decimal_value_grows(digits, count + 1);
                }
                return None;
            }
            assert(spec_all_digits(digits.take(count + 1))) by {
                assert forall|i: int| 0 <= i < count + 1 implies spec_is_digit(
                    #[trigger] digits.take(count + 1)[i],
                ) by {
                    if i < count {
                        assert(digits.take(count as int)[i] == digits[i]);
                    }
                }
            }
            value = next;
            count += 1;
        }
        pos += 1;
    }
    assert(digits.take(digits.len() as int) =~= digits);
    if count == 0 {
        None
    } else {
        Some(value as u16)
    }
}

/// The character sequences of the strings of `items`.
pub open spec fn spec_views(items: Seq<String>) -> Seq<Seq<char>> {
    Seq::new(items.len(), |i: int| items[i]@)
}

/// The pieces of `s` between the occurrences of `sep`: one more than there
/// are occurrences, so a text without `sep` is its own only piece.
pub open spec fn spec_split(s: Seq<char>, sep: char) -> Seq<Seq<char>>
    decreases s.len(),
{
    if s.len() == 0 {
        seq![Seq::<char>::empty()]
    } else {
        let front = spec_split(s.drop_last(), sep);
        if s.last() == sep {
            front.push(Seq::<char>::empty())
        } else {
            front.drop_last().push(front.last().push(s.last()))
        }
    }
}

/// A text has at least one piece.
pub proof fn lemma_split_nonempty(s: Seq<char>, sep: char)
    ensures
        spec_split(s, sep).len() > 0,
    decreases s.len(),
{
    if s.len() > 0 {
        lemma_split_nonempty(s.drop_last(), sep);
    }
}

/// Cuts `s` at every occurrence of `sep`.
pub fn split_char(s: &str, sep: char) -> (pieces: Vec<String>)
    ensures
        spec_views(pieces@) == spec_split(s@, sep),
{
    let mut done: Vec<String> = Vec::new();
    let mut current = String::new();
    for c in it: s.chars()
        invariant
            it.seq() == s@,
            spec_views(done@).push(current@) == spec_split(s@.take(it.index()), sep),
    {
        let ghost i = it.index();
        proof {
            assert(s@.take(i + 1).drop_last() =~= s@.take(i));
            assert(s@.take(i + 1).last() == c);
            lemma_split_nonempty(s@.take(i), sep);
        }
        let ghost before = spec_views(done@);
        let ghost piece = current@;
        if c == sep {
            done.push(current);
            current = String::new();
            assert(spec_views(done@) =~= before.push(piece));
        } else {
            current.push(c);
            assert(before.push(piece).drop_last() =~= before);
        }
    }
    let ghost before = spec_views(done@);
    done.push(current);
    assert(spec_views(done@) =~= before.push(current@));
    assert(s@.take(s@.len() as int) =~= s@);
    done
}

/// The pieces of `parts` in a row, with `sep` between each two.
pub open spec fn spec_join(parts: Seq<Seq<char>>, sep: Seq<char>) -> Seq<char>
    decreases parts.len(),
{
    if parts.len() == 0 {
        Seq::<char>::empty()
    } else if parts.len() == 1 {
        parts[0]
    } else {
        spec_join(parts.drop_last(), sep) + sep + parts.last()
    }
}

/// Joining the pieces of a text with the character at which it was cut
/// gives the text back.
pub proof fn lemma_join_split(s: Seq<char>, sep: char)
    ensures
        spec_join(spec_split(s, sep), seq![sep]) == s,
    decreases s.len(),
{
    if s.len() == 0 {
        assert(spec_split(s, sep) =~= seq![Seq::<char>::empty()]);
        assert(spec_join(spec_split(s, sep), seq![sep]) =~= s);
    } else {
        let front = spec_split(s.drop_last(), sep);
        lemma_split_nonempty(s.drop_last(), sep);
        lemma_join_split(s.drop_last(), sep);
        lemma_join_last(front, seq![sep]);
        if s.last() == sep {
            let all = front.push(Seq::<char>::empty());
            assert(all.drop_last() =~= front);
            assert(spec_join(all, seq![sep]) =~= spec_join(front, seq![sep]) + seq![sep]);
            assert(s =~= s.drop_last() + seq![sep]);
        } else {
            let all = front.drop_last().push(front.last().push(s.last()));
            lemma_join_last(all, seq![sep]);
            assert(all.drop_last() =~= front.drop_last());
            assert(spec_join(all, seq![sep]) =~= spec_join(front, seq![sep]).push(s.last()));
            assert(s =~= s.drop_last().push(s.last()));
        }
    }
}

/// A joined text is what its pieces but the last are joined to, then the
/// separator where there are such pieces, then the last piece.
proof fn lemma_join_last(parts: Seq<Seq<char>>, sep: Seq<char>)
    requires
        parts.len() > 0,
    ensures
        spec_join(parts, sep) == if parts.len() == 1 {
            parts.last()
        } else {
            spec_join(parts.drop_last(), sep) + sep + parts.last()
        },
{
}

/// Puts the strings of `parts` in a row, with `sep` between each two.
pub fn join(parts: &Vec<String>, sep: &str) -> (out: String)
    ensures
        out@ == spec_join(spec_views(parts@), sep@),
{
    let mut out = String::new();
    let mut i: usize = 0;
    while i < parts.len()
        invariant
            i <= parts.len(),
            out@ == spec_join(spec_views(parts@).take(i as int), sep@),
        decreases parts.len() - i,
    {
        let ghost views = spec_views(parts@);
        proof {
            assert(views.take(i + 1).drop_last() =~= views.take(i as int));
            assert(views.take(i + 1).last() == parts@[i as int]@);
            if i == 0 {
                assert(views.take(1)[0] == parts@[0]@);
            }
        }
        if i > 0 {
            push_text(&mut out, sep);
        }
        push_text(&mut out, parts[i].as_str());
        assert(out@ =~= spec_join(views.take(i + 1), sep@));
        i += 1;
    }
    assert(spec_views(parts@).take(parts@.len() as int) =~= spec_views(parts@));
    out
}

/// Whether `c` is white space: one of the characters with the Unicode
/// property `White_Space`.
pub open spec fn spec_is_whitespace(c: char) -> bool {
    let n = c as u32;
    ||| 0x09 <= n <= 0x0D
    ||| n == 0x20
    ||| n == 0x85
    ||| n == 0xA0
    ||| n == 0x1680
    ||| 0x2000 <= n <= 0x200A
    ||| n == 0x2028
    ||| n == 0x2029
    ||| n == 0x202F
    ||| n == 0x205F
    ||| n == 0x3000
}

/// Whether `c` is white space.
pub fn is_whitespace(c: char) -> (white: bool)
    ensures
        white == spec_is_whitespace(c),
{
    let n: u32 = c as u32;
    (0x09 <= n && n <= 0x0D) || n == 0x20 || n == 0x85 || n == 0xA0 || n == 0x1680 || (0x2000 <= n
        && n <= 0x200A) || n == 0x2028 || n == 0x2029 || n == 0x202F || n == 0x205F || n == 0x3000
}

/// `s` without the white space at its beginning.
pub open spec fn spec_trim_start(s: Seq<char>) -> Seq<char>
    decreases s.len(),
{
    if s.len() > 0 && spec_is_whitespace(s[0]) {
        spec_trim_start(s.drop_first())
    } else {
        s
    }
}

/// `s` without the white space at its end.
pub open spec fn spec_trim_end(s: Seq<char>) -> Seq<char>
    decreases s.len(),
{
    if s.len() > 0 && spec_is_whitespace(s.last()) {
        spec_trim_end(s.drop_last())
    } else {
        s
    }
}

/// `s` without the white space at its beginning and at its end.
pub open spec fn spec_trim(s: Seq<char>) -> Seq<char> {
    spec_trim_end(spec_trim_start(s))
}

/// Whether `s` is made of white space only.
pub open spec fn spec_all_whitespace(s: Seq<char>) -> bool {
    forall|i: int| 0 <= i < s.len() ==> spec_is_whitespace(#[trigger] s[i])
}

/// What is left of a text without the white space at its beginning, once a
/// character is added at its end.
proof fn lemma_trim_start_push(s: Seq<char>, c: char)
    ensures
        spec_trim_start(s.push(c)) == if spec_trim_start(s).len() > 0 || !spec_is_whitespace(c) {
            spec_trim_start(s).push(c)
        } else {
            Seq::<char>::empty()
        },
    decreases s.len(),
{
    if s.len() == 0 {
        assert(s.push(c).drop_first() =~= Seq::<char>::empty());
        assert(s.push(c) =~= Seq::<char>::empty().push(c));
        assert(spec_trim_start(s) =~= Seq::<char>::empty());
    } else if spec_is_whitespace(s[0]) {
        assert(s.push(c).drop_first() =~= s.drop_first().push(c));
        lemma_trim_start_push(s.drop_first(), c);
    } else {
        assert(s.push(c)[0] == s[0]);
    }
}

/// White space at the end of a text does not count for what is left of it
/// without the white space at its end.
proof fn lemma_trim_end_skips(kept: Seq<char>, white: Seq<char>)
    requires
        spec_all_whitespace(white),
    ensures
        spec_trim_end(kept + white) == spec_trim_end(kept),
    decreases white.len(),
{
    if white.len() == 0 {
        assert(kept + white =~= kept);
    } else {
        let all = kept + white;
        assert(all.last() == white.last());
        assert(all.drop_last() =~= kept + white.drop_last());
        assert forall|i: int| 0 <= i < white.drop_last().len() implies spec_is_whitespace(
            #[trigger] white.drop_last()[i],
        ) by {
            assert(white.drop_last()[i] == white[i]);
        }
        lemma_trim_end_skips(kept, white.drop_last());
    }
}

/// Takes the white space off both ends of `s`.
pub fn trim(s: &str) -> (out: String)
    ensures
        out@ == spec_trim(s@),
{
    let mut out = String::new();
    let mut held = String::new();
    for c in it: s.chars()
        invariant
            it.seq() == s@,
            out@ + held@ == spec_trim_start(s@.take(it.index())),
            spec_all_whitespace(held@),
            out@.len() == 0 ==> held@.len() == 0,
            out@.len() > 0 ==> !spec_is_whitespace(out@.last()),
    {
        let ghost i = it.index();
        proof {
            assert(s@.take(i + 1) =~= s@.take(i).push(c));
            lemma_trim_start_push(s@.take(i), c);
        }
        let ghost kept = out@;
        let ghost white = held@;
        if is_whitespace(c) {
            if out.as_str().unicode_len() > 0 {
                held.push(c);
                assert(kept + white.push(c) =~= (kept + white).push(c));
            }
        } else {
            push_text(&mut out, held.as_str());
            out.push(c);
            held = String::new();
            assert((kept + white).push(c) + Seq::<char>::empty() =~= (kept + white).push(c));
        }
    }
    proof {
        assert(s@.take(s@.len() as int) =~= s@);
        lemma_trim_end_skips(out@, held@);
        assert(spec_trim_end(out@) == out@);
    }
    out
}

/// `s` without the run of `c` at its end.
pub open spec fn spec_strip_end(s: Seq<char>, c: char) -> Seq<char>
    decreases s.len(),
{
    if s.len() > 0 && s.last() == c {
        spec_strip_end(s.drop_last(), c)
    } else {
        s
    }
}

/// A run of `c` at the end of a text does not count for what is left of it
/// without such a run.
proof fn lemma_strip_end_run(kept: Seq<char>, run: Seq<char>, c: char)
    requires
        forall|i: int| 0 <= i < run.len() ==> run[i] == c,
    ensures
        spec_strip_end(kept + run, c) == spec_strip_end(kept, c),
    decreases run.len(),
{
    if run.len() == 0 {
        assert(kept + run =~= kept);
    } else {
        let all = kept + run;
        assert(all.last() == run.last());
        assert(all.drop_last() =~= kept + run.drop_last());
        lemma_strip_end_run(kept, run.drop_last(), c);
    }
}

/// Takes the run of `c` off the end of `s`.
pub fn strip_end(s: &str, c: char) -> (out: String)
    ensures
        out@ == spec_strip_end(s@, c),
{
    let mut out = String::new();
    let mut held = String::new();
    for d in it: s.chars()
        invariant
            it.seq() == s@,
            out@ + held@ == s@.take(it.index()),
            forall|i: int| 0 <= i < held@.len() ==> held@[i] == c,
            out@.len() > 0 ==> out@.last() != c,
    {
        let ghost i = it.index();
        let ghost kept = out@;
        let ghost run = held@;
        assert(s@.take(i + 1) =~= s@.take(i).push(d));
        if d == c {
            held.push(d);
            assert(kept + run.push(d) =~= (kept + run).push(d));
        } else {
            push_text(&mut out, held.as_str());
            out.push(d);
            held = String::new();
            assert((kept + run).push(d) + Seq::<char>::empty() =~= (kept + run).push(d));
        }
    }
    proof {
        assert(s@.take(s@.len() as int) =~= s@);
        lemma_strip_end_run(out@, held@, c);
    }
    out
}

/// The first character of `s`, if it has one.
pub fn first_char(s: &str) -> (first: Option<char>)
    ensures
        first == if s@.len() > 0 {
            Some(s@[0])
        } else {
            None
        },
{
    if s.unicode_len() > 0 {
        Some(s.get_char(0))
    } else {
        None
    }
}

/// The last character of `s`, if it has one.
pub fn last_char(s: &str) -> (last: Option<char>)
    ensures
        last == if s@.len() > 0 {
            Some(s@.last())
        } else {
            None
        },
{
    let length = s.unicode_len();
    if length > 0 {
        Some(s.get_char(length - 1))
    } else {
        None
    }
}

/// The lower-case form of an ASCII upper-case letter; every other character
/// is left as it is.
pub open spec fn spec_ascii_lower(c: char) -> char {
    if 'A' <= c && c <= 'Z' {
        ((c as u8) + 32) as char
    } else {
        c
    }
}

/// `s` with every ASCII upper-case letter in lower case.
pub open spec fn spec_ascii_lowercase(s: Seq<char>) -> Seq<char> {
    Seq::new(s.len(), |i: int| spec_ascii_lower(s[i]))
}

/// Puts every ASCII upper-case letter of `s` in lower case.
pub fn ascii_lowercase(s: &str) -> (out: String)
    ensures
        out@ == spec_ascii_lowercase(s@),
{
    let mut out = String::new();
    for c in it: s.chars()
        invariant
            it.seq() == s@,
            out@ == spec_ascii_lowercase(s@.take(it.index())),
    {
        let lower = if 'A' <= c && c <= 'Z' {
            ((c as u8) + 32) as char
        } else {
            c
        };
        out.push(lower);
    }
    out
}

/// Whether both texts are the same once the case of ASCII letters is set aside.
pub fn eq_ignore_ascii_case(a: &str, b: &str) -> (same: bool)
    ensures
        same == (spec_ascii_lowercase(a@) == spec_ascii_lowercase(b@)),
{
    let lower_a = ascii_lowercase(a);
    let lower_b = ascii_lowercase(b);
    is_word(lower_a.as_str(), lower_b.as_str())
}

/// Whether `a` and `b` are alike before the place `k`, and there `a` ends
/// while `b` goes on, or `a` has the lower byte.
pub open spec fn spec_lower_at(a: Seq<u8>, b: Seq<u8>, k: int) -> bool {
    &&& 0 <= k <= a.len()
    &&& k <= b.len()
    &&& forall|j: int| 0 <= j < k ==> a[j] == b[j]
    &&& (k == a.len() && k < b.len()) || (k < a.len() && k < b.len() && a[k] < b[k])
}

/// Whether `a` stands before `b` in the order of byte strings: at the first
/// place where they differ, `a` ends or has the lower byte.
pub open spec fn spec_bytes_before(a: Seq<u8>, b: Seq<u8>) -> bool {
    exists|k: int| spec_lower_at(a, b, k)
}

/// Whether `a` stands before `b` in the order of texts, which is the order
/// of their UTF-8 bytes.
pub open spec fn spec_text_before(a: Seq<char>, b: Seq<char>) -> bool {
    spec_bytes_before(encode_utf8(a), encode_utf8(b))
}

/// How one text stands to another in the order of texts.
#[derive(Clone, Copy, Debug, PartialEq, Eq, Structural)]
pub enum TextOrder {
    /// It stands before the other.
    Before,
    /// It is the other.
    Same,
    /// It stands after the other.
    After,
}

/// A byte string that stands before another is not that other, and does
/// not stand after it.
pub proof fn lemma_bytes_before_excludes(a: Seq<u8>, b: Seq<u8>)
    requires
        spec_bytes_before(a, b),
    ensures
        a != b,
        !spec_bytes_before(b, a),
{
    let k = choose|k: int| spec_lower_at(a, b, k);
    if a == b {
        assert(a[k] == b[k]);
    }
    if spec_bytes_before(b, a) {
        let m = choose|m: int| spec_lower_at(b, a, m);
        if m < k {
            assert(a[m] == b[m]);
        } else if k < m {
            assert(b[k] == a[k]);
        }
    }
}

/// The order of byte strings is transitive.
pub proof fn lemma_bytes_before_transitive(a: Seq<u8>, b: Seq<u8>, c: Seq<u8>)
    requires
        spec_bytes_before(a, b),
        spec_bytes_before(b, c),
    ensures
        spec_bytes_before(a, c),
{
    let k1 = choose|k: int| spec_lower_at(a, b, k);
    let k2 = choose|k: int| spec_lower_at(b, c, k);
    let k = if k1 <= k2 {
        k1
    } else {
        k2
    };
    assert forall|j: int| 0 <= j < k implies a[j] == c[j] by {
        assert(a[j] == b[j]);
        assert(b[j] == c[j]);
    }
    if k1 < k2 {
        assert(b[k1] == c[k1]);
    } else if k2 < k1 {
        assert(a[k2] == b[k2]);
    }
    assert(spec_lower_at(a, c, k));
}

/// Texts with the same UTF-8 bytes are the same text.
pub proof fn lemma_same_bytes_same_text(a: Seq<char>, b: Seq<char>)
    requires
        encode_utf8(a) == encode_utf8(b),
    ensures
        a == b,
{
    encode_utf8_decode_utf8(a);
    encode_utf8_decode_utf8(b);
}

/// A text that stands before another is not that other, and does not
/// stand after it.
pub proof fn lemma_text_before_excludes(a: Seq<char>, b: Seq<char>)
    requires
        spec_text_before(a, b),
    ensures
        a != b,
        !spec_text_before(b, a),
{
    lemma_bytes_before_excludes(encode_utf8(a), encode_utf8(b));
}

/// The order of texts is transitive.
pub proof fn lemma_text_before_transitive(a: Seq<char>, b: Seq<char>, c: Seq<char>)
    requires
        spec_text_before(a, b),
        spec_text_before(b, c),
    ensures
        spec_text_before(a, c),
{
    lemma_bytes_before_transitive(encode_utf8(a), encode_utf8(b), encode_utf8(c));
}

/// How `a` stands to `b` in the order of texts, which is the order in which
/// `str` compares: by the UTF-8 bytes.
pub fn text_order(a: &str, b: &str) -> (order: TextOrder)
    ensures
        match order {
            TextOrder::Before => spec_text_before(a@, b@),
            TextOrder::Same => a@ == b@,
            TextOrder::After => spec_text_before(b@, a@),
        },
{
    let x = a.as_bytes();
    let y = b.as_bytes();
    let mut i: usize = 0;
    while i < x.len() && i < y.len()
        invariant
            i <= x.len(),
            i <= y.len(),
            x@ == encode_utf8(a@),
            y@ == encode_utf8(b@),
            forall|j: int| 0 <= j < i ==> x@[j] == y@[j],
        decreases x.len() - i,
    {
        if x[i] < y[i] {
            assert(spec_lower_at(x@, y@, i as int));
            return TextOrder::Before;
        }
        if y[i] < x[i] {
            assert(spec_lower_at(y@, x@, i as int));
            return TextOrder::After;
        }
        i += 1;
    }
    if i < y.len() {
        assert(spec_lower_at(x@, y@, i as int));
        TextOrder::Before
    } else if i < x.len() {
        assert(spec_lower_at(y@, x@, i as int));
        TextOrder::After
    } else {
        proof {
            assert(x@ =~= y@);
            lemma_same_bytes_same_text(a@, b@);
        }
        TextOrder::Same
    }
}

/// Something that goes by a name.
pub trait Named {
    /// The name, as mathematics.
    spec fn spec_name(&self) -> Seq<char>;

    /// The name.
    fn name(&self) -> (name: &str)
        ensures
            name@ == self.spec_name(),
    ;
}

impl Named for String {
    open spec fn spec_name(&self) -> Seq<char> {
        self@
    }

    fn name(&self) -> (name: &str) {
        self.as_str()
    }
}

/// The names of `list`, in their order.
pub open spec fn spec_names<T: Named>(list: Seq<T>) -> Seq<Seq<char>> {
    Seq::new(list.len(), |i: int| list[i].spec_name())
}

/// `kept`, and after it those of `rest` that are new: not in `kept` and not
/// earlier in `rest`.
pub open spec fn spec_add_new(kept: Seq<Seq<char>>, rest: Seq<Seq<char>>) -> Seq<Seq<char>>
    decreases rest.len(),
{
    if rest.len() == 0 {
        kept
    } else if kept.contains(rest[0]) {
        spec_add_new(kept, rest.drop_first())
    } else {
        spec_add_new(kept.push(rest[0]), rest.drop_first())
    }
}

/// The names of `list` with each one kept where it stands first, and
/// dropped where it stands again.
pub open spec fn spec_without_repeats(list: Seq<Seq<char>>) -> Seq<Seq<char>> {
    spec_add_new(Seq::empty(), list)
}

/// Whether no name stands twice in `list`.
pub open spec fn spec_no_repeats(list: Seq<Seq<char>>) -> bool {
    forall|i: int, j: int| 0 <= i < j < list.len() ==> list[i] != list[j]
}

/// Adding what is new keeps a list without repeats without repeats, and
/// makes it hold what was held before and what was added.
pub proof fn lemma_add_new(kept: Seq<Seq<char>>, rest: Seq<Seq<char>>)
    requires
        spec_no_repeats(kept),
    ensures
        spec_no_repeats(spec_add_new(kept, rest)),
        forall|name: Seq<char>|
            spec_add_new(kept, rest).contains(name) <==> kept.contains(name) || rest.contains(name),
    decreases rest.len(),
{
    if rest.len() > 0 {
        let first = rest[0];
        let tail = rest.drop_first();
        let next = if kept.contains(first) {
            kept
        } else {
            kept.push(first)
        };
        if !kept.contains(first) {
            assert forall|i: int, j: int| 0 <= i < j < next.len() implies next[i] != next[j] by {
                if j == kept.len() {
                    assert(kept.contains(next[i]));
                }
            }
        }
        lemma_add_new(next, tail);
        assert forall|name: Seq<char>|
            spec_add_new(kept, rest).contains(name) <==> kept.contains(name) || rest.contains(
                name,
            ) by {
            if rest.contains(name) {
                let k = choose|k: int| 0 <= k < rest.len() && rest[k] == name;
                if k > 0 {
                    assert(tail[k - 1] == name);
                } else {
                    assert(next.contains(name)) by {
                        if !kept.contains(first) {
                            assert(next[kept.len() as int] == first);
                        }
                    }
                }
            }
            if tail.contains(name) {
                let k = choose|k: int| 0 <= k < tail.len() && tail[k] == name;
                assert(rest[k + 1] == name);
            }
            if next.contains(name) && !kept.contains(name) {
                let k = choose|k: int| 0 <= k < next.len() && next[k] == name;
                assert(k == kept.len());
                assert(rest[0] == name);
            }
            if kept.contains(name) {
                let k = choose|k: int| 0 <= k < kept.len() && kept[k] == name;
                assert(next[k] == name);
            }
        }
    }
}

/// A list without its repeats has no repeats, and holds what the list held.
pub proof fn lemma_without_repeats(list: Seq<Seq<char>>)
    ensures
        spec_no_repeats(spec_without_repeats(list)),
        forall|name: Seq<char>| spec_without_repeats(list).contains(name) <==> list.contains(name),
{
    lemma_add_new(Seq::empty(), list);
    assert forall|name: Seq<char>| spec_without_repeats(list).contains(name) <==> list.contains(
        name,
    ) by {
        assert(!Seq::<Seq<char>>::empty().contains(name));
    }
}

/// Whether one of `list` goes by `name`.
pub fn holds_name<T: Named>(list: &Vec<T>, name: &str) -> (held: bool)
    ensures
        held == spec_names(list@).contains(name@),
{
    let mut i: usize = 0;
    while i < list.len()
        invariant
            i <= list.len(),
            forall|j: int| 0 <= j < i ==> spec_names(list@)[j] != name@,
        decreases list.len() - i,
    {
        if is_word(list[i].name(), name) {
            assert(spec_names(list@)[i as int] == name@);
            return true;
        }
        i += 1;
    }
    false
}

/// Keeps each of `list` where its name stands first, and drops it where
/// the name stands again.
pub fn without_repeats<T: Named>(list: Vec<T>) -> (kept: Vec<T>)
    ensures
        spec_names(kept@) == spec_without_repeats(spec_names(list@)),
{
    let ghost all = spec_names(list@);
    let mut rest = list;
    let mut kept: Vec<T> = Vec::new();
    assert(spec_names(kept@) =~= Seq::empty());
    while rest.len() > 0
        invariant
            spec_add_new(spec_names(kept@), spec_names(rest@)) == spec_without_repeats(all),
        decreases rest.len(),
    {
        let ghost names_kept = spec_names(kept@);
        let ghost names_rest = spec_names(rest@);
        let item = rest.remove(0);
        assert(spec_names(rest@) =~= names_rest.drop_first());
        assert(item.spec_name() == names_rest[0]);
        if !holds_name(&kept, item.name()) {
            kept.push(item);
            assert(spec_names(kept@) =~= names_kept.push(names_rest[0]));
        }
    }
    kept
}

} // verus!
