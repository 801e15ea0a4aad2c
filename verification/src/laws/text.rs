//! What the text functions do, in terms of the characters that go in and come out.

use crate::text::{
    chars_of, decimal_of, is_blank, is_white_space, lowercased, same_chars, same_text,
    split_words, string_of, trim, trim_end, trim_start, trimmed, white_space, with_char_replaced, without, words,
};
use vstd::prelude::*;

verus! {

/// Whether a text has a character that is not white space.
pub open spec fn readable(text: Seq<char>) -> bool {
    exists|i: int| 0 <= i < text.len() && !white_space(#[trigger] text[i])
}

/// Whether `core` is the part of `text` from `lo` to `hi`, has no white space at
/// either end, and is surrounded by nothing but white space.
pub open spec fn is_core(text: Seq<char>, core: Seq<char>, lo: int, hi: int) -> bool {
    &&& 0 <= lo <= hi <= text.len()
    &&& core.len() == hi - lo
    &&& forall|i: int| 0 <= i < core.len() ==> #[trigger] core[i] == text[lo + i]
    &&& forall|i: int| 0 <= i < lo ==> white_space(#[trigger] text[i])
    &&& forall|i: int| hi <= i < text.len() ==> white_space(#[trigger] text[i])
    &&& core.len() > 0 ==> !white_space(core[0]) && !white_space(core[core.len() - 1])
}

proof fn lemma_trim_end_shape(s: Seq<char>)
    ensures
        trim_end(s).len() <= s.len(),
        trim_end(s) == s.take(trim_end(s).len() as int),
        forall|i: int| trim_end(s).len() <= i < s.len() ==> white_space(#[trigger] s[i]),
        trim_end(s).len() > 0 ==> !white_space(trim_end(s).last()),
    decreases s.len(),
{
    if s.len() > 0 && white_space(s.last()) {
        lemma_trim_end_shape(s.drop_last());
        let n = trim_end(s).len() as int;
        assert(s.drop_last().take(n) =~= s.take(n));
        assert forall|i: int| n <= i < s.len() implies white_space(#[trigger] s[i]) by {
            if i < s.len() - 1 {
                assert(s.drop_last()[i] == s[i]);
            }
        }
    } else {
        assert(s.take(s.len() as int) =~= s);
    }
}

proof fn lemma_trim_start_shape(s: Seq<char>)
    ensures
        trim_start(s).len() <= s.len(),
        trim_start(s) == s.skip(s.len() - trim_start(s).len()),
        forall|i: int| 0 <= i < s.len() - trim_start(s).len() ==> white_space(#[trigger] s[i]),
        trim_start(s).len() > 0 ==> !white_space(trim_start(s).first()),
    decreases s.len(),
{
    if s.len() > 0 && white_space(s.first()) {
        lemma_trim_start_shape(s.drop_first());
        let n = s.len() - trim_start(s).len();
        assert(s.drop_first().skip(n - 1) =~= s.skip(n));
        assert forall|i: int| 0 <= i < n implies white_space(#[trigger] s[i]) by {
            if i > 0 {
                assert(s.drop_first()[i - 1] == s[i]);
            }
        }
    } else {
        assert(s.skip(0) =~= s);
    }
}

/// Trimming cuts a text to the part between its first and its last character that
/// is not white space.
pub proof fn law_trim_finds_the_core(text: Seq<char>)
    ensures
        exists|lo: int, hi: int| is_core(text, trim(text), lo, hi),
        trim(text).len() > 0 <==> readable(text),
{
    lemma_trim_end_shape(text);
    let end = trim_end(text);
    lemma_trim_start_shape(end);
    let (lo, hi) = (end.len() - trim(text).len(), end.len() as int);
    assert forall|i: int| 0 <= i < lo implies white_space(#[trigger] text[i]) by {
        assert(end[i] == text[i]);
    }
    assert(trim(text).len() > 0 ==> trim(text).last() == end.last());
    assert(is_core(text, trim(text), lo, hi));
    if trim(text).len() > 0 {
        assert(!white_space(text[lo]));
    }
}

/// A text has only one core.
pub proof fn law_core_is_unique(
    text: Seq<char>,
    a: Seq<char>,
    b: Seq<char>,
    lo: int,
    hi: int,
    lo2: int,
    hi2: int,
)
    requires
        is_core(text, a, lo, hi),
        is_core(text, b, lo2, hi2),
    ensures
        a == b,
{
    if a.len() > 0 {
        assert(!white_space(text[lo]) && !white_space(text[hi - 1]));
    }
    if b.len() > 0 {
        assert(!white_space(text[lo2]) && !white_space(text[hi2 - 1]));
    }
    if a.len() > 0 || b.len() > 0 {
        assert(lo == lo2 && hi == hi2);
    }
    assert(a =~= b);
}

/// What `trimmed` returns is the core of what it is given.
pub proof fn law_trimmed(list: Vec<char>, out: Vec<char>)
    requires
        call_ensures(trimmed, (&list,), out),
    ensures
        exists|lo: int, hi: int| is_core(list@, out@, lo, hi),
        out@.len() > 0 <==> readable(list@),
{
    law_trim_finds_the_core(list@);
}

/// A text is blank if it has no character but white space.
pub proof fn law_is_blank(list: Vec<char>, blank: bool)
    requires
        call_ensures(is_blank, (&list,), blank),
    ensures
        blank <==> !readable(list@),
{
    law_trim_finds_the_core(list@);
}

/// Words are found on either side of a white-space character independently of each
/// other.
pub proof fn law_words_on_both_sides(a: Seq<char>, c: char, b: Seq<char>)
    requires
        white_space(c),
    ensures
        words(a.push(c) + b) == words(a) + words(b),
    decreases b.len(),
{
    let whole = a.push(c) + b;
    if b.len() == 0 {
        assert(whole =~= a.push(c));
        assert(a.push(c).drop_last() =~= a);
        assert(words(a) + words(b) =~= words(a));
    } else {
        let before = b.drop_last();
        law_words_on_both_sides(a, c, before);
        assert(whole.drop_last() =~= a.push(c) + before);
        let x = b.last();
        let w = words(a);
        if !white_space(x) {
            if before.len() == 0 {
                assert(words(before) =~= Seq::empty());
                assert((w + words(before)).push(seq![x]) =~= w + words(before).push(seq![x]));
            } else if white_space(before.last()) {
                assert(whole.drop_last().last() == before.last());
                assert((w + words(before)).push(seq![x]) =~= w + words(before).push(seq![x]));
            } else {
                assert(whole.drop_last().last() == before.last());
                lemma_words_end_open(before);
                let v = words(before);
                assert((w + v).last() == v.last());
                assert((w + v).drop_last().push(v.last().push(x)) =~= w + v.drop_last().push(
                    v.last().push(x),
                ));
            }
        }
    }
}

proof fn lemma_words_end_open(s: Seq<char>)
    requires
        s.len() > 0,
        !white_space(s.last()),
    ensures
        words(s).len() > 0,
{
}

/// A text without white space is one word.
pub proof fn law_one_word(s: Seq<char>)
    requires
        s.len() > 0,
        !exists|i: int| 0 <= i < s.len() && white_space(#[trigger] s[i]),
    ensures
        words(s) == seq![s],
    decreases s.len(),
{
    let before = s.drop_last();
    assert(!white_space(s[s.len() - 1]));
    if before.len() == 0 {
        assert(words(before) =~= Seq::empty());
        assert(seq![s.last()] =~= s);
        assert(words(s) =~= seq![s]);
    } else {
        assert forall|i: int| 0 <= i < before.len() implies !white_space(#[trigger] before[i]) by {
            assert(before[i] == s[i]);
        }
        law_one_word(before);
        assert(before.last() == s[s.len() - 2]);
        assert(before.push(s.last()) =~= s);
        assert(words(s) =~= seq![s]);
    }
}

/// Splitting a text at white space gives the words of its parts; a part without
/// white space is one word, an empty one is none.
pub proof fn law_split_words(
    whole: Vec<char>,
    a: Vec<char>,
    c: char,
    b: Vec<char>,
    all: Vec<Vec<char>>,
    left: Vec<Vec<char>>,
    right: Vec<Vec<char>>,
)
    requires
        whole@ == a@.push(c) + b@,
        white_space(c),
        call_ensures(split_words, (&whole,), all),
        call_ensures(split_words, (&a,), left),
        call_ensures(split_words, (&b,), right),
    ensures
        all@.map_values(|w: Vec<char>| w@) == left@.map_values(|w: Vec<char>| w@)
            + right@.map_values(|w: Vec<char>| w@),
        b@.len() == 0 ==> right@.len() == 0,
        b@.len() > 0 && !(exists|i: int| 0 <= i < b@.len() && white_space(#[trigger] b@[i])) ==> right@.len()
            == 1 && right@[0]@ == b@,
{
    law_words_on_both_sides(a@, c, b@);
    assert(all@.map_values(|w: Vec<char>| w@) =~= crate::text::contents(all@));
    assert(left@.map_values(|w: Vec<char>| w@) =~= crate::text::contents(left@));
    assert(right@.map_values(|w: Vec<char>| w@) =~= crate::text::contents(right@));
    assert(crate::text::contents(right@).len() == right@.len());
    if b@.len() > 0 && !(exists|i: int| 0 <= i < b@.len() && white_space(#[trigger] b@[i])) {
        law_one_word(b@);
        assert(crate::text::contents(right@)[0] == right@[0]@);
    }
}

/// Replacing a character changes that character, wherever it stands, and no other.
pub proof fn law_with_char_replaced(list: Vec<char>, from: char, to: char, out: Vec<char>)
    requires
        call_ensures(with_char_replaced, (&list, from, to), out),
    ensures
        out@.len() == list@.len(),
        forall|i: int|
            0 <= i < list@.len() ==> #[trigger] out@[i] == if list@[i] == from {
                to
            } else {
                list@[i]
            },
{
}

/// A pattern at the front of a text is cut out.
pub proof fn law_without_cuts_the_pattern(
    whole: Vec<char>,
    rest: Vec<char>,
    pattern: Vec<char>,
    out: Vec<char>,
    rest_out: Vec<char>,
)
    requires
        pattern@.len() > 0,
        whole@ == pattern@ + rest@,
        call_ensures(without, (&whole, &pattern), out),
        call_ensures(without, (&rest, &pattern), rest_out),
    ensures
        out@ == rest_out@,
{
    assert(whole@.take(pattern@.len() as int) =~= pattern@);
    assert(whole@.skip(pattern@.len() as int) =~= rest@);
}

/// A character at which the pattern does not begin is kept.
pub proof fn law_without_keeps_the_rest(
    whole: Vec<char>,
    rest: Vec<char>,
    pattern: Vec<char>,
    out: Vec<char>,
    rest_out: Vec<char>,
)
    requires
        pattern@.len() > 0,
        whole@.len() == rest@.len() + 1,
        whole@.skip(1) == rest@,
        !pattern@.is_prefix_of(whole@),
        call_ensures(without, (&whole, &pattern), out),
        call_ensures(without, (&rest, &pattern), rest_out),
    ensures
        out@ == seq![whole@[0]] + rest_out@,
{
    lemma_remove_step(whole@, pattern@);
}

/// A character at which the pattern does not begin is kept.
pub proof fn lemma_remove_step(s: Seq<char>, pattern: Seq<char>)
    requires
        pattern.len() > 0,
        s.len() > 0,
        !pattern.is_prefix_of(s),
    ensures
        crate::text::remove_all(s, pattern) == seq![s[0]] + crate::text::remove_all(
            s.skip(1),
            pattern,
        ),
{
    if s.len() < pattern.len() {
        assert(seq![s[0]] + s.skip(1) =~= s);
    } else if s.take(pattern.len() as int) == pattern {
        assert forall|i: int| 0 <= i < pattern.len() implies pattern[i] == s[i] by {
            assert(s.take(pattern.len() as int)[i] == s[i]);
        }
        assert(pattern =~= s.subrange(0, pattern.len() as int));
    }
}

/// Lower case changes `A` to `Z` and nothing else.
pub proof fn law_lowercased(list: Vec<char>, out: Vec<char>)
    requires
        call_ensures(lowercased, (&list,), out),
    ensures
        out@.len() == list@.len(),
        forall|i: int|
            0 <= i < list@.len() ==> #[trigger] out@[i] as u32 == if 65 <= list@[i] as u32 <= 90 {
                list@[i] as u32 + 32
            } else {
                list@[i] as int
            },
{
    assert forall|i: int| 0 <= i < list@.len() implies #[trigger] out@[i] as u32 == if 65
        <= list@[i] as u32 <= 90 {
        list@[i] as u32 + 32
    } else {
        list@[i] as int
    } by {
        assert(out@[i] == crate::text::lower(list@[i]));
    }
}

/// A number ends with its last decimal digit, after the digits of its tenth part.
pub proof fn law_decimal_of(n: usize, text: String, tenth: String)
    requires
        call_ensures(decimal_of, (n,), text),
        call_ensures(decimal_of, ((n / 10) as usize,), tenth),
    ensures
        text@.len() > 0,
        text@.last() as u32 == 48 + n % 10,
        n < 10 ==> text@.len() == 1,
        n >= 10 ==> text@.drop_last() == tenth@,
{
    if n >= 10 {
        assert(text@.drop_last() =~= tenth@);
    }
}

/// Texts are the same if they have the same characters; characters and strings are
/// turned into each other without a change.
pub proof fn law_characters_are_kept(
    a: &str,
    b: &str,
    same: bool,
    list: Vec<char>,
    text: String,
)
    requires
        call_ensures(same_text, (a, b), same),
        call_ensures(chars_of, (a,), list),
        call_ensures(string_of, (&list,), text),
    ensures
        same <==> a@ == b@,
        text@ == a@,
{
}

/// The code points of the characters that count as white space.
pub open spec fn blanks() -> Seq<u32> {
    seq![
        0x09u32, 0x0a, 0x0b, 0x0c, 0x0d, 0x20, 0x85, 0xa0, 0x1680, 0x2000, 0x2001, 0x2002,
        0x2003, 0x2004, 0x2005, 0x2006, 0x2007, 0x2008, 0x2009, 0x200a, 0x2028, 0x2029, 0x202f,
        0x205f, 0x3000,
    ]
}

/// Twenty-five characters are white space; no letter, digit or punctuation mark is.
pub proof fn law_white_space(c: char, blank: bool)
    requires
        call_ensures(is_white_space, (c,), blank),
    ensures
        blank == white_space(c),
        blank <==> blanks().contains(c as u32),
        0x21 <= c as u32 <= 0x7e ==> !blank,
        c == ' ' || c == '\t' || c == '\n' || c == '\r' ==> blank,
{
    let all = blanks();
    let n = c as u32;
    assert(all.len() == 25);
    assert(all[0] == 0x09 && all[1] == 0x0a && all[2] == 0x0b && all[3] == 0x0c && all[4] == 0x0d);
    assert(all[5] == 0x20 && all[6] == 0x85 && all[7] == 0xa0 && all[8] == 0x1680);
    assert(all[9] == 0x2000 && all[10] == 0x2001 && all[11] == 0x2002 && all[12] == 0x2003);
    assert(all[13] == 0x2004 && all[14] == 0x2005 && all[15] == 0x2006 && all[16] == 0x2007);
    assert(all[17] == 0x2008 && all[18] == 0x2009 && all[19] == 0x200a && all[20] == 0x2028);
    assert(all[21] == 0x2029 && all[22] == 0x202f && all[23] == 0x205f && all[24] == 0x3000);
    if blank {
        assert(exists|i: int| 0 <= i < all.len() && all[i] == n);
    }
}

/// Texts are the same exactly if they have the same characters in the same places.
pub proof fn law_same_chars(a: Vec<char>, b: Vec<char>, same: bool)
    requires
        call_ensures(same_chars, (&a, &b), same),
    ensures
        same <==> a@.len() == b@.len() && forall|i: int|
            0 <= i < a@.len() ==> #[trigger] a@[i] == b@[i],
{
    if a@.len() == b@.len() && forall|i: int| 0 <= i < a@.len() ==> #[trigger] a@[i] == b@[i] {
        assert(a@ =~= b@);
    }
}

} // verus!
