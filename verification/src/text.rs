//! Plain-text helpers shared by the transcription backends.
//!
//! Every function is specified over `Seq<char>`, the view of a string.

use vstd::prelude::*;

verus! {

/// Appends one character, as the standard library documents for
/// `String::push`: the old contents followed by `ch`.
pub assume_specification[ String::push ](s: &mut String, ch: char)
    ensures
        final(s)@ == old(s)@.push(ch),
;

/// The Unicode `White_Space` property, the notion of blank used for trimming
/// and for splitting text into words.
pub open spec fn white_space(c: char) -> bool {
    let n = c as u32;
    ||| 0x09 <= n <= 0x0d
    ||| n == 0x20
    ||| n == 0x85
    ||| n == 0xa0
    ||| n == 0x1680
    ||| 0x2000 <= n <= 0x200a
    ||| n == 0x2028
    ||| n == 0x2029
    ||| n == 0x202f
    ||| n == 0x205f
    ||| n == 0x3000
}

/// `s` without its trailing white space.
pub open spec fn trim_end(s: Seq<char>) -> Seq<char>
    decreases s.len(),
{
    if s.len() > 0 && white_space(s.last()) {
        trim_end(s.drop_last())
    } else {
        s
    }
}

/// `s` without its leading white space.
pub open spec fn trim_start(s: Seq<char>) -> Seq<char>
    decreases s.len(),
{
    if s.len() > 0 && white_space(s.first()) {
        trim_start(s.drop_first())
    } else {
        s
    }
}

/// `s` without white space at either end.
pub open spec fn trim(s: Seq<char>) -> Seq<char> {
    trim_start(trim_end(s))
}

/// The maximal runs of non-blank characters of `s`, in order.
pub open spec fn words(s: Seq<char>) -> Seq<Seq<char>>
    decreases s.len(),
{
    if s.len() == 0 {
        Seq::empty()
    } else {
        let before = s.drop_last();
        let c = s.last();
        if white_space(c) {
            words(before)
        } else if before.len() == 0 || white_space(before.last()) {
            words(before).push(seq![c])
        } else {
            words(before).drop_last().push(words(before).last().push(c))
        }
    }
}

/// `s` with every occurrence of `from` replaced by `to`.
pub open spec fn replace_char(s: Seq<char>, from: char, to: char) -> Seq<char> {
    s.map_values(|c: char| if c == from { to } else { c })
}

/// `s` with the occurrences of `pattern` cut out, taken left to right and
/// without overlap.
pub open spec fn remove_all(s: Seq<char>, pattern: Seq<char>) -> Seq<char>
    decreases s.len(),
{
    if pattern.len() == 0 || s.len() < pattern.len() {
        s
    } else if s.take(pattern.len() as int) == pattern {
        remove_all(s.skip(pattern.len() as int), pattern)
    } else {
        seq![s[0]] + remove_all(s.skip(1), pattern)
    }
}

/// One character with `A`..`Z` mapped to `a`..`z`.
pub open spec fn lower(c: char) -> char {
    if 'A' <= c <= 'Z' {
        ((c as u8 + 32) as u8) as char
    } else {
        c
    }
}

/// `s` with every ASCII capital in lower case.
pub open spec fn lowercase(s: Seq<char>) -> Seq<char> {
    s.map_values(|c: char| lower(c))
}

/// The contents of a list of character vectors.
pub open spec fn contents(list: Seq<Vec<char>>) -> Seq<Seq<char>> {
    list.map_values(|w: Vec<char>| w@)
}

/// The decimal digits of `n`, most significant first, without leading zeros.
pub open spec fn decimal(n: nat) -> Seq<char>
    decreases n,
{
    if n < 10 {
        seq![digit(n)]
    } else {
        decimal(n / 10).push(digit(n % 10))
    }
}

/// The character of one decimal digit.
pub open spec fn digit(n: nat) -> char {
    (48 + n) as char
}

/// Decides the Unicode `White_Space` property.
pub fn is_white_space(c: char) -> (blank: bool)
    ensures
        blank == white_space(c),
{
    let n: u32 = c as u32;
    (0x09 <= n && n <= 0x0d) || n == 0x20 || n == 0x85 || n == 0xa0 || n == 0x1680 || (0x2000 <= n
        && n <= 0x200a) || n == 0x2028 || n == 0x2029 || n == 0x202f || n == 0x205f || n == 0x3000
}

/// The characters of a string.
pub fn chars_of(text: &str) -> (list: Vec<char>)
    ensures
        list@ == text@,
{
    let mut list: Vec<char> = Vec::new();
    for c in it: text.chars()
        invariant
            list@ == text@.take(it.index() as int),
            it.seq() == text@,
    {
        list.push(c);
        assert(text@.take(it.index() + 1) =~= text@.take(it.index() as int).push(c));
    }
    assert(text@.take(text@.len() as int) =~= text@);
    list
}

/// The string made of the given characters.
pub fn string_of(list: &Vec<char>) -> (text: String)
    ensures
        text@ == list@,
{
    let mut text = String::new();
    let mut i: usize = 0;
    while i < list.len()
        invariant
            i <= list.len(),
            text@ == list@.take(i as int),
        decreases list.len() - i,
    {
        text.push(list[i]);
        assert(list@.take(i + 1) =~= list@.take(i as int).push(list@[i as int]));
        i += 1;
    }
    assert(list@.take(list@.len() as int) =~= list@);
    text
}

/// Whether two character vectors hold the same characters.
pub fn same_chars(a: &Vec<char>, b: &Vec<char>) -> (same: bool)
    ensures
        same == (a@ == b@),
{
    if a.len() != b.len() {
        return false;
    }
    let mut i: usize = 0;
    while i < a.len()
        invariant
            i <= a.len(),
            a.len() == b.len(),
            a@.take(i as int) == b@.take(i as int),
        decreases a.len() - i,
    {
        if a[i] != b[i] {
            assert(a@ != b@);
            return false;
        }
        assert(a@.take(i + 1) =~= a@.take(i as int).push(a@[i as int]));
        assert(b@.take(i + 1) =~= b@.take(i as int).push(b@[i as int]));
        i += 1;
    }
    assert(a@.take(a@.len() as int) =~= a@);
    assert(b@.take(b@.len() as int) =~= b@);
    true
}

/// Whether two strings hold the same characters.
pub fn same_text(a: &str, b: &str) -> (same: bool)
    ensures
        same == (a@ == b@),
{
    same_chars(&chars_of(a), &chars_of(b))
}

/// The characters of `list` without white space at either end.
pub fn trimmed(list: &Vec<char>) -> (out: Vec<char>)
    ensures
        out@ == trim(list@),
{
    let mut hi: usize = list.len();
    assert(list@.take(hi as int) =~= list@);
    while hi > 0 && is_white_space(list[hi - 1])
        invariant
            hi <= list.len(),
            trim_end(list@) == trim_end(list@.take(hi as int)),
        decreases hi,
    {
        assert(list@.take(hi as int).drop_last() =~= list@.take(hi - 1));
        hi -= 1;
    }
    assert(trim_end(list@) == list@.take(hi as int));
    let mut lo: usize = 0;
    assert(list@.subrange(0, hi as int) =~= list@.take(hi as int));
    while lo < hi && is_white_space(list[lo])
        invariant
            lo <= hi <= list.len(),
            trim(list@) == trim_start(list@.subrange(lo as int, hi as int)),
        decreases hi - lo,
    {
        assert(list@.subrange(lo as int, hi as int).drop_first() =~= list@.subrange(
            lo + 1,
            hi as int,
        ));
        lo += 1;
    }
    let mut out: Vec<char> = Vec::new();
    let mut i: usize = lo;
    while i < hi
        invariant
            lo <= i <= hi <= list.len(),
            out@ == list@.subrange(lo as int, i as int),
        decreases hi - i,
    {
        out.push(list[i]);
        assert(list@.subrange(lo as int, i + 1) =~= list@.subrange(lo as int, i as int).push(
            list@[i as int],
        ));
        i += 1;
    }
    out
}

/// Whether `list` holds nothing but white space.
pub fn is_blank(list: &Vec<char>) -> (blank: bool)
    ensures
        blank == (trim(list@).len() == 0),
{
    trimmed(list).len() == 0
}

/// The words of `list`, in order.
pub fn split_words(list: &Vec<char>) -> (out: Vec<Vec<char>>)
    ensures
        contents(out@) == words(list@),
{
    let mut out: Vec<Vec<char>> = Vec::new();
    let mut current: Vec<char> = Vec::new();
    let mut i: usize = 0;
    while i < list.len()
        invariant
            i <= list.len(),
            current@.len() > 0 <==> (i > 0 && !white_space(list@[i - 1])),
            words(list@.take(i as int)) == if current@.len() == 0 {
                contents(out@)
            } else {
                contents(out@).push(current@)
            },
        decreases list.len() - i,
    {
        let c = list[i];
        let ghost before = list@.take(i as int);
        assert(list@.take(i + 1).drop_last() =~= before);
        assert(before.len() > 0 ==> before.last() == list@[i - 1]);
        if is_white_space(c) {
            if current.len() > 0 {
                let ghost done = current@;
                let ghost earlier = out@;
                out.push(current);
                current = Vec::new();
                assert(contents(out@) =~= contents(earlier).push(done));
            }
        } else {
            let ghost begun = current@;
            current.push(c);
            assert(begun.len() == 0 ==> current@ =~= seq![c]);
            assert(contents(out@).push(begun).drop_last() =~= contents(out@));
        }
        i += 1;
    }
    assert(list@.take(list@.len() as int) =~= list@);
    if current.len() > 0 {
        let ghost done = current@;
        let ghost earlier = out@;
        out.push(current);
        assert(contents(out@) =~= contents(earlier).push(done));
    }
    out
}

/// `list` with every occurrence of `from` replaced by `to`.
pub fn with_char_replaced(list: &Vec<char>, from: char, to: char) -> (out: Vec<char>)
    ensures
        out@ == replace_char(list@, from, to),
{
    let mut out: Vec<char> = Vec::new();
    let mut i: usize = 0;
    while i < list.len()
        invariant
            i <= list.len(),
            out@ == replace_char(list@.take(i as int), from, to),
        decreases list.len() - i,
    {
        let c = list[i];
        if c == from {
            out.push(to);
        } else {
            out.push(c);
        }
        assert(list@.take(i + 1) =~= list@.take(i as int).push(c));
        assert(replace_char(list@.take(i + 1), from, to) =~= replace_char(
            list@.take(i as int),
            from,
            to,
        ).push(if c == from { to } else { c }));
        i += 1;
    }
    assert(list@.take(list@.len() as int) =~= list@);
    out
}

/// Whether `pattern` occurs in `list` at index `at`.
fn occurs_at(list: &Vec<char>, at: usize, pattern: &Vec<char>) -> (found: bool)
    requires
        at <= list@.len(),
        pattern@.len() <= list@.len() - at,
    ensures
        found == (list@.skip(at as int).take(pattern@.len() as int) == pattern@),
{
    let ghost here = list@.skip(at as int).take(pattern@.len() as int);
    let mut j: usize = 0;
    while j < pattern.len()
        invariant
            j <= pattern.len(),
            at + pattern@.len() <= list.len(),
            here == list@.skip(at as int).take(pattern@.len() as int),
            forall|k: int| 0 <= k < j ==> here[k] == pattern@[k],
        decreases pattern.len() - j,
    {
        if list[at + j] != pattern[j] {
            assert(here[j as int] != pattern@[j as int]);
            return false;
        }
        j += 1;
    }
    assert(here =~= pattern@);
    true
}

/// `list` with the occurrences of `pattern` cut out.
pub fn without(list: &Vec<char>, pattern: &Vec<char>) -> (out: Vec<char>)
    requires
        pattern@.len() > 0,
    ensures
        out@ == remove_all(list@, pattern@),
{
    let mut out: Vec<char> = Vec::new();
    let mut i: usize = 0;
    assert(list@.skip(0) =~= list@);
    assert(out@ + remove_all(list@.skip(0), pattern@) =~= remove_all(list@, pattern@));
    while i < list.len() && pattern.len() <= list.len() - i
        invariant
            i <= list.len(),
            pattern@.len() > 0,
            out@ + remove_all(list@.skip(i as int), pattern@) == remove_all(list@, pattern@),
        decreases list.len() - i,
    {
        let ghost rest = list@.skip(i as int);
        if occurs_at(list, i, pattern) {
            assert(rest.skip(pattern@.len() as int) =~= list@.skip(i + pattern@.len()));
            i += pattern.len();
        } else {
            let ghost kept = out@;
            out.push(list[i]);
            assert(rest.skip(1) =~= list@.skip(i + 1));
            assert(out@ + remove_all(list@.skip(i + 1), pattern@) =~= kept + (seq![rest[0]]
                + remove_all(rest.skip(1), pattern@)));
            i += 1;
        }
    }
    while i < list.len()
        invariant
            i <= list.len(),
            list@.len() - i < pattern@.len() || list@.len() == i,
            pattern@.len() > 0,
            out@ + list@.skip(i as int) == remove_all(list@, pattern@),
        decreases list.len() - i,
    {
        let ghost kept = out@;
        out.push(list[i]);
        assert(out@ + list@.skip(i + 1) =~= kept + list@.skip(i as int));
        i += 1;
    }
    assert(out@ + list@.skip(i as int) =~= out@);
    out
}

/// `list` with every ASCII capital in lower case.
pub fn lowercased(list: &Vec<char>) -> (out: Vec<char>)
    ensures
        out@ == lowercase(list@),
{
    let mut out: Vec<char> = Vec::new();
    let mut i: usize = 0;
    while i < list.len()
        invariant
            i <= list.len(),
            out@ == lowercase(list@.take(i as int)),
        decreases list.len() - i,
    {
        let c = list[i];
        if 'A' <= c && c <= 'Z' {
            out.push((c as u8 + 32) as char);
        } else {
            out.push(c);
        }
        assert(list@.take(i + 1) =~= list@.take(i as int).push(c));
        assert(lowercase(list@.take(i + 1)) =~= lowercase(list@.take(i as int)).push(lower(c)));
        i += 1;
    }
    assert(list@.take(list@.len() as int) =~= list@);
    out
}

/// Writes `n` in decimal.
pub fn decimal_of(n: usize) -> (text: String)
    ensures
        text@ == decimal(n as nat),
    decreases n,
{
    let last: u8 = 48 + (n % 10) as u8;
    let mut text = if n < 10 {
        String::new()
    } else {
        decimal_of(n / 10)
    };
    text.push(last as char);
    assert(n < 10 ==> text@ =~= decimal(n as nat));
    text
}

/// Trimming leaves no white space at either end.
pub proof fn lemma_trim_ends(s: Seq<char>)
    ensures
        trim(s).len() > 0 ==> !white_space(trim(s).first()) && !white_space(trim(s).last()),
{
    lemma_trim_end_last(s);
    lemma_trim_start_first(trim_end(s));
    lemma_trim_start_keeps_last(trim_end(s));
}

proof fn lemma_trim_end_last(s: Seq<char>)
    ensures
        trim_end(s).len() > 0 ==> !white_space(trim_end(s).last()),
    decreases s.len(),
{
    if s.len() > 0 && white_space(s.last()) {
        lemma_trim_end_last(s.drop_last());
    }
}

proof fn lemma_trim_start_first(s: Seq<char>)
    ensures
        trim_start(s).len() > 0 ==> !white_space(trim_start(s).first()),
    decreases s.len(),
{
    if s.len() > 0 && white_space(s.first()) {
        lemma_trim_start_first(s.drop_first());
    }
}

proof fn lemma_trim_start_keeps_last(s: Seq<char>)
    ensures
        trim_start(s).len() > 0 ==> trim_start(s).last() == s.last(),
    decreases s.len(),
{
    if s.len() > 0 && white_space(s.first()) {
        lemma_trim_start_keeps_last(s.drop_first());
        if s.drop_first().len() > 0 {
            assert(s.drop_first().last() == s.last());
        }
    }
}

} // verus!
