//! Small tools of the demo program.

use crate::sample::{silent_frame, SILENCE};
use crate::text::{chars_of, contents, lowercase, lowercased, same_chars, split_words, words};
use vstd::prelude::*;

verus! {

/// Turns a frame into silence.
pub fn mute_buffer(buffer: &mut [u32])
    ensures
        final(buffer)@ == silent_frame(old(buffer)@.len()),
{
    let mut i: usize = 0;
    while i < buffer.len()
        invariant
            i <= buffer@.len() == old(buffer)@.len(),
            forall|j: int| 0 <= j < i ==> buffer@[j] == SILENCE,
        decreases buffer@.len() - i,
    {
        buffer[i] = SILENCE;
        i += 1;
    }
    assert(buffer@ =~= silent_frame(old(buffer)@.len()));
}

/// The samples in 20 ms at a rate in Hz, rounded to the nearest whole number.
pub fn _frame_size(sample_rate: u32) -> (samples: usize)
    ensures
        samples == (sample_rate * 20 + 500) / 1000,
{
    let scaled: u64 = sample_rate as u64 * 20 + 500;
    (scaled / 1000) as usize
}

/// Whether a word occurs in a list, regardless of ASCII case.
pub open spec fn occurs(word: Seq<char>, list: Seq<Seq<char>>) -> bool {
    exists|i: int| 0 <= i < list.len() && lowercase(#[trigger] list[i]) == lowercase(word)
}

/// The words of `b` that occur in `a`, in lower case, in order and with
/// repetitions.
pub open spec fn shared(a: Seq<Seq<char>>, b: Seq<Seq<char>>) -> Seq<Seq<char>>
    decreases b.len(),
{
    if b.len() == 0 {
        Seq::empty()
    } else if occurs(b.last(), a) {
        shared(a, b.drop_last()).push(lowercase(b.last()))
    } else {
        shared(a, b.drop_last())
    }
}

/// The first `limit` entries of a list, or all if there are fewer.
pub open spec fn first_of(list: Seq<Seq<char>>, limit: nat) -> Seq<Seq<char>> {
    if list.len() <= limit {
        list
    } else {
        list.take(limit as int)
    }
}

/// The first four words of `b` that occur in `a`, regardless of ASCII case, in lower
/// case and with repetitions.
pub fn _shared_words(a: &str, b: &str) -> (found: Vec<Vec<char>>)
    ensures
        contents(found@) == first_of(shared(words(a@), words(b@)), 4),
{
    let wa = split_words(&chars_of(a));
    let wb = split_words(&chars_of(b));
    let ghost sa = words(a@);
    let ghost sb = words(b@);
    let mut found: Vec<Vec<char>> = Vec::new();
    let mut i: usize = 0;
    assert(sb.take(0) =~= Seq::empty());
    assert(contents(found@) =~= Seq::empty());
    while i < wb.len()
        invariant
            i <= wb@.len(),
            sa == words(a@),
            sb == words(b@),
            contents(wa@) == sa,
            contents(wb@) == sb,
            contents(found@) == shared(sa, sb.take(i as int)),
            found@.len() <= 3,
        decreases wb@.len() - i,
    {
        assert(sb.take(i + 1).drop_last() =~= sb.take(i as int));
        assert(sb[i as int] == wb@[i as int]@);
        if is_among(&wb[i], &wa) {
            let ghost before = found@;
            found.push(lowercased(&wb[i]));
            assert(contents(found@) =~= contents(before).push(lowercase(sb[i as int])));
            if found.len() > 3 {
                proof {
                    lemma_shared_prefix(sa, sb, (i + 1) as nat);
                    assert(contents(found@).len() == found@.len());
                    assert(first_of(shared(sa, sb), 4) =~= contents(found@));
                }
                return found;
            }
        }
        i += 1;
    }
    assert(sb.take(sb.len() as int) =~= sb);
    assert(contents(found@).len() == found@.len());
    found
}

/// Whether more than three words of `b` occur in `a`, regardless of ASCII case and
/// with repetitions counted.
pub fn _share_more_than_three(a: &str, b: &str) -> (yes: bool)
    ensures
        yes == (shared(words(a@), words(b@)).len() > 3),
{
    let found = _shared_words(a, b);
    assert(contents(found@).len() == found@.len());
    found.len() > 3
}

/// Whether a word occurs in a list, regardless of ASCII case.
fn is_among(word: &Vec<char>, list: &Vec<Vec<char>>) -> (found: bool)
    ensures
        found == occurs(word@, contents(list@)),
{
    let target = lowercased(word);
    let mut i: usize = 0;
    while i < list.len()
        invariant
            i <= list@.len(),
            target@ == lowercase(word@),
            forall|j: int|
                0 <= j < i ==> lowercase(#[trigger] contents(list@)[j]) != lowercase(word@),
        decreases list@.len() - i,
    {
        assert(contents(list@)[i as int] == list@[i as int]@);
        if same_chars(&lowercased(&list[i]), &target) {
            return true;
        }
        i += 1;
    }
    false
}

/// Looking at more words keeps those found so far.
proof fn lemma_shared_prefix(a: Seq<Seq<char>>, b: Seq<Seq<char>>, n: nat)
    requires
        n <= b.len(),
    ensures
        shared(a, b.take(n as int)).is_prefix_of(shared(a, b)),
    decreases b.len(),
{
    if n == b.len() {
        assert(b.take(n as int) =~= b);
    } else {
        assert(b.drop_last().take(n as int) =~= b.take(n as int));
        lemma_shared_prefix(a, b.drop_last(), n);
    }
}

} // verus!
