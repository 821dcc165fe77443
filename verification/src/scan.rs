//! Small helpers on texts: comparing, and finding the first occurrence of a
//! character.

use vstd::prelude::*;

verus! {

/// Where `stop` first occurs in `text`; the length of `text` when it does not
/// occur.
pub open spec fn first_index(text: Seq<char>, stop: char) -> int
    decreases text.len(),
{
    if text.len() == 0 || text[0] == stop {
        0
    } else {
        1 + first_index(text.drop_first(), stop)
    }
}

/// A position that holds `stop`, with none before it, is the first
/// occurrence; so is the end of a text that does not hold `stop`.
pub proof fn lemma_first_index_at(text: Seq<char>, stop: char, k: int)
    requires
        0 <= k <= text.len(),
        forall|i: int| 0 <= i < k ==> #[trigger] text[i] != stop,
        k < text.len() ==> text[k] == stop,
    ensures
        first_index(text, stop) == k,
    decreases text.len(),
{
    if k == 0 {
    } else {
        assert(text[0] != stop);
        let rest = text.drop_first();
        assert forall|i: int| 0 <= i < k - 1 implies #[trigger] rest[i] != stop by {
            assert(rest[i] == text[i + 1]);
        }
        lemma_first_index_at(rest, stop, k - 1);
    }
}

/// Where `stop` first occurs in `chars[from..]`, as a position in `chars`;
/// the length of `chars` when it does not occur there.
pub fn find_from(chars: &Vec<char>, from: usize, stop: char) -> (r: usize)
    requires
        from <= chars.len(),
    ensures
        from <= r <= chars.len(),
        r - from == first_index(chars@.skip(from as int), stop),
{
    let n = chars.len();
    let ghost rest = chars@.skip(from as int);
    let mut end: usize = from;
    while end < n && chars[end] != stop
        invariant
            n == chars.len(),
            from <= end <= n,
            rest == chars@.skip(from as int),
            forall|i: int| 0 <= i < end - from ==> #[trigger] rest[i] != stop,
        decreases n - end,
    {
        end = end + 1;
    }
    proof {
        lemma_first_index_at(rest, stop, end - from);
    }
    end
}

/// Whether two texts hold the same characters.
pub fn same_text(a: &str, b: &str) -> (r: bool)
    ensures
        r == (a@ == b@),
{
    let x = a.to_owned();
    let y = b.to_owned();
    x == y
}

} // verus!
