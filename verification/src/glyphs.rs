//! The glyph catalog and the strings drawn from it.

use crate::chance::random_range;
use vstd::prelude::*;

verus! {

/// The number of catalog entries.
pub const CATALOG_SIZE: usize = 15;

/// The catalog: fifteen ways to write the letter A, some of them with
/// combining marks.
pub const CHAR_SET: [&'static str; CATALOG_SIZE] = [
    "A\u{335}\u{326}\u{326}\u{313}\u{34c}\u{357}\u{35b}\u{315}",
    "A",
    "\u{20b3}",
    "\u{2591}A\u{2591}",
    "A\u{489}",
    "\u{23a}",
    "A\u{337}",
    "A\u{332}",
    "A\u{333}",
    "A\u{33e}",
    "A\u{34e}",
    "A\u{353}\u{33d}",
    "\u{1d538}",
    "\u{1d00}",
    "\u{2200}",
];

/// The most glyphs one string is made of.
pub const MAX_GLYPHS: u16 = 16;

/// The text of catalog entry `i`.
pub open spec fn glyph(i: int) -> Seq<char> {
    CHAR_SET@[i]@
}

/// The glyphs numbered by `picks`, written one after the other.
pub open spec fn spelled(picks: Seq<usize>) -> Seq<char>
    decreases picks.len(),
{
    if picks.len() == 0 {
        Seq::empty()
    } else {
        spelled(picks.drop_last()) + glyph(picks.last() as int)
    }
}

/// Every number in `picks` names a catalog entry.
pub open spec fn all_in_catalog(picks: Seq<usize>) -> bool {
    forall|k: int| 0 <= k < picks.len() ==> picks[k] < CATALOG_SIZE
}

/// The character `c` occurs in some catalog entry.
pub open spec fn in_catalog(c: char) -> bool {
    exists|i: int| 0 <= i < CATALOG_SIZE && glyph(i).contains(c)
}

/// `text` is one to sixteen catalog entries written one after the other.
pub open spec fn is_glyph_string(text: Seq<char>) -> bool {
    exists|picks: Seq<usize>|
        1 <= picks.len() <= 16 && all_in_catalog(picks) && text == spelled(picks)
}

/// No catalog entry is empty, and none is longer than nine characters.
pub proof fn lemma_glyph_lengths()
    ensures
        forall|i: int| 0 <= i < CATALOG_SIZE ==> 1 <= (#[trigger] glyph(i)).len() <= 9,
{
    reveal_strlit("A\u{335}\u{326}\u{326}\u{313}\u{34c}\u{357}\u{35b}\u{315}");
    reveal_strlit("A");
    reveal_strlit("\u{20b3}");
    reveal_strlit("\u{2591}A\u{2591}");
    reveal_strlit("A\u{489}");
    reveal_strlit("\u{23a}");
    reveal_strlit("A\u{337}");
    reveal_strlit("A\u{332}");
    reveal_strlit("A\u{333}");
    reveal_strlit("A\u{33e}");
    reveal_strlit("A\u{34e}");
    reveal_strlit("A\u{353}\u{33d}");
    reveal_strlit("\u{1d538}");
    reveal_strlit("\u{1d00}");
    reveal_strlit("\u{2200}");
}

/// A string spelled from catalog entries has at least one character for each
/// entry and at most nine, and each of its characters occurs in the catalog.
pub proof fn lemma_spelled_from_catalog(picks: Seq<usize>)
    requires
        all_in_catalog(picks),
    ensures
        picks.len() <= spelled(picks).len() <= 9 * picks.len(),
        forall|k: int| 0 <= k < spelled(picks).len() ==> in_catalog(#[trigger] spelled(picks)[k]),
    decreases picks.len(),
{
    if picks.len() > 0 {
        let front = picks.drop_last();
        let last = picks.last() as int;
        lemma_spelled_from_catalog(front);
        lemma_glyph_lengths();
        assert forall|k: int| 0 <= k < spelled(picks).len() implies in_catalog(
            #[trigger] spelled(picks)[k],
        ) by {
            if k >= spelled(front).len() {
                assert(spelled(picks)[k] == glyph(last)[k - spelled(front).len()]);
            }
        }
    }
}

/// Writes the catalog entries numbered by `picks` one after the other.
pub fn spell(picks: &[usize]) -> (s: String)
    requires
        all_in_catalog(picks@),
    ensures
        s@ == spelled(picks@),
{
    let mut s: String = String::new();
    let mut k: usize = 0;
    while k < picks.len()
        invariant
            k <= picks.len(),
            all_in_catalog(picks@),
            s@ == spelled(picks@.take(k as int)),
        decreases picks.len() - k,
    {
        s.append(CHAR_SET[picks[k]]);
        proof {
            assert(picks@.take(k + 1).drop_last() =~= picks@.take(k as int));
        }
        k = k + 1;
    }
    proof {
        assert(picks@.take(picks@.len() as int) =~= picks@);
    }
    s
}

/// A string of one to sixteen catalog entries, the number and each entry
/// drawn uniformly and independently.
pub fn random_string() -> (s: String)
    ensures
        is_glyph_string(s@),
        s@.len() >= 1,
        forall|k: int| 0 <= k < s@.len() ==> in_catalog(#[trigger] s@[k]),
{
    let length: u16 = random_range(1, MAX_GLYPHS + 1);
    let mut picks: Vec<usize> = Vec::new();
    let mut n: u16 = 0;
    while n < length
        invariant
            n <= length,
            picks@.len() == n,
            all_in_catalog(picks@),
        decreases length - n,
    {
        let pick: u16 = random_range(0, CATALOG_SIZE as u16);
        picks.push(pick as usize);
        n = n + 1;
    }
    let s: String = spell(picks.as_slice());
    proof {
        lemma_spelled_from_catalog(picks@);
    }
    s
}

} // verus!
