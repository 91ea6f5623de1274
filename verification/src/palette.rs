//! The colour palette and the weighted draw over it.

use crate::chance::random_range;
use vstd::prelude::*;

verus! {

/// A foreground colour as the terminal understands it.
#[derive(Clone, Copy, Debug, PartialEq, Eq, Hash, Structural)]
pub enum Color {
    /// An entry of the 256-colour indexed palette.
    AnsiValue(u8),
    /// Plain white.
    White,
}

/// A palette entry: a colour with the weight it is drawn with.
#[derive(Clone, Copy, Debug, PartialEq, Eq, Structural)]
pub enum Weight {
    /// The dominant colour of the display.
    Primary(Color, u8),
    /// A decorative colour.
    Accent(Color, u8),
}

/// The fixed palette, in drawing order: seven accents of weight 10 and one
/// primary colour of weight 30.
pub open spec fn palette() -> Seq<Weight> {
    seq![
        Weight::Accent(Color::AnsiValue(0), 10),
        Weight::Accent(Color::AnsiValue(18), 10),
        Weight::Accent(Color::AnsiValue(29), 10),
        Weight::Accent(Color::AnsiValue(39), 10),
        Weight::Accent(Color::AnsiValue(128), 10),
        Weight::Accent(Color::AnsiValue(199), 10),
        Weight::Accent(Color::AnsiValue(206), 10),
        Weight::Primary(Color::AnsiValue(255), 30),
    ]
}

/// The fixed palette as a value.
pub fn colors() -> (p: [Weight; 8])
    ensures
        p@ == palette(),
{
    let p: [Weight; 8] = [
        Weight::Accent(Color::AnsiValue(0), 10),
        Weight::Accent(Color::AnsiValue(18), 10),
        Weight::Accent(Color::AnsiValue(29), 10),
        Weight::Accent(Color::AnsiValue(39), 10),
        Weight::Accent(Color::AnsiValue(128), 10),
        Weight::Accent(Color::AnsiValue(199), 10),
        Weight::Accent(Color::AnsiValue(206), 10),
        Weight::Primary(Color::AnsiValue(255), 30),
    ];
    assert(p@ =~= palette());
    p
}

impl Weight {
    /// The weight of this entry, as a number.
    pub open spec fn spec_weight(self) -> int {
        match self {
            Weight::Primary(_, w) => w as int,
            Weight::Accent(_, w) => w as int,
        }
    }

    /// The colour of this entry.
    pub open spec fn spec_color(self) -> Color {
        match self {
            Weight::Primary(c, _) => c,
            Weight::Accent(c, _) => c,
        }
    }

    /// The weight of this entry.
    pub fn weight(&self) -> (w: u8)
        ensures
            w == self.spec_weight(),
    {
        match self {
            Weight::Primary(_, w) => *w,
            Weight::Accent(_, w) => *w,
        }
    }

    /// The colour of this entry.
    pub fn color(&self) -> (c: Color)
        ensures
            c == self.spec_color(),
    {
        match self {
            Weight::Primary(c, _) => *c,
            Weight::Accent(c, _) => *c,
        }
    }
}

/// Sum of the weights of the first `n` entries of `p`.
pub open spec fn cumulative(p: Seq<Weight>, n: int) -> int
    decreases n,
{
    if n <= 0 {
        0
    } else {
        cumulative(p, n - 1) + p[n - 1].spec_weight()
    }
}

/// Sum of all weights of `p`: the number of distinct draws.
pub open spec fn total(p: Seq<Weight>) -> int {
    cumulative(p, p.len() as int)
}

/// A draw of `choice` lands on entry `i`: `i` is the first entry whose
/// cumulative weight exceeds the draw.
pub open spec fn lands_on(p: Seq<Weight>, choice: int, i: int) -> bool {
    0 <= i < p.len() && cumulative(p, i) <= choice < cumulative(p, i + 1)
}

/// Cumulative weights never decrease along the palette.
pub proof fn lemma_cumulative_monotone(p: Seq<Weight>, i: int, j: int)
    requires
        i <= j,
    ensures
        0 <= cumulative(p, i) <= cumulative(p, j),
    decreases j - i, j,
{
    if i < j {
        lemma_cumulative_monotone(p, i, j - 1);
    } else if i > 0 {
        lemma_cumulative_monotone(p, i - 1, j - 1);
    }
}

/// A draw lands on at most one entry.
pub proof fn lemma_lands_on_unique(p: Seq<Weight>, choice: int, i: int, j: int)
    requires
        lands_on(p, choice, i),
        lands_on(p, choice, j),
    ensures
        i == j,
{
    if i < j {
        lemma_cumulative_monotone(p, i + 1, j);
    } else if j < i {
        lemma_cumulative_monotone(p, j + 1, i);
    }
}

/// Only draws below the total weight land anywhere.
pub proof fn lemma_lands_on_in_range(p: Seq<Weight>, choice: int, i: int)
    requires
        lands_on(p, choice, i),
    ensures
        0 <= choice < total(p),
{
    lemma_cumulative_monotone(p, 0, i);
    lemma_cumulative_monotone(p, i + 1, p.len() as int);
}

/// Every draw below the total weight lands on an entry: with weights that
/// cover the draws, nothing falls through to the fallback.
pub proof fn lemma_every_draw_lands(p: Seq<Weight>, choice: int)
    requires
        0 <= choice < total(p),
    ensures
        exists|i: int| lands_on(p, choice, i),
{
    lemma_lands_before(p, choice, p.len() as int);
}

proof fn lemma_lands_before(p: Seq<Weight>, choice: int, n: int)
    requires
        0 <= n <= p.len(),
        0 <= choice < cumulative(p, n),
    ensures
        exists|i: int| 0 <= i < n && lands_on(p, choice, i),
    decreases n,
{
    if choice >= cumulative(p, n - 1) {
        assert(lands_on(p, choice, n - 1));
    } else {
        lemma_lands_before(p, choice, n - 1);
    }
}

/// Every entry receives exactly as many draws as its weight says: the draws
/// that land on entry `i` are the `weight(i)` consecutive values starting at
/// the cumulative weight before it.
pub proof fn lemma_share_is_weight(p: Seq<Weight>, i: int)
    requires
        0 <= i < p.len(),
    ensures
        cumulative(p, i + 1) - cumulative(p, i) == p[i].spec_weight(),
        forall|choice: int|
            lands_on(p, choice, i) <==> cumulative(p, i) <= choice < cumulative(p, i)
                + p[i].spec_weight(),
{
}

/// The sum of all weights of `palette`.
pub fn total_weight(palette: &[Weight]) -> (sum: u8)
    requires
        total(palette@) <= u8::MAX,
    ensures
        sum == total(palette@),
{
    let mut sum: u8 = 0;
    let mut i: usize = 0;
    while i < palette.len()
        invariant
            i <= palette.len(),
            sum == cumulative(palette@, i as int),
            total(palette@) <= u8::MAX,
        decreases palette.len() - i,
    {
        proof {
            lemma_cumulative_monotone(palette@, i + 1, palette@.len() as int);
        }
        sum = sum + palette[i].weight();
        i = i + 1;
    }
    sum
}

/// The entry a draw of `choice` lands on, found by scanning the cumulative
/// weights in palette order; `None` when the draw is not below the total
/// weight.
pub fn select_index(palette: &[Weight], choice: u8) -> (found: Option<usize>)
    ensures
        found is Some <==> choice < total(palette@),
        found matches Some(i) ==> lands_on(palette@, choice as int, i as int),
{
    let mut rest: u8 = choice;
    let mut i: usize = 0;
    while i < palette.len()
        invariant
            i <= palette.len(),
            rest == choice - cumulative(palette@, i as int),
        decreases palette.len() - i,
    {
        let weight: u8 = palette[i].weight();
        if rest < weight {
            proof {
                lemma_lands_on_in_range(palette@, choice as int, i as int);
            }
            return Some(i);
        }
        rest = rest - weight;
        i = i + 1;
    }
    None
}

/// The colour a draw of `choice` selects from `palette`: that of the entry the
/// draw lands on, and white when it lands on none.
pub fn select_color(palette: &[Weight], choice: u8) -> (c: Color)
    ensures
        choice < total(palette@) ==> exists|i: int|
            lands_on(palette@, choice as int, i) && c == palette@[i].spec_color(),
        choice >= total(palette@) ==> c == Color::White,
{
    match select_index(palette, choice) {
        Some(i) => palette[i].color(),
        None => Color::White,
    }
}

/// The entry of the fixed palette that a draw of `choice` lands on: draws
/// 0..70 go to the seven accents, ten each, and draws 70..100 to the primary
/// colour.
pub open spec fn palette_entry(choice: int) -> int {
    if choice < 70 {
        choice / 10
    } else {
        7
    }
}

/// The fixed palette has total weight 100, and a draw below 100 lands on
/// `palette_entry(choice)` and nowhere else. So the primary colour takes
/// exactly 30 of the 100 equally likely draws and each accent exactly 10.
pub proof fn lemma_palette_shares()
    ensures
        total(palette()) == 100,
        forall|choice: int, i: int|
            0 <= choice < 100 ==> (#[trigger] lands_on(palette(), choice, i) <==> i
                == palette_entry(choice)),
{
    reveal_with_fuel(cumulative, 9);
    assert(total(palette()) == 100);
}

/// `c` is the colour that some draw below the total weight selects from the
/// fixed palette.
pub open spec fn in_palette(c: Color) -> bool {
    exists|choice: int, i: int|
        0 <= choice < total(palette()) && lands_on(palette(), choice, i) && c
            == palette()[i].spec_color()
}

/// Draws a colour from the fixed palette, each entry with a chance
/// proportional to its weight. The white fallback is never returned.
pub fn random_color() -> (c: Color)
    ensures
        in_palette(c),
        c != Color::White,
{
    let p: [Weight; 8] = colors();
    proof {
        lemma_palette_shares();
    }
    let sum: u8 = total_weight(p.as_slice());
    let choice: u8 = random_range(0, sum as u16) as u8;
    select_color(p.as_slice(), choice)
}

} // verus!
