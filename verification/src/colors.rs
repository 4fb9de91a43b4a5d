//! Display colors of the process pool.
//!
//! Each pool entry gets its own color so a human watching the mixed
//! output can attribute lines. The selection is shuffled for visual
//! variety; which entry gets which color carries no meaning.

use vstd::prelude::*;
use vstd::seq_lib::group_to_multiset_ensures;
use rand::seq::SliceRandom;

verus! {

/// A display color of a pool entry: one of the five preferred
/// primary colors, or an 8-bit terminal color — the pool draws on
/// three such secondary codes once it outgrows the primaries. Red is
/// left out of the palette: red is for errors.
#[derive(Clone, Copy, Debug, PartialEq, Eq, Structural)]
pub enum PoolColor {
    Green,
    Yellow,
    Blue,
    Magenta,
    Cyan,
    /// An 8-bit terminal color code.
    Color256(u8),
}

/// The fixed palette: five primary colors, then the three secondary
/// codes — not as good as the primaries, but good enough to tell
/// processes apart.
pub open spec fn palette() -> Seq<PoolColor> {
    seq![
        PoolColor::Green,
        PoolColor::Yellow,
        PoolColor::Blue,
        PoolColor::Magenta,
        PoolColor::Cyan,
        PoolColor::Color256(24),
        PoolColor::Color256(172),
        PoolColor::Color256(142),
    ]
}

/// The colors a pool of `n` entries draws, before shuffling: the
/// first `n` palette colors while they last; a pool larger than the
/// palette reuses it round-robin, so only then can two entries share
/// a color.
pub open spec fn assigned_colors(n: int) -> Seq<PoolColor> {
    Seq::new(n as nat, |i: int| palette()[i % 8])
}

fn palette_vec() -> (r: Vec<PoolColor>)
    ensures
        r@ == palette(),
{
    let mut v: Vec<PoolColor> = Vec::new();
    v.push(PoolColor::Green);
    v.push(PoolColor::Yellow);
    v.push(PoolColor::Blue);
    v.push(PoolColor::Magenta);
    v.push(PoolColor::Cyan);
    v.push(PoolColor::Color256(24));
    v.push(PoolColor::Color256(172));
    v.push(PoolColor::Color256(142));
    proof {
        assert(v@ =~= palette());
    }
    v
}

/// Relies on rand's `SliceRandom::shuffle` (a Fisher–Yates swap
/// loop): it permutes the slice in place, so the length and the
/// count of every color are kept.
#[verifier::external_body]
fn shuffle_colors(v: &mut Vec<PoolColor>)
    ensures
        final(v)@.len() == old(v)@.len(),
        final(v)@.to_multiset() == old(v)@.to_multiset(),
{
    v.shuffle(&mut rand::thread_rng());
}

/// Picks one display color per pool entry — primaries first, then
/// secondaries — and shuffles them for visual variety: the result
/// is a permutation of the first `n` palette colors.
pub fn make(n: u8) -> (r: Vec<PoolColor>)
    ensures
        r@.len() == n as int,
        r@.to_multiset() == assigned_colors(n as int).to_multiset(),
{
    let pal = palette_vec();
    let mut items: Vec<PoolColor> = Vec::new();
    let count = n as usize;
    let mut i: usize = 0;
    while i < count
        invariant
            i <= count,
            pal@ == palette(),
            items@ =~= assigned_colors(i as int),
        decreases count - i,
    {
        items.push(pal[i % 8]);
        proof {
            assert(items@ =~= assigned_colors(i + 1));
        }
        i = i + 1;
    }
    shuffle_colors(&mut items);
    items
}

proof fn lemma_palette_no_duplicates()
    ensures
        palette().no_duplicates(),
{
    assert(palette().no_duplicates()) by {
        assert(palette()[0] == PoolColor::Green);
        assert(palette()[1] == PoolColor::Yellow);
        assert(palette()[2] == PoolColor::Blue);
        assert(palette()[3] == PoolColor::Magenta);
        assert(palette()[4] == PoolColor::Cyan);
        assert(palette()[5] == PoolColor::Color256(24));
        assert(palette()[6] == PoolColor::Color256(172));
        assert(palette()[7] == PoolColor::Color256(142));
    }
}

/// A pool of up to eight entries gets pairwise distinct colors: the
/// palette has no duplicates, the first `n` of it are drawn, and the
/// shuffle keeps the count of every color. This pins down what
/// [`make`](make) returns for such pools.
pub proof fn lemma_make_distinct(colors: Seq<PoolColor>, n: int)
    requires
        0 <= n <= 8,
        colors.to_multiset() == assigned_colors(n).to_multiset(),
    ensures
        colors.no_duplicates(),
{
    broadcast use group_to_multiset_ensures;

    lemma_palette_no_duplicates();
    let assigned = assigned_colors(n);
    assert(assigned =~= palette().subrange(0, n));
    assert(assigned.no_duplicates()) by {
        assert(forall|i: int, j: int| 0 <= i < n && 0 <= j < n && i != j ==> #[trigger] assigned[i]
            != #[trigger] assigned[j]);
    }
    assigned.lemma_multiset_has_no_duplicates();
    colors.lemma_multiset_has_no_duplicates_conv();
}

} // verus!
