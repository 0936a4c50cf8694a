//! The bar's row: where each text stands and how wide it is.
//!
//! Texts stand side by side from the left edge, in the order in which they
//! come. A text that does not stretch keeps the width it was measured to
//! have. The width that these leave free on the surface is divided equally
//! among the texts that stretch, each taking the whole number of pixels below
//! its share; where nothing is left free, they take none. Every text is as
//! high as the bar.

use vstd::prelude::*;
use crate::text::{ComputedText, ComputedTextView, computed_views};

verus! {

/// The edge of the screen at which the bar stands.
#[derive(Clone, Copy, Debug, PartialEq, Eq, Structural)]
pub enum Position {
    Top,
    Bottom,
}

/// The width that `entry` asks for whatever the surface: its own, unless it
/// stretches.
pub open spec fn fixed_part(entry: ComputedTextView) -> nat {
    if entry.stretch {
        0
    } else {
        entry.width
    }
}

/// The widths of the texts of `row` that do not stretch, together.
pub open spec fn fixed_width(row: Seq<ComputedTextView>) -> nat
    decreases row.len(),
{
    if row.len() == 0 {
        0
    } else {
        fixed_width(row.drop_last()) + fixed_part(row.last())
    }
}

/// The number of texts of `row` that stretch.
pub open spec fn stretch_count(row: Seq<ComputedTextView>) -> nat
    decreases row.len(),
{
    if row.len() == 0 {
        0
    } else {
        stretch_count(row.drop_last()) + if row.last().stretch {
            1nat
        } else {
            0nat
        }
    }
}

/// The width of the surface that the texts of `row` that do not stretch
/// leave free.
pub open spec fn free_width(row: Seq<ComputedTextView>, surface_width: nat) -> nat {
    if surface_width >= fixed_width(row) {
        (surface_width - fixed_width(row)) as nat
    } else {
        0
    }
}

/// The width of each text of `row` that stretches.
pub open spec fn stretch_share(row: Seq<ComputedTextView>, surface_width: nat) -> nat {
    if stretch_count(row) == 0 {
        0
    } else {
        free_width(row, surface_width) / stretch_count(row)
    }
}

/// The width of `entry` in a row whose stretching texts are `share` wide.
pub open spec fn placed_width(entry: ComputedTextView, share: nat) -> nat {
    if entry.stretch {
        share
    } else {
        entry.width
    }
}

/// The left edge of the text at `index`: the widths of the texts before it,
/// together.
pub open spec fn offset(row: Seq<ComputedTextView>, share: nat, index: int) -> nat
    decreases index,
{
    if index <= 0 {
        0
    } else {
        offset(row, share, index - 1) + placed_width(row[index - 1], share)
    }
}

/// The row laid out on a surface `surface_width` wide, for a bar
/// `bar_height` high.
pub open spec fn placed_row(
    row: Seq<ComputedTextView>,
    surface_width: nat,
    bar_height: nat,
) -> Seq<ComputedTextView> {
    let share = stretch_share(row, surface_width);
    Seq::new(
        row.len(),
        |i: int|
            ComputedTextView {
                attr: row[i].attr,
                text: row[i].text,
                stretch: row[i].stretch,
                x: offset(row, share, i),
                y: 0,
                width: placed_width(row[i], share),
                height: bar_height,
            },
    )
}

/// The sums over the first `n + 1` texts come from those over the first `n`.
proof fn lemma_sums_step(row: Seq<ComputedTextView>, n: int)
    requires
        0 <= n < row.len(),
    ensures
        fixed_width(row.take(n + 1)) == fixed_width(row.take(n)) + fixed_part(row[n]),
        stretch_count(row.take(n + 1)) == stretch_count(row.take(n)) + if row[n].stretch {
            1nat
        } else {
            0nat
        },
{
    assert(row.take(n + 1).drop_last() =~= row.take(n));
}

/// The widths of the texts of `row` that do not stretch, together, and the
/// number of those that do.
fn measure_row(row: &Vec<ComputedText>) -> (r: (u128, usize))
    ensures
        r.0 == fixed_width(computed_views(row@)),
        r.1 == stretch_count(computed_views(row@)),
{
    let ghost views = computed_views(row@);
    let mut total: u128 = 0;
    let mut count: usize = 0;
    let mut i: usize = 0;
    while i < row.len()
        invariant
            i <= row.len(),
            views == computed_views(row@),
            total == fixed_width(views.take(i as int)),
            count == stretch_count(views.take(i as int)),
            total <= i * 0xffff_ffff_ffff_ffff,
            count <= i,
        decreases row.len() - i,
    {
        proof {
            lemma_sums_step(views, i as int);
        }
        if row[i].stretch {
            count = count + 1;
        } else {
            total = total + row[i].width as u128;
        }
        i = i + 1;
    }
    assert(views.take(row.len() as int) =~= views);
    (total, count)
}

/// Lays the row out on a surface `surface_width` wide, for a bar
/// `bar_height` high: every text keeps what it says and how, and gets its
/// place and its size in the row.
pub fn layout_row(row: &mut Vec<ComputedText>, surface_width: u32, bar_height: u32)
    ensures
        computed_views(final(row)@) == placed_row(
            computed_views(old(row)@),
            surface_width as nat,
            bar_height as nat,
        ),
{
    let ghost before = computed_views(row@);
    let (total, count) = measure_row(row);
    let free: u64 = if surface_width as u128 >= total {
        (surface_width as u128 - total) as u64
    } else {
        0
    };
    let share: u64 = if count == 0 {
        0
    } else {
        free / count as u64
    };
    assert(share == stretch_share(before, surface_width as nat));
    let mut x: u128 = 0;
    let mut i: usize = 0;
    while i < row.len()
        invariant
            i <= row.len(),
            row.len() == before.len(),
            share == stretch_share(before, surface_width as nat),
            x == offset(before, share as nat, i as int),
            x <= i * 0xffff_ffff_ffff_ffff,
            forall|j: int|
                0 <= j < i ==> (#[trigger] row@[j])@ == placed_row(
                    before,
                    surface_width as nat,
                    bar_height as nat,
                )[j],
            forall|j: int| i <= j < row.len() ==> (#[trigger] row@[j])@ == before[j],
        decreases row.len() - i,
    {
        let width = if row[i].stretch {
            share
        } else {
            row[i].width
        };
        row[i].x = x;
        row[i].y = 0;
        row[i].width = width;
        row[i].height = bar_height as u64;
        x = x + width as u128;
        i = i + 1;
    }
    assert(computed_views(row@) =~= placed_row(
        before,
        surface_width as nat,
        bar_height as nat,
    ));
}

/// The left edge of a text is the width of the texts before it that do not
/// stretch, and one share for each text before it that does.
pub proof fn lemma_offset_is_sum(row: Seq<ComputedTextView>, share: nat, index: int)
    requires
        0 <= index <= row.len(),
    ensures
        offset(row, share, index) == fixed_width(row.take(index)) + stretch_count(
            row.take(index),
        ) * share,
    decreases index,
{
    if index > 0 {
        lemma_offset_is_sum(row, share, index - 1);
        lemma_sums_step(row, index - 1);
        let before = stretch_count(row.take(index - 1));
        let now = stretch_count(row.take(index));
        if row[index - 1].stretch {
            assert(now * share == before * share + share) by (nonlinear_arith)
                requires
                    now == before + 1,
            ;
        } else {
            assert(now == before);
        }
    } else {
        assert(row.take(0).len() == 0);
        assert(stretch_count(row.take(0)) * share == 0) by (nonlinear_arith)
            requires
                stretch_count(row.take(0)) == 0,
        ;
    }
}

/// No text of `row` before `index` stretches.
pub open spec fn none_stretch_before(row: Seq<ComputedTextView>, index: int) -> bool {
    forall|j: int| 0 <= j < index ==> !(#[trigger] row[j]).stretch
}

/// Where no text before `index` stretches, none of the first `index` does.
proof fn lemma_none_stretch(row: Seq<ComputedTextView>, index: int)
    requires
        0 <= index <= row.len(),
        none_stretch_before(row, index),
    ensures
        stretch_count(row.take(index)) == 0,
    decreases index,
{
    if index > 0 {
        lemma_none_stretch(row, index - 1);
        lemma_sums_step(row, index - 1);
        assert(!row[index - 1].stretch);
    } else {
        assert(row.take(0).len() == 0);
    }
}

/// A text that has no stretching text before it stands at the sum of the
/// widths of the texts before it, however wide the surface is: on any two
/// surfaces it stands at the same place.
pub proof fn lemma_offsets_of_fixed_texts(
    row: Seq<ComputedTextView>,
    index: int,
    surface_width: nat,
    other_width: nat,
    bar_height: nat,
)
    requires
        0 <= index < row.len(),
        none_stretch_before(row, index),
    ensures
        placed_row(row, surface_width, bar_height)[index].x == fixed_width(row.take(index)),
        placed_row(row, surface_width, bar_height)[index].x == placed_row(
            row,
            other_width,
            bar_height,
        )[index].x,
{
    let share = stretch_share(row, surface_width);
    let other_share = stretch_share(row, other_width);
    lemma_offset_is_sum(row, share, index);
    lemma_offset_is_sum(row, other_share, index);
    lemma_none_stretch(row, index);
    let count = stretch_count(row.take(index));
    assert(count * share == 0 && count * other_share == 0) by (nonlinear_arith)
        requires
            count == 0,
    ;
}

/// In a row with one stretching text, that text is as wide as what the
/// others leave free of the surface: the surface's width less theirs, or
/// nothing where theirs is the greater.
pub proof fn lemma_single_stretch_takes_the_rest(
    row: Seq<ComputedTextView>,
    index: int,
    surface_width: nat,
    bar_height: nat,
)
    requires
        0 <= index < row.len(),
        row[index].stretch,
        stretch_count(row) == 1,
    ensures
        placed_row(row, surface_width, bar_height)[index].width == if surface_width
            >= fixed_width(row) {
            surface_width - fixed_width(row)
        } else {
            0
        },
{
}

/// The texts that stretch are equally wide, and together no wider than what
/// the others leave free.
pub proof fn lemma_shares_fit(row: Seq<ComputedTextView>, surface_width: nat)
    ensures
        stretch_count(row) * stretch_share(row, surface_width) <= free_width(row, surface_width),
{
    let count = stretch_count(row);
    let free = free_width(row, surface_width);
    if count > 0 {
        assert(count * (free / count) <= free) by (nonlinear_arith)
            requires
                count > 0,
                free >= 0,
        ;
    }
}

/// Laying a row out changes no text's words, attributes or stretch.
pub proof fn lemma_layout_keeps_requests(
    row: Seq<ComputedTextView>,
    surface_width: nat,
    bar_height: nat,
    index: int,
)
    requires
        0 <= index < row.len(),
    ensures
        placed_row(row, surface_width, bar_height).len() == row.len(),
        placed_row(row, surface_width, bar_height)[index].request() == row[index].request(),
{
}

} // verus!
