//! The data model: the parsed input (`ChartData`), the fixed layout margins
//! (`Gutter`), and the resolved render model (`RenderData`) handed from the
//! layout engine to the markup emitter.
//!
//! Item values are non-negative integers in whatever fixed unit the caller
//! chooses; a wedge's share of the pie is the exact rational
//! `value / total`, so the unit cancels out. Each wedge also carries the sum
//! of the values before it (`start_offset`), which determines where on the
//! circle it starts.

use vstd::prelude::*;

verus! {

/// One labeled value of the dataset.
#[derive(Debug, Clone)]
pub struct ItemData {
    pub key: String,
    pub value: u64,
}

/// The parsed input: a title and an ordered list of items. The order decides
/// drawing order and color order.
#[derive(Debug, Clone)]
pub struct ChartData {
    pub title: String,
    pub items: Vec<ItemData>,
}

/// Fixed margins around a layout region, in whole pixels.
#[derive(Debug, Clone)]
pub struct Gutter {
    pub left: u32,
    pub top: u32,
    pub right: u32,
    pub bottom: u32,
}

impl Gutter {
    /// The vertical space the margins take together.
    pub fn height(&self) -> (h: u64)
        ensures
            h == self.top + self.bottom,
    {
        self.bottom as u64 + self.top as u64
    }

    /// The horizontal space the margins take together.
    pub fn width(&self) -> (w: u64)
        ensures
            w == self.left + self.right,
    {
        self.right as u64 + self.left as u64
    }
}

/// One resolved pie slice: its label, its value, and the sum of all values
/// before it in the dataset order.
#[derive(Debug, Clone)]
pub struct WedgeData {
    pub title: String,
    pub value: u64,
    pub start_offset: u64,
}

/// The resolved render model: everything the markup emitter needs, and
/// nothing of the input dataset.
#[derive(Debug, Clone)]
pub struct RenderData {
    pub title: String,
    pub gutter: Gutter,
    pub pie_diameter: u32,
    pub styles: Vec<String>,
    pub legend_gutter: Gutter,
    pub legend_height: u32,
    pub rect_corner_radius: u32,
    pub wedges: Vec<WedgeData>,
    pub total: u64,
}

/// The sum of the item values of `items`.
pub open spec fn spec_items_total(items: Seq<ItemData>) -> int
    decreases items.len(),
{
    if items.len() == 0 {
        0
    } else {
        spec_items_total(items.drop_last()) + items.last().value
    }
}

/// The sum of the wedge values of `wedges`.
pub open spec fn spec_wedges_total(wedges: Seq<WedgeData>) -> int
    decreases wedges.len(),
{
    if wedges.len() == 0 {
        0
    } else {
        spec_wedges_total(wedges.drop_last()) + wedges.last().value
    }
}

/// A well-formed render model: every wedge's `start_offset` is the sum of the
/// wedge values before it, and `total` is the sum of them all.
pub open spec fn wedges_wf(rd: RenderData) -> bool {
    &&& forall|i: int|
        0 <= i < rd.wedges@.len() ==> (#[trigger] rd.wedges@[i]).start_offset as int
            == spec_wedges_total(rd.wedges@.take(i))
    &&& rd.total as int == spec_wedges_total(rd.wedges@)
}

/// Taking one more item adds exactly its value to the running total.
pub proof fn lemma_items_total_take_step(items: Seq<ItemData>, i: int)
    requires
        0 <= i < items.len(),
    ensures
        spec_items_total(items.take(i + 1)) == spec_items_total(items.take(i)) + items[i].value,
{
    assert(items.take(i + 1).drop_last() =~= items.take(i));
    assert(items.take(i + 1).last() == items[i]);
}

/// The same step fact for wedge sequences.
pub proof fn lemma_wedges_total_take_step(wedges: Seq<WedgeData>, i: int)
    requires
        0 <= i < wedges.len(),
    ensures
        spec_wedges_total(wedges.take(i + 1)) == spec_wedges_total(wedges.take(i))
            + wedges[i].value,
{
    assert(wedges.take(i + 1).drop_last() =~= wedges.take(i));
    assert(wedges.take(i + 1).last() == wedges[i]);
}

/// A prefix of the wedges never sums to more than all of them.
pub proof fn lemma_wedges_total_take_le(wedges: Seq<WedgeData>, i: int)
    requires
        0 <= i <= wedges.len(),
    ensures
        spec_wedges_total(wedges.take(i)) <= spec_wedges_total(wedges),
    decreases wedges.len(),
{
    if i == wedges.len() {
        assert(wedges.take(i) =~= wedges);
    } else {
        assert(wedges.take(i) =~= wedges.drop_last().take(i));
        lemma_wedges_total_take_le(wedges.drop_last(), i);
    }
}

/// A sum of item values is never negative.
pub proof fn lemma_items_total_nonneg(items: Seq<ItemData>)
    ensures
        spec_items_total(items) >= 0,
    decreases items.len(),
{
    if items.len() > 0 {
        lemma_items_total_nonneg(items.drop_last());
    }
}

/// A prefix of the items never sums to more than all of them.
pub proof fn lemma_items_total_take_le(items: Seq<ItemData>, i: int)
    requires
        0 <= i <= items.len(),
    ensures
        spec_items_total(items.take(i)) <= spec_items_total(items),
    decreases items.len(),
{
    if i == items.len() {
        assert(items.take(i) =~= items);
    } else {
        assert(items.take(i) =~= items.drop_last().take(i));
        lemma_items_total_take_le(items.drop_last(), i);
    }
}

} // verus!
