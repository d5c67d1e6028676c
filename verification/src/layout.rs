//! The layout engine: from a parsed dataset to a fully resolved render model.
//!
//! Wedges start at twelve o'clock (minus ninety degrees) and sweep clockwise,
//! each by its share `value / total` of a full turn. Angles are kept as exact
//! rationals: the spec functions below give a wedge boundary as an integer
//! numerator in the unit "degrees times `total`", so the angle in degrees is
//! the numerator divided by `total`. When the total is zero every share is
//! taken to be zero, so no division ever happens and no wedge sweeps.

use vstd::prelude::*;
use vstd::string::StringExecFns;
use crate::colors::{advance_hue, fresh_hue_seed, hsv_to_rgb, spec_color_at, spec_hue_at};
use crate::data::{
    ChartData, Gutter, ItemData, RenderData, WedgeData, lemma_items_total_take_le,
    lemma_items_total_take_step, lemma_wedges_total_take_step, spec_items_total,
    spec_wedges_total, wedges_wf,
};
use crate::numfmt::{dec_string, hex6_string, spec_dec, spec_hex6};

verus! {

/// The fixed stylesheet rule for generic label text.
pub open spec fn spec_labels_style() -> Seq<char> {
    ".labels{fill:rgb(0,0,0);font-size:10;font-family:Arial}"@
}

/// The fixed stylesheet rule for the title.
pub open spec fn spec_title_style() -> Seq<char> {
    ".title{font-family:Arial;font-size:12;text-anchor:middle;}"@
}

/// The fixed stylesheet rule for legend labels.
pub open spec fn spec_legend_style() -> Seq<char> {
    ".legend{font-family:Arial;font-size:12pt;text-anchor:left;}"@
}

/// The stylesheet rule binding wedge class `i` to its sequenced fill color.
pub open spec fn spec_wedge_style(i: int, seed: u32) -> Seq<char> {
    ".wedge-"@ + spec_dec(i as nat) + "{fill:#"@ + spec_hex6(spec_color_at(seed, i as nat))
        + ";stroke-width:0}"@
}

/// What the layout engine promises of its output `rd` for input `cd` and hue
/// seed `seed`: the fixed layout constants, one wedge per item carrying the
/// item's label, value and prefix sum, and one stylesheet rule per wedge
/// after the three fixed rules.
pub open spec fn spec_layout_matches(rd: RenderData, cd: ChartData, seed: u32) -> bool {
    &&& rd.title@ == cd.title@
    &&& rd.gutter == (Gutter { left: 40u32, top: 40u32, right: 40u32, bottom: 40u32 })
    &&& rd.pie_diameter == 400u32
    &&& rd.legend_gutter == (Gutter { left: 10u32, top: 10u32, right: 10u32, bottom: 10u32 })
    &&& rd.legend_height == 20u32
    &&& rd.rect_corner_radius == 3u32
    &&& rd.total as int == spec_items_total(cd.items@)
    &&& rd.wedges@.len() == cd.items@.len()
    &&& forall|i: int|
        0 <= i < cd.items@.len() ==> {
            let w = #[trigger] rd.wedges@[i];
            &&& w.title@ == cd.items@[i].key@
            &&& w.value == cd.items@[i].value
            &&& w.start_offset as int == spec_items_total(cd.items@.take(i))
        }
    &&& rd.styles@.len() == 3 + cd.items@.len()
    &&& rd.styles@[0]@ == spec_labels_style()
    &&& rd.styles@[1]@ == spec_title_style()
    &&& rd.styles@[2]@ == spec_legend_style()
    &&& forall|i: int|
        0 <= i < cd.items@.len() ==> (#[trigger] rd.styles@[3 + i])@ == spec_wedge_style(i, seed)
}

/// Where wedge `i` begins, as an angle numerator in degrees times `total`:
/// minus ninety degrees, plus this wedge's share of the full turn so far.
pub open spec fn spec_start_angle_num(rd: RenderData, i: int) -> int {
    360 * rd.wedges@[i].start_offset - 90 * rd.total
}

/// Where wedge `i` ends, in the same unit.
pub open spec fn spec_end_angle_num(rd: RenderData, i: int) -> int {
    360 * (rd.wedges@[i].start_offset + rd.wedges@[i].value) - 90 * rd.total
}

/// The sum of the angular sweeps of `wedges`, in degrees times `total`.
pub open spec fn spec_sweep_sum(wedges: Seq<WedgeData>) -> int
    decreases wedges.len(),
{
    if wedges.len() == 0 {
        0
    } else {
        spec_sweep_sum(wedges.drop_last()) + 360 * wedges.last().value
    }
}

/// The pie-chart pipeline. It owns the layout engine and, in
/// [`crate::markup`], the emitter; reading the input and writing the output
/// belong to the caller.
pub struct PieChartTool {}

impl PieChartTool {
    /// A fresh tool.
    pub fn new() -> (t: PieChartTool) {
        PieChartTool {  }
    }

    /// The layout engine with the hue seed drawn at random, as for a normal
    /// run: the result is a valid layout for this dataset under some seed.
    pub fn process_chart_data(&self, cd: &ChartData) -> (rd: RenderData)
        requires
            spec_items_total(cd.items@) <= u64::MAX,
        ensures
            exists|seed: u32| spec_layout_matches(rd, *cd, seed),
            wedges_wf(rd),
    {
        let seed = fresh_hue_seed();
        self.process_chart_data_seeded(cd, seed)
    }

    /// The layout engine with an explicit hue seed, so that a caller can make
    /// the colors reproducible.
    pub fn process_chart_data_seeded(&self, cd: &ChartData, seed: u32) -> (rd: RenderData)
        requires
            spec_items_total(cd.items@) <= u64::MAX,
        ensures
            spec_layout_matches(rd, *cd, seed),
            wedges_wf(rd),
    {
        let n = cd.items.len();
        let mut total: u64 = 0;
        let mut i: usize = 0;
        while i < n
            invariant
                i <= n,
                n == cd.items@.len(),
                total as int == spec_items_total(cd.items@.take(i as int)),
                spec_items_total(cd.items@) <= u64::MAX,
            decreases n - i,
        {
            proof {
                lemma_items_total_take_step(cd.items@, i as int);
                lemma_items_total_take_le(cd.items@, i as int + 1);
                lemma_items_total_nonneg_all(cd.items@, i as int + 1);
            }
            total = total + cd.items[i].value;
            i = i + 1;
        }
        proof {
            assert(cd.items@.take(n as int) =~= cd.items@);
        }
        let mut styles: Vec<String> = Vec::new();
        styles.push(String::from_str(".labels{fill:rgb(0,0,0);font-size:10;font-family:Arial}"));
        styles.push(String::from_str(".title{font-family:Arial;font-size:12;text-anchor:middle;}"));
        styles.push(String::from_str(".legend{font-family:Arial;font-size:12pt;text-anchor:left;}"));
        let mut wedges: Vec<WedgeData> = Vec::new();
        let mut h: u32 = seed;
        let mut start: u64 = 0;
        let mut i: usize = 0;
        while i < n
            invariant
                i <= n,
                n == cd.items@.len(),
                total as int == spec_items_total(cd.items@),
                spec_items_total(cd.items@) <= u64::MAX,
                styles@.len() == 3 + i,
                styles@[0]@ == spec_labels_style(),
                styles@[1]@ == spec_title_style(),
                styles@[2]@ == spec_legend_style(),
                forall|j: int|
                    0 <= j < i ==> (#[trigger] styles@[3 + j])@ == spec_wedge_style(j, seed),
                wedges@.len() == i,
                forall|j: int|
                    0 <= j < i ==> {
                        let w = #[trigger] wedges@[j];
                        &&& w.title@ == cd.items@[j].key@
                        &&& w.value == cd.items@[j].value
                        &&& w.start_offset as int == spec_items_total(cd.items@.take(j))
                    },
                h as int == spec_hue_at(seed, i as nat),
                start as int == spec_items_total(cd.items@.take(i as int)),
            decreases n - i,
        {
            let rgb = hsv_to_rgb(h);
            let mut style = String::from_str(".wedge-");
            let idx_text = dec_string(i as u128);
            style.append(idx_text.as_str());
            style.append("{fill:#");
            let color_text = hex6_string(rgb);
            style.append(color_text.as_str());
            style.append(";stroke-width:0}");
            styles.push(style);
            wedges.push(
                WedgeData {
                    title: String::from_str(cd.items[i].key.as_str()),
                    value: cd.items[i].value,
                    start_offset: start,
                },
            );
            proof {
                lemma_items_total_take_step(cd.items@, i as int);
                lemma_items_total_take_le(cd.items@, i as int + 1);
                lemma_items_total_nonneg_all(cd.items@, i as int + 1);
            }
            start = start + cd.items[i].value;
            h = advance_hue(h);
            i = i + 1;
        }
        let rd = RenderData {
            title: String::from_str(cd.title.as_str()),
            gutter: Gutter { left: 40, top: 40, right: 40, bottom: 40 },
            pie_diameter: 400,
            styles,
            legend_gutter: Gutter { left: 10, top: 10, right: 10, bottom: 10 },
            legend_height: 20,
            rect_corner_radius: 3,
            wedges,
            total,
        };
        proof {
            lemma_matches_wf(rd, *cd, seed);
        }
        rd
    }
}

/// Every prefix sum of item values is non-negative.
proof fn lemma_items_total_nonneg_all(items: Seq<ItemData>, i: int)
    requires
        0 <= i <= items.len(),
    ensures
        spec_items_total(items.take(i)) >= 0,
{
    crate::data::lemma_items_total_nonneg(items.take(i));
}

/// A layout that matches its dataset is well formed: the wedge prefix sums
/// agree with the item prefix sums, and the stored total with the sum of all
/// wedge values.
pub proof fn lemma_matches_wf(rd: RenderData, cd: ChartData, seed: u32)
    requires
        spec_layout_matches(rd, cd, seed),
    ensures
        wedges_wf(rd),
{
    assert forall|i: int| 0 <= i <= rd.wedges@.len() implies spec_wedges_total(rd.wedges@.take(i))
        == spec_items_total(cd.items@.take(i)) by {
        lemma_sums_agree(rd, cd, seed, i);
    }
    assert(rd.wedges@.take(rd.wedges@.len() as int) =~= rd.wedges@);
    assert(cd.items@.take(cd.items@.len() as int) =~= cd.items@);
}

/// The wedge values mirror the item values, so their prefix sums agree.
proof fn lemma_sums_agree(rd: RenderData, cd: ChartData, seed: u32, i: int)
    requires
        spec_layout_matches(rd, cd, seed),
        0 <= i <= rd.wedges@.len(),
    ensures
        spec_wedges_total(rd.wedges@.take(i)) == spec_items_total(cd.items@.take(i)),
    decreases i,
{
    if i > 0 {
        lemma_sums_agree(rd, cd, seed, i - 1);
        lemma_wedges_total_take_step(rd.wedges@, i - 1);
        lemma_items_total_take_step(cd.items@, i - 1);
    }
}

/// Wedges tile the circle with no gap and no overlap: each wedge ends exactly
/// where the next one starts.
pub proof fn lemma_wedges_contiguous(rd: RenderData, i: int)
    requires
        wedges_wf(rd),
        0 <= i,
        i + 1 < rd.wedges@.len(),
    ensures
        spec_end_angle_num(rd, i) == spec_start_angle_num(rd, i + 1),
{
    lemma_wedges_total_take_step(rd.wedges@, i);
}

/// The first wedge starts at twelve o'clock: minus ninety degrees.
pub proof fn lemma_first_wedge_at_top(rd: RenderData)
    requires
        wedges_wf(rd),
        rd.wedges@.len() > 0,
    ensures
        spec_start_angle_num(rd, 0) == -90 * rd.total,
{
    assert(rd.wedges@.take(0) =~= Seq::<WedgeData>::empty());
}

/// The wedge fractions sum to one: the wedge values sum to the stored total,
/// so the angular sweeps sum to a full turn of three hundred sixty degrees
/// (both sides in degrees times `total`).
pub proof fn lemma_sweeps_fill_circle(rd: RenderData)
    requires
        wedges_wf(rd),
    ensures
        spec_wedges_total(rd.wedges@) == rd.total,
        spec_sweep_sum(rd.wedges@) == 360 * rd.total,
{
    lemma_sweep_sum_scales(rd.wedges@);
}

/// The last wedge closes the circle: it ends at two hundred seventy degrees,
/// one full turn after the minus-ninety-degree start (both sides in degrees
/// times `total`).
pub proof fn lemma_last_wedge_closes_circle(rd: RenderData)
    requires
        wedges_wf(rd),
        rd.wedges@.len() > 0,
    ensures
        spec_end_angle_num(rd, rd.wedges@.len() - 1) == 270 * rd.total,
{
    let n = rd.wedges@.len() as int;
    lemma_wedges_total_take_step(rd.wedges@, n - 1);
    assert(rd.wedges@.take(n) =~= rd.wedges@);
}

/// Every wedge's share stays within the whole: its start offset plus its
/// value never passes the total, so its fraction `value / total` is at most
/// one.
pub proof fn lemma_wedge_shares_valid(rd: RenderData, i: int)
    requires
        wedges_wf(rd),
        0 <= i < rd.wedges@.len(),
    ensures
        rd.wedges@[i].start_offset + rd.wedges@[i].value <= rd.total,
{
    lemma_wedges_total_take_step(rd.wedges@, i);
    crate::data::lemma_wedges_total_take_le(rd.wedges@, i + 1);
}

/// The sweep sum is the value sum scaled by the full turn.
proof fn lemma_sweep_sum_scales(wedges: Seq<WedgeData>)
    ensures
        spec_sweep_sum(wedges) == 360 * spec_wedges_total(wedges),
    decreases wedges.len(),
{
    if wedges.len() > 0 {
        lemma_sweep_sum_scales(wedges.drop_last());
    }
}

} // verus!
