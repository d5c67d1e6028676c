//! The markup emitter: from a render model to the finished SVG document.
//!
//! The document text is pinned down exactly: the contract of
//! [`PieChartTool::render_chart`] says the output equals [`spec_document`],
//! a function of the render model and of the caller-supplied arc endpoints.
//! Fixed order throughout: the root element with its size and view box, a
//! style block, one path per wedge, the title, then one swatch and one label
//! per wedge in the legend.
//!
//! Every coordinate the emitter computes itself is exact: whole pixels, or
//! thousandths of a pixel where a value may not be whole (circle center,
//! radius, title anchor, legend columns). Only the two arc endpoints of each
//! wedge involve trigonometry, and those come in from the caller, already in
//! thousandths of a pixel.

use vstd::prelude::*;
use vstd::arithmetic::div_mod::{lemma_div_is_ordered, lemma_div_multiples_vanish};
use vstd::string::StringExecFns;
use crate::data::RenderData;
use crate::layout::PieChartTool;
use crate::numfmt::{dec_string, milli_string, spec_dec, spec_milli};

verus! {

/// The two points where a wedge's arc begins and ends, in thousandths of a
/// pixel. The caller computes them from the wedge's start and end angles
/// (center plus radius times cosine and sine); the emitter only places them
/// into the path.
#[derive(Debug, Clone, Copy)]
pub struct WedgeEndpoints {
    pub start_x: i64,
    pub start_y: i64,
    pub end_x: i64,
    pub end_y: i64,
}

/// The document width in pixels: left gutter, pie, right gutter.
pub open spec fn spec_doc_width(rd: RenderData) -> int {
    rd.gutter.left + rd.pie_diameter + rd.gutter.right
}

/// The document height in pixels: top gutter, pie, legend gutter, legend
/// row, bottom gutter.
pub open spec fn spec_doc_height(rd: RenderData) -> int {
    rd.gutter.top + rd.pie_diameter + rd.legend_gutter.top + rd.legend_gutter.bottom
        + rd.legend_height + rd.gutter.bottom
}

/// The circle center, in thousandths of a pixel.
pub open spec fn spec_center_x_milli(rd: RenderData) -> int {
    1000 * rd.gutter.left + 500 * rd.pie_diameter
}

pub open spec fn spec_center_y_milli(rd: RenderData) -> int {
    1000 * rd.gutter.bottom + 500 * rd.pie_diameter
}

/// The circle radius, in thousandths of a pixel.
pub open spec fn spec_radius_milli(rd: RenderData) -> int {
    500 * rd.pie_diameter
}

/// The arc's large-arc flag: `1` exactly when the wedge's share
/// `value / total` exceeds one half. With a zero total every share counts
/// as zero, so the flag is `0`.
pub open spec fn spec_large_arc_flag(value: int, total: int) -> int {
    if total > 0 && 2 * value > total {
        1
    } else {
        0
    }
}

/// The legend percentage: the share `value / total` times one hundred,
/// rounded to the nearest whole number, halves rounding up. With a zero
/// total every share counts as zero.
pub open spec fn spec_percent(value: int, total: int) -> int {
    if total > 0 {
        (200 * value + total) / (2 * total)
    } else {
        0
    }
}

/// The vertical position of the legend swatches: below the pie, past the
/// legend gutter.
pub open spec fn spec_legend_rect_y(rd: RenderData) -> int {
    rd.gutter.top + rd.pie_diameter + rd.legend_gutter.top
}

/// The vertical position of the legend labels: two row heights below the
/// swatch tops.
pub open spec fn spec_legend_text_y(rd: RenderData) -> int {
    spec_legend_rect_y(rd) + 2 * rd.legend_height
}

/// The left edge of legend column `i`, in thousandths of a pixel: the
/// horizontal span inside the legend gutter, divided evenly among the
/// wedges (the division rounds down to a thousandth).
pub open spec fn spec_legend_x_milli(rd: RenderData, i: int) -> int {
    1000 * rd.legend_gutter.left + (i * (spec_doc_width(rd) - rd.legend_gutter.left
        - rd.legend_gutter.right) * 1000) / (rd.wedges@.len() as int)
}

/// The root element up to and including its opening tag.
pub open spec fn spec_header(rd: RenderData) -> Seq<char> {
    "<svg xmlns=\"http://www.w3.org/2000/svg\" width=\""@ + spec_dec(spec_doc_width(rd) as nat)
        + "\" height=\""@ + spec_dec(spec_doc_height(rd) as nat) + "\" viewBox=\"0 0 "@
        + spec_dec(spec_doc_width(rd) as nat) + " "@ + spec_dec(spec_doc_height(rd) as nat)
        + "\" style=\"background-color: white;\">\n"@
}

/// The stylesheet rules joined by line breaks, first `n` rules.
pub open spec fn spec_styles_joined(styles: Seq<String>, n: int) -> Seq<char>
    decreases n,
{
    if n <= 0 {
        Seq::<char>::empty()
    } else if n == 1 {
        styles[0]@
    } else {
        spec_styles_joined(styles, n - 1) + "\n"@ + styles[n - 1]@
    }
}

/// The style block holding every rule of the render model.
pub open spec fn spec_style_block(rd: RenderData) -> Seq<char> {
    "<style>"@ + spec_styles_joined(rd.styles@, rd.styles@.len() as int) + "</style>\n"@
}

/// One wedge's path element: move to the center, line to the arc's start,
/// arc to its end with the computed large-arc flag and a clockwise sweep,
/// close.
pub open spec fn spec_wedge_path(rd: RenderData, ep: WedgeEndpoints, i: int) -> Seq<char> {
    "<path class=\"wedge-"@ + spec_dec(i as nat) + "\" d=\"M "@ + spec_milli(
        spec_center_x_milli(rd),
    ) + " "@ + spec_milli(spec_center_y_milli(rd)) + " L "@ + spec_milli(ep.start_x as int) + " "@
        + spec_milli(ep.start_y as int) + " A "@ + spec_milli(spec_radius_milli(rd)) + " "@
        + spec_milli(spec_radius_milli(rd)) + " 0 "@ + spec_dec(
        spec_large_arc_flag(rd.wedges@[i].value as int, rd.total as int) as nat,
    ) + " 1 "@ + spec_milli(ep.end_x as int) + " "@ + spec_milli(ep.end_y as int) + " Z\"/>\n"@
}

/// The first `n` wedge paths, in dataset order.
pub open spec fn spec_pie_rows(rd: RenderData, eps: Seq<WedgeEndpoints>, n: int) -> Seq<char>
    decreases n,
{
    if n <= 0 {
        Seq::<char>::empty()
    } else {
        spec_pie_rows(rd, eps, n - 1) + spec_wedge_path(rd, eps[n - 1], n - 1)
    }
}

/// The group of all wedge paths.
pub open spec fn spec_pie_group(rd: RenderData, eps: Seq<WedgeEndpoints>) -> Seq<char> {
    "<g>\n"@ + spec_pie_rows(rd, eps, rd.wedges@.len() as int) + "</g>\n"@
}

/// The title element, anchored at the horizontal center, half the top gutter
/// down. The title text is spliced in as it stands.
pub open spec fn spec_title_elem(rd: RenderData) -> Seq<char> {
    "<text class=\"title\" x=\""@ + spec_milli(500 * spec_doc_width(rd)) + "\" y=\""@ + spec_milli(
        500 * rd.gutter.top,
    ) + "\">"@ + rd.title@ + "</text>\n"@
}

/// One legend entry: the rounded swatch rectangle in the wedge's color
/// class, then the label `"{label} ({percent}%)"`.
pub open spec fn spec_legend_row(rd: RenderData, i: int) -> Seq<char> {
    "<rect class=\"wedge-"@ + spec_dec(i as nat) + "\" x=\""@ + spec_milli(
        spec_legend_x_milli(rd, i),
    ) + "\" y=\""@ + spec_dec(spec_legend_rect_y(rd) as nat) + "\" rx=\""@ + spec_dec(
        rd.rect_corner_radius as nat,
    ) + "\" ry=\""@ + spec_dec(rd.rect_corner_radius as nat) + "\" width=\""@ + spec_dec(
        rd.legend_height as nat,
    ) + "\" height=\""@ + spec_dec(rd.legend_height as nat) + "\"/>\n"@
        + "<text class=\"legend\" x=\""@ + spec_milli(spec_legend_x_milli(rd, i)) + "\" y=\""@
        + spec_dec(spec_legend_text_y(rd) as nat) + "\">"@ + rd.wedges@[i].title@ + " ("@
        + spec_dec(spec_percent(rd.wedges@[i].value as int, rd.total as int) as nat) + "%)</text>\n"@
}

/// The first `n` legend entries.
pub open spec fn spec_legend_rows(rd: RenderData, n: int) -> Seq<char>
    decreases n,
{
    if n <= 0 {
        Seq::<char>::empty()
    } else {
        spec_legend_rows(rd, n - 1) + spec_legend_row(rd, n - 1)
    }
}

/// The group of all legend entries.
pub open spec fn spec_legend_group(rd: RenderData) -> Seq<char> {
    "<g>\n"@ + spec_legend_rows(rd, rd.wedges@.len() as int) + "</g>\n"@
}

/// The whole document, in its fixed order.
pub open spec fn spec_document(rd: RenderData, eps: Seq<WedgeEndpoints>) -> Seq<char> {
    spec_header(rd) + spec_style_block(rd) + spec_pie_group(rd, eps) + spec_title_elem(rd)
        + spec_legend_group(rd) + "</svg>\n"@
}

/// The arc's large-arc flag: `1` exactly when the share `value / total`
/// exceeds one half, `0` otherwise (in particular whenever the total is
/// zero, when every share counts as zero).
pub fn large_arc_flag(value: u64, total: u64) -> (f: u64)
    ensures
        f as int == spec_large_arc_flag(value as int, total as int),
        (f == 1) <==> (total > 0 && 2 * value > total),
{
    if total > 0 && 2 * (value as u128) > total as u128 {
        1
    } else {
        0
    }
}

/// The legend percentage of a share `value / total` with `value <= total`:
/// one hundred times the share, rounded to the nearest whole number, halves
/// up. Never more than one hundred.
pub fn percent_of(value: u64, total: u64) -> (p: u64)
    requires
        value <= total,
    ensures
        p as int == spec_percent(value as int, total as int),
        p <= 100,
{
    if total == 0 {
        0
    } else {
        let num: u128 = 200 * (value as u128) + total as u128;
        let den: u128 = 2 * (total as u128);
        proof {
            lemma_div_is_ordered(
                200 * (value as int) + total as int,
                201 * (total as int),
                2 * (total as int),
            );
            assert(201 * (total as int) / (2 * (total as int)) <= 100) by (nonlinear_arith)
                requires
                    total as int > 0,
            ;
        }
        (num / den) as u64
    }
}

fn doc_width(rd: &RenderData) -> (w: u64)
    ensures
        w as int == spec_doc_width(*rd),
{
    rd.gutter.left as u64 + rd.pie_diameter as u64 + rd.gutter.right as u64
}

fn doc_height(rd: &RenderData) -> (h: u64)
    ensures
        h as int == spec_doc_height(*rd),
{
    rd.gutter.top as u64 + rd.pie_diameter as u64 + rd.legend_gutter.top as u64
        + rd.legend_gutter.bottom as u64 + rd.legend_height as u64 + rd.gutter.bottom as u64
}

fn header_markup(rd: &RenderData) -> (s: String)
    ensures
        s@ == spec_header(*rd),
{
    let w = doc_width(rd);
    let h = doc_height(rd);
    let w_text = dec_string(w as u128);
    let h_text = dec_string(h as u128);
    let mut s = String::from_str("<svg xmlns=\"http://www.w3.org/2000/svg\" width=\"");
    s.append(w_text.as_str());
    s.append("\" height=\"");
    s.append(h_text.as_str());
    s.append("\" viewBox=\"0 0 ");
    s.append(w_text.as_str());
    s.append(" ");
    s.append(h_text.as_str());
    s.append("\" style=\"background-color: white;\">\n");
    s
}

fn styles_joined(styles: &Vec<String>, n: usize) -> (s: String)
    requires
        n <= styles@.len(),
    ensures
        s@ == spec_styles_joined(styles@, n as int),
    decreases n,
{
    if n == 0 {
        String::new()
    } else if n == 1 {
        String::from_str(styles[0].as_str())
    } else {
        let mut s = styles_joined(styles, n - 1);
        s.append("\n");
        s.append(styles[n - 1].as_str());
        s
    }
}

fn style_block_markup(rd: &RenderData) -> (s: String)
    ensures
        s@ == spec_style_block(*rd),
{
    let mut s = String::from_str("<style>");
    let joined = styles_joined(&rd.styles, rd.styles.len());
    s.append(joined.as_str());
    s.append("</style>\n");
    s
}

fn wedge_path_markup(rd: &RenderData, ep: &WedgeEndpoints, i: usize) -> (s: String)
    requires
        i < rd.wedges@.len(),
    ensures
        s@ == spec_wedge_path(*rd, *ep, i as int),
{
    let cx: u64 = rd.gutter.left as u64 * 1000 + rd.pie_diameter as u64 * 500;
    let cy: u64 = rd.gutter.bottom as u64 * 1000 + rd.pie_diameter as u64 * 500;
    let r: u64 = rd.pie_diameter as u64 * 500;
    let flag = large_arc_flag(rd.wedges[i].value, rd.total);
    let idx_text = dec_string(i as u128);
    let cx_text = milli_string(cx as i64);
    let cy_text = milli_string(cy as i64);
    let r_text = milli_string(r as i64);
    let mut s = String::from_str("<path class=\"wedge-");
    s.append(idx_text.as_str());
    s.append("\" d=\"M ");
    s.append(cx_text.as_str());
    s.append(" ");
    s.append(cy_text.as_str());
    s.append(" L ");
    let sx_text = milli_string(ep.start_x);
    s.append(sx_text.as_str());
    s.append(" ");
    let sy_text = milli_string(ep.start_y);
    s.append(sy_text.as_str());
    s.append(" A ");
    s.append(r_text.as_str());
    s.append(" ");
    s.append(r_text.as_str());
    s.append(" 0 ");
    let flag_text = dec_string(flag as u128);
    s.append(flag_text.as_str());
    s.append(" 1 ");
    let ex_text = milli_string(ep.end_x);
    s.append(ex_text.as_str());
    s.append(" ");
    let ey_text = milli_string(ep.end_y);
    s.append(ey_text.as_str());
    s.append(" Z\"/>\n");
    s
}

fn pie_rows_markup(rd: &RenderData, eps: &Vec<WedgeEndpoints>, n: usize) -> (s: String)
    requires
        n <= rd.wedges@.len(),
        eps@.len() == rd.wedges@.len(),
    ensures
        s@ == spec_pie_rows(*rd, eps@, n as int),
    decreases n,
{
    if n == 0 {
        String::new()
    } else {
        let mut s = pie_rows_markup(rd, eps, n - 1);
        let row = wedge_path_markup(rd, &eps[n - 1], n - 1);
        s.append(row.as_str());
        s
    }
}

fn pie_group_markup(rd: &RenderData, eps: &Vec<WedgeEndpoints>) -> (s: String)
    requires
        eps@.len() == rd.wedges@.len(),
    ensures
        s@ == spec_pie_group(*rd, eps@),
{
    let mut s = String::from_str("<g>\n");
    let rows = pie_rows_markup(rd, eps, rd.wedges.len());
    s.append(rows.as_str());
    s.append("</g>\n");
    s
}

fn title_markup(rd: &RenderData) -> (s: String)
    ensures
        s@ == spec_title_elem(*rd),
{
    let w = doc_width(rd);
    let mut s = String::from_str("<text class=\"title\" x=\"");
    let x_text = milli_string((w * 500) as i64);
    s.append(x_text.as_str());
    s.append("\" y=\"");
    let y_text = milli_string((rd.gutter.top as u64 * 500) as i64);
    s.append(y_text.as_str());
    s.append("\">");
    s.append(rd.title.as_str());
    s.append("</text>\n");
    s
}

fn legend_row_markup(rd: &RenderData, i: usize) -> (s: String)
    requires
        i < rd.wedges@.len(),
        rd.legend_gutter.left + rd.legend_gutter.right <= spec_doc_width(*rd),
    ensures
        s@ == spec_legend_row(*rd, i as int),
{
    let w = doc_width(rd);
    let n = rd.wedges.len();
    let avail: u64 = w - (rd.legend_gutter.left as u64 + rd.legend_gutter.right as u64);
    proof {
        assert((i as int) * (avail as int) <= 0xffff_ffff_ffff_ffff * 0x2_ffff_fffd)
            by (nonlinear_arith)
            requires
                0 <= i as int <= 0xffff_ffff_ffff_ffff,
                0 <= avail as int <= 0x2_ffff_fffd,
        ;
    }
    let num: u128 = (i as u128) * (avail as u128) * 1000;
    let q: u128 = num / (n as u128);
    proof {
        assert((i as int) * (avail as int) * 1000 <= (n as int) * ((avail as int) * 1000))
            by (nonlinear_arith)
            requires
                0 <= i as int <= n as int,
                0 <= avail as int,
        ;
        lemma_div_is_ordered(
            (i as int) * (avail as int) * 1000,
            (n as int) * ((avail as int) * 1000),
            n as int,
        );
        lemma_div_multiples_vanish((avail as int) * 1000, n as int);
    }
    let x: u64 = rd.legend_gutter.left as u64 * 1000 + (q as u64);
    let x_text = milli_string(x as i64);
    let idx_text = dec_string(i as u128);
    let rect_y: u64 = rd.gutter.top as u64 + rd.pie_diameter as u64 + rd.legend_gutter.top as u64;
    let text_y: u64 = rect_y + 2 * rd.legend_height as u64;
    let rect_y_text = dec_string(rect_y as u128);
    let corner_text = dec_string(rd.rect_corner_radius as u128);
    let height_text = dec_string(rd.legend_height as u128);
    let mut s = String::from_str("<rect class=\"wedge-");
    s.append(idx_text.as_str());
    s.append("\" x=\"");
    s.append(x_text.as_str());
    s.append("\" y=\"");
    s.append(rect_y_text.as_str());
    s.append("\" rx=\"");
    s.append(corner_text.as_str());
    s.append("\" ry=\"");
    s.append(corner_text.as_str());
    s.append("\" width=\"");
    s.append(height_text.as_str());
    s.append("\" height=\"");
    s.append(height_text.as_str());
    s.append("\"/>\n");
    s.append("<text class=\"legend\" x=\"");
    s.append(x_text.as_str());
    s.append("\" y=\"");
    let text_y_text = dec_string(text_y as u128);
    s.append(text_y_text.as_str());
    s.append("\">");
    s.append(rd.wedges[i].title.as_str());
    s.append(" (");
    let pct: u128 = if rd.total > 0 {
        (200 * (rd.wedges[i].value as u128) + rd.total as u128) / (2 * (rd.total as u128))
    } else {
        0
    };
    let pct_text = dec_string(pct);
    s.append(pct_text.as_str());
    s.append("%)</text>\n");
    s
}

fn legend_rows_markup(rd: &RenderData, n: usize) -> (s: String)
    requires
        n <= rd.wedges@.len(),
        rd.legend_gutter.left + rd.legend_gutter.right <= spec_doc_width(*rd),
    ensures
        s@ == spec_legend_rows(*rd, n as int),
    decreases n,
{
    if n == 0 {
        String::new()
    } else {
        let mut s = legend_rows_markup(rd, n - 1);
        let row = legend_row_markup(rd, n - 1);
        s.append(row.as_str());
        s
    }
}

fn legend_group_markup(rd: &RenderData) -> (s: String)
    requires
        rd.legend_gutter.left + rd.legend_gutter.right <= spec_doc_width(*rd),
    ensures
        s@ == spec_legend_group(*rd),
{
    let mut s = String::from_str("<g>\n");
    let rows = legend_rows_markup(rd, rd.wedges.len());
    s.append(rows.as_str());
    s.append("</g>\n");
    s
}

impl PieChartTool {
    /// The markup emitter: the finished SVG document for this render model
    /// and these arc endpoints, exactly [`spec_document`]. The legend gutter
    /// must fit inside the document width (the layout engine's fixed
    /// constants always do).
    pub fn render_chart(&self, rd: &RenderData, endpoints: &Vec<WedgeEndpoints>) -> (doc: String)
        requires
            endpoints@.len() == rd.wedges@.len(),
            rd.legend_gutter.left + rd.legend_gutter.right <= spec_doc_width(*rd),
        ensures
            doc@ == spec_document(*rd, endpoints@),
    {
        let mut doc = header_markup(rd);
        let styles = style_block_markup(rd);
        doc.append(styles.as_str());
        let pie = pie_group_markup(rd, endpoints);
        doc.append(pie.as_str());
        let title = title_markup(rd);
        doc.append(title.as_str());
        let legend = legend_group_markup(rd);
        doc.append(legend.as_str());
        doc.append("</svg>\n");
        doc
    }
}

} // verus!
