use pie_chart::data::{ChartData, Gutter, ItemData};
use pie_chart::layout::PieChartTool;
use pie_chart::markup::{large_arc_flag, percent_of, WedgeEndpoints};

fn item(key: &str, value: u64) -> ItemData {
    ItemData { key: String::from(key), value }
}

fn chart(title: &str, items: Vec<ItemData>) -> ChartData {
    ChartData { title: String::from(title), items }
}

#[test]
fn round_trip_two_items() {
    let cd = chart("T", vec![item("A", 1), item("B", 3)]);
    let tool = PieChartTool::new();
    let rd = tool.process_chart_data_seeded(&cd, 0);
    assert_eq!(rd.title, "T");
    assert_eq!(rd.total, 4);
    assert_eq!(rd.wedges.len(), 2);
    assert_eq!(rd.wedges[0].title, "A");
    assert_eq!(rd.wedges[0].value, 1);
    assert_eq!(rd.wedges[0].start_offset, 0);
    assert_eq!(rd.wedges[1].title, "B");
    assert_eq!(rd.wedges[1].value, 3);
    assert_eq!(rd.wedges[1].start_offset, 1);
    // Sweeps of 90 and 270 degrees: 360 * value / total.
    assert_eq!(360 * rd.wedges[0].value / rd.total, 90);
    assert_eq!(360 * rd.wedges[1].value / rd.total, 270);
    // Wedge A covers a quarter, wedge B three quarters.
    assert_eq!(percent_of(1, 4), 25);
    assert_eq!(percent_of(3, 4), 75);
    assert_eq!(large_arc_flag(1, 4), 0);
    assert_eq!(large_arc_flag(3, 4), 1);
}

#[test]
fn wedges_are_contiguous() {
    let cd = chart("C", vec![item("a", 7), item("b", 0), item("c", 5), item("d", 2)]);
    let tool = PieChartTool::new();
    let rd = tool.process_chart_data_seeded(&cd, 99);
    assert_eq!(rd.wedges[0].start_offset, 0);
    for i in 0..rd.wedges.len() - 1 {
        assert_eq!(
            rd.wedges[i].start_offset + rd.wedges[i].value,
            rd.wedges[i + 1].start_offset
        );
    }
    let last = rd.wedges.last().unwrap();
    assert_eq!(last.start_offset + last.value, rd.total);
    assert_eq!(rd.total, 14);
}

#[test]
fn layout_constants() {
    let cd = chart("K", vec![item("x", 2)]);
    let tool = PieChartTool::new();
    let rd = tool.process_chart_data_seeded(&cd, 5);
    assert_eq!(rd.pie_diameter, 400);
    assert_eq!(rd.gutter.left, 40);
    assert_eq!(rd.gutter.top, 40);
    assert_eq!(rd.gutter.right, 40);
    assert_eq!(rd.gutter.bottom, 40);
    assert_eq!(rd.legend_gutter.left, 10);
    assert_eq!(rd.legend_height, 20);
    assert_eq!(rd.rect_corner_radius, 3);
    assert_eq!(rd.gutter.width(), 80);
    assert_eq!(rd.gutter.height(), 80);
    assert_eq!(rd.legend_gutter.width(), 20);
    assert_eq!(rd.legend_gutter.height(), 20);
}

#[test]
fn gutter_sums() {
    let g = Gutter { left: 1, top: 2, right: 3, bottom: 4 };
    assert_eq!(g.width(), 4);
    assert_eq!(g.height(), 6);
}

#[test]
fn seeded_styles() {
    let cd = chart("S", vec![item("a", 1), item("b", 1), item("c", 1)]);
    let tool = PieChartTool::new();
    let rd = tool.process_chart_data_seeded(&cd, 0);
    assert_eq!(rd.styles.len(), 6);
    assert_eq!(
        rd.styles[0],
        ".labels{fill:rgb(0,0,0);font-size:10;font-family:Arial}"
    );
    assert_eq!(
        rd.styles[1],
        ".title{font-family:Arial;font-size:12;text-anchor:middle;}"
    );
    assert_eq!(
        rd.styles[2],
        ".legend{font-family:Arial;font-size:12pt;text-anchor:left;}"
    );
    assert_eq!(rd.styles[3], ".wedge-0{fill:#804040;stroke-width:0}");
    assert_eq!(rd.styles[4], ".wedge-1{fill:#405280;stroke-width:0}");
    assert_eq!(rd.styles[5], ".wedge-2{fill:#658040;stroke-width:0}");
}

#[test]
fn random_seed_layout_is_still_exact() {
    let cd = chart("R", vec![item("a", 2), item("b", 6)]);
    let tool = PieChartTool::new();
    let rd = tool.process_chart_data(&cd);
    assert_eq!(rd.total, 8);
    assert_eq!(rd.wedges.len(), 2);
    assert_eq!(rd.wedges[1].start_offset, 2);
    assert_eq!(rd.styles.len(), 5);
    assert!(rd.styles[3].starts_with(".wedge-0{fill:#"));
    assert!(rd.styles[3].ends_with(";stroke-width:0}"));
}

#[test]
fn empty_dataset_renders_frame_only() {
    let cd = chart("Empty", vec![]);
    let tool = PieChartTool::new();
    let rd = tool.process_chart_data_seeded(&cd, 0);
    assert_eq!(rd.wedges.len(), 0);
    assert_eq!(rd.total, 0);
    assert_eq!(rd.styles.len(), 3);
    let doc = tool.render_chart(&rd, &vec![]);
    assert!(doc.starts_with("<svg xmlns=\"http://www.w3.org/2000/svg\" width=\"480\" height=\"520\" viewBox=\"0 0 480 520\" style=\"background-color: white;\">\n"));
    assert!(doc.contains("<style>"));
    assert!(doc.contains("<text class=\"title\" x=\"240.000\" y=\"20.000\">Empty</text>"));
    assert!(doc.ends_with("</svg>\n"));
    assert!(!doc.contains("<path"));
    assert!(!doc.contains("<rect"));
}

#[test]
fn empty_dataset_document_is_exact() {
    let cd = chart("Empty", vec![]);
    let tool = PieChartTool::new();
    let rd = tool.process_chart_data_seeded(&cd, 0);
    let doc = tool.render_chart(&rd, &vec![]);
    assert_eq!(
        doc,
        "<svg xmlns=\"http://www.w3.org/2000/svg\" width=\"480\" height=\"520\" viewBox=\"0 0 480 520\" style=\"background-color: white;\">\n\
         <style>.labels{fill:rgb(0,0,0);font-size:10;font-family:Arial}\n\
         .title{font-family:Arial;font-size:12;text-anchor:middle;}\n\
         .legend{font-family:Arial;font-size:12pt;text-anchor:left;}</style>\n\
         <g>\n\
         </g>\n\
         <text class=\"title\" x=\"240.000\" y=\"20.000\">Empty</text>\n\
         <g>\n\
         </g>\n\
         </svg>\n"
    );
}

#[test]
fn legend_columns_divide_evenly() {
    // Three columns across the 460 usable pixels: the division keeps
    // thousandths and rounds the rest down.
    let cd = chart("L", vec![item("a", 1), item("b", 1), item("c", 1)]);
    let tool = PieChartTool::new();
    let rd = tool.process_chart_data_seeded(&cd, 0);
    let ep = WedgeEndpoints { start_x: 0, start_y: 0, end_x: 0, end_y: 0 };
    let doc = tool.render_chart(&rd, &vec![ep, ep, ep]);
    assert!(doc.contains("<rect class=\"wedge-0\" x=\"10.000\""));
    assert!(doc.contains("<rect class=\"wedge-1\" x=\"163.333\""));
    assert!(doc.contains("<rect class=\"wedge-2\" x=\"316.666\""));
}

#[test]
fn document_structure_two_items() {
    let cd = chart("T", vec![item("A", 1), item("B", 3)]);
    let tool = PieChartTool::new();
    let rd = tool.process_chart_data_seeded(&cd, 0);
    // Arc endpoints for a quarter then three quarters, starting at twelve
    // o'clock on a circle centered at (240, 240) with radius 200, in
    // thousandths of a pixel.
    let endpoints = vec![
        WedgeEndpoints { start_x: 240_000, start_y: 40_000, end_x: 440_000, end_y: 240_000 },
        WedgeEndpoints { start_x: 440_000, start_y: 240_000, end_x: 240_000, end_y: 40_000 },
    ];
    let doc = tool.render_chart(&rd, &endpoints);
    assert!(doc.contains(
        "<path class=\"wedge-0\" d=\"M 240.000 240.000 L 240.000 40.000 A 200.000 200.000 0 0 1 440.000 240.000 Z\"/>\n"
    ));
    assert!(doc.contains(
        "<path class=\"wedge-1\" d=\"M 240.000 240.000 L 440.000 240.000 A 200.000 200.000 0 1 1 240.000 40.000 Z\"/>\n"
    ));
    assert!(doc.contains(
        "<rect class=\"wedge-0\" x=\"10.000\" y=\"450\" rx=\"3\" ry=\"3\" width=\"20\" height=\"20\"/>\n"
    ));
    assert!(doc.contains("<text class=\"legend\" x=\"10.000\" y=\"490\">A (25%)</text>\n"));
    assert!(doc.contains(
        "<rect class=\"wedge-1\" x=\"240.000\" y=\"450\" rx=\"3\" ry=\"3\" width=\"20\" height=\"20\"/>\n"
    ));
    assert!(doc.contains("<text class=\"legend\" x=\"240.000\" y=\"490\">B (75%)</text>\n"));
    assert!(doc.contains("<style>.labels{fill:rgb(0,0,0);font-size:10;font-family:Arial}\n"));
}

#[test]
fn single_item_full_circle() {
    let cd = chart("One", vec![item("X", 5)]);
    let tool = PieChartTool::new();
    let rd = tool.process_chart_data_seeded(&cd, 0);
    // A single positive item has the whole pie: its share is 1.0, which
    // exceeds one half, so the large-arc flag is set.
    assert_eq!(large_arc_flag(5, 5), 1);
    assert_eq!(percent_of(5, 5), 100);
    // The arc's start and end coincide at twelve o'clock; the document keeps
    // the coincident endpoints and the set flag (some renderers will not
    // paint a full circle from them, a limitation of that path form).
    let a = (-90f64).to_radians();
    let sx = (1000.0 * (240.0 + 200.0 * a.cos())).round() as i64;
    let sy = (1000.0 * (240.0 + 200.0 * a.sin())).round() as i64;
    let endpoints = vec![WedgeEndpoints { start_x: sx, start_y: sy, end_x: sx, end_y: sy }];
    let doc = tool.render_chart(&rd, &endpoints);
    assert!(doc.contains(
        "<path class=\"wedge-0\" d=\"M 240.000 240.000 L 240.000 40.000 A 200.000 200.000 0 1 1 240.000 40.000 Z\"/>\n"
    ));
    assert!(doc.contains(">X (100%)</text>"));
}

#[test]
fn zero_total_is_guarded() {
    let cd = chart("Z", vec![item("a", 0), item("b", 0)]);
    let tool = PieChartTool::new();
    let rd = tool.process_chart_data_seeded(&cd, 1);
    assert_eq!(rd.total, 0);
    assert_eq!(large_arc_flag(0, 0), 0);
    assert_eq!(percent_of(0, 0), 0);
    let endpoints = vec![
        WedgeEndpoints { start_x: 240_000, start_y: 40_000, end_x: 240_000, end_y: 40_000 },
        WedgeEndpoints { start_x: 240_000, start_y: 40_000, end_x: 240_000, end_y: 40_000 },
    ];
    let doc = tool.render_chart(&rd, &endpoints);
    assert!(doc.contains(">a (0%)</text>"));
    assert!(doc.contains(">b (0%)</text>"));
    assert!(doc.contains("A 200.000 200.000 0 0 1"));
    assert!(!doc.contains("A 200.000 200.000 0 1 1"));
}

#[test]
fn percent_rounds_to_nearest() {
    // One third renders as 33, not a truncated 33.33; two thirds as 67.
    assert_eq!(percent_of(1, 3), 33);
    assert_eq!(percent_of(2, 3), 67);
    // Halves round up.
    assert_eq!(percent_of(1, 8), 13);
    assert_eq!(percent_of(0, 7), 0);
    assert_eq!(percent_of(7, 7), 100);
}

#[test]
fn legend_percent_in_document() {
    let cd = chart("P", vec![item("A", 1), item("B", 2)]);
    let tool = PieChartTool::new();
    let rd = tool.process_chart_data_seeded(&cd, 0);
    let ep = WedgeEndpoints { start_x: 0, start_y: 0, end_x: 0, end_y: 0 };
    let doc = tool.render_chart(&rd, &vec![ep, ep]);
    assert!(doc.contains(">A (33%)</text>"));
    assert!(doc.contains(">B (67%)</text>"));
}

#[test]
fn endpoints_are_spliced_exactly() {
    let cd = chart("E", vec![item("w", 9)]);
    let tool = PieChartTool::new();
    let rd = tool.process_chart_data_seeded(&cd, 0);
    let endpoints = vec![WedgeEndpoints {
        start_x: 1_234,
        start_y: -500,
        end_x: 0,
        end_y: 42,
    }];
    let doc = tool.render_chart(&rd, &endpoints);
    assert!(doc.contains("L 1.234 -0.500 A "));
    assert!(doc.contains(" 1 0.000 0.042 Z\"/>"));
}
