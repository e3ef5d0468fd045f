use receipt_raster::document::{Alignment, ContentElement, TextLine, Weight};
use receipt_raster::error::ReceiptError;
use receipt_raster::geometry::CanvasGeometry;
use receipt_raster::layout::{
    glyph_run_text, glyph_scale_px, layout_document, DrawCommand, LayoutConfig, LayoutState,
    LineAdvance,
};

fn printer_geometry() -> CanvasGeometry {
    CanvasGeometry {
        width_px: 634,
        height_px: 1000,
        dpi: 203,
        printable_width_px: 529,
        left_margin_px: 10,
        right_margin_px: 10,
    }
}

fn size_driven(initial_y: i32) -> LayoutConfig {
    LayoutConfig { initial_y, line_advance: LineAdvance::FontSize }
}

fn text(content: &str, point_size: i32, alignment: Alignment, indent_px: i32) -> ContentElement {
    ContentElement::Text(TextLine {
        content: String::from(content),
        point_size,
        weight: Weight::Bold,
        alignment,
        indent_px,
        simulated_bold: true,
    })
}

#[test]
fn centered_title_is_struck_twice_and_advances_by_its_height() {
    let document = vec![text("TABLE M1", 12, Alignment::Center, 0)];
    let measured_width = 181;
    let layout =
        layout_document(&document, &vec![measured_width], &printer_geometry(), &size_driven(10))
            .unwrap();
    let x = (529 - measured_width) / 2;
    assert_eq!(x, 174);
    assert_eq!(
        layout.commands,
        vec![
            DrawCommand::GlyphRun { element: 0, x, y: 10, scale_px: 45, weight: Weight::Bold },
            DrawCommand::GlyphRun { element: 0, x: x + 1, y: 10, scale_px: 45, weight: Weight::Bold },
        ]
    );
    assert_eq!(layout.final_y, 10 + 45);
}

#[test]
fn empty_document_draws_nothing_and_keeps_the_cursor() {
    let document: Vec<ContentElement> = Vec::new();
    let layout =
        layout_document(&document, &Vec::new(), &printer_geometry(), &size_driven(10)).unwrap();
    assert!(layout.commands.is_empty());
    assert_eq!(layout.final_y, 10);
}

#[test]
fn zero_point_size_is_an_invalid_layout_parameter() {
    let document = vec![text("TABLE M1", 0, Alignment::Center, 0)];
    assert_eq!(
        layout_document(&document, &vec![100], &printer_geometry(), &size_driven(10)),
        Err(ReceiptError::InvalidLayoutParameter)
    );
}

#[test]
fn negative_point_size_is_an_invalid_layout_parameter() {
    let document = vec![
        text("fine", 12, Alignment::Left, 0),
        ContentElement::Rule,
        text("broken", -3, Alignment::Left, 0),
    ];
    assert_eq!(
        layout_document(&document, &vec![40, 0, 60], &printer_geometry(), &size_driven(0)),
        Err(ReceiptError::InvalidLayoutParameter)
    );
}

#[test]
fn failed_placement_changes_neither_state_nor_commands() {
    let mut state = LayoutState::new(printer_geometry(), size_driven(33));
    let mut commands = vec![DrawCommand::HorizontalLine { from_x: 1, to_x: 2, y: 3 }];
    let before = state;
    let placed = state.place(&text("x", 0, Alignment::Left, 0), 0, 5, &mut commands);
    assert_eq!(placed, Err(ReceiptError::InvalidLayoutParameter));
    assert_eq!(state, before);
    assert_eq!(commands, vec![DrawCommand::HorizontalLine { from_x: 1, to_x: 2, y: 3 }]);
}

#[test]
fn missing_widths_are_unavailable_glyph_metrics() {
    let document = vec![text("a", 12, Alignment::Left, 0), text("b", 12, Alignment::Left, 0)];
    assert_eq!(
        layout_document(&document, &vec![7], &printer_geometry(), &size_driven(0)),
        Err(ReceiptError::GlyphMetricsUnavailable)
    );
    assert_eq!(
        layout_document(&document, &vec![7, 8, 9], &printer_geometry(), &size_driven(0)),
        Err(ReceiptError::GlyphMetricsUnavailable)
    );
}

#[test]
fn missing_widths_are_reported_before_invalid_sizes() {
    let document = vec![text("a", 0, Alignment::Left, 0)];
    assert_eq!(
        layout_document(&document, &Vec::new(), &printer_geometry(), &size_driven(0)),
        Err(ReceiptError::GlyphMetricsUnavailable)
    );
}

#[test]
fn left_aligned_text_starts_at_margin_plus_indent() {
    let document = vec![text("item", 14, Alignment::Left, 25)];
    let layout =
        layout_document(&document, &vec![90], &printer_geometry(), &size_driven(0)).unwrap();
    assert_eq!(
        layout.commands[0],
        DrawCommand::GlyphRun { element: 0, x: 35, y: 0, scale_px: 52, weight: Weight::Bold }
    );
}

#[test]
fn right_aligned_text_ends_at_margin_and_indent() {
    let width = 123;
    let indent = 7;
    let document = vec![text("9.50", 14, Alignment::Right, indent)];
    let layout =
        layout_document(&document, &vec![width], &printer_geometry(), &size_driven(0)).unwrap();
    match layout.commands[0] {
        DrawCommand::GlyphRun { x, .. } => {
            assert_eq!(x, 389);
            assert_eq!(x + width + 10 + indent, 529);
        }
        _ => panic!("a text line gives a glyph run"),
    }
}

#[test]
fn centered_text_is_symmetric_within_one_pixel() {
    for width in [0, 1, 2, 100, 101, 528, 529, 530, 531, 1000] {
        let document = vec![text("c", 12, Alignment::Center, 0)];
        let layout =
            layout_document(&document, &vec![width], &printer_geometry(), &size_driven(0)).unwrap();
        match layout.commands[0] {
            DrawCommand::GlyphRun { x, .. } => {
                let room_left = x;
                let room_right = 529 - (x + width);
                assert!((room_right - room_left).abs() <= 1);
            }
            _ => panic!("a text line gives a glyph run"),
        }
    }
}

#[test]
fn centering_a_text_wider_than_the_paper_rounds_toward_zero() {
    let document = vec![text("wide", 12, Alignment::Center, 0)];
    let layout =
        layout_document(&document, &vec![532], &printer_geometry(), &size_driven(0)).unwrap();
    match layout.commands[0] {
        DrawCommand::GlyphRun { x, .. } => assert_eq!(x, -1),
        _ => panic!("a text line gives a glyph run"),
    }
}

#[test]
fn equal_lines_advance_by_their_height_each() {
    let mut document = Vec::new();
    let mut widths = Vec::new();
    for _ in 0..7 {
        document.push(text("line", 14, Alignment::Left, 0));
        widths.push(50);
    }
    let layout = layout_document(&document, &widths, &printer_geometry(), &size_driven(10)).unwrap();
    assert_eq!(layout.final_y, 10 + 7 * 52);
    assert_eq!(layout.commands.len(), 14);
    match layout.commands[13] {
        DrawCommand::GlyphRun { element, y, .. } => {
            assert_eq!(element, 6);
            assert_eq!(y, 10 + 6 * 52);
        }
        _ => panic!("a text line gives a glyph run"),
    }
}

#[test]
fn fixed_pitch_advances_by_the_pitch_whatever_the_size() {
    let config = LayoutConfig {
        initial_y: 0,
        line_advance: LineAdvance::FixedPitch { nominal_line_height: 18 },
    };
    let document = vec![
        text("big", 36, Alignment::Left, 0),
        text("small", 8, Alignment::Left, 0),
    ];
    let layout = layout_document(&document, &vec![10, 10], &printer_geometry(), &config).unwrap();
    assert_eq!(layout.final_y, 2 * 50);
    match layout.commands[2] {
        DrawCommand::GlyphRun { y, scale_px, .. } => {
            assert_eq!(y, 50);
            assert_eq!(scale_px, 30);
        }
        _ => panic!("a text line gives a glyph run"),
    }
}

#[test]
fn rule_spans_the_margins_and_keeps_the_cursor() {
    let document = vec![ContentElement::Rule];
    let layout =
        layout_document(&document, &vec![0], &printer_geometry(), &size_driven(77)).unwrap();
    assert_eq!(
        layout.commands,
        vec![DrawCommand::HorizontalLine { from_x: 10, to_x: 519, y: 77 }]
    );
    assert_eq!(layout.final_y, 77);
}

#[test]
fn vertical_space_moves_the_cursor_and_draws_nothing() {
    let document = vec![
        ContentElement::VerticalSpace { amount_px: 20 },
        ContentElement::Rule,
        ContentElement::VerticalSpace { amount_px: -5 },
    ];
    let layout =
        layout_document(&document, &vec![0, 0, 0], &printer_geometry(), &size_driven(10)).unwrap();
    assert_eq!(
        layout.commands,
        vec![DrawCommand::HorizontalLine { from_x: 10, to_x: 519, y: 30 }]
    );
    assert_eq!(layout.final_y, 25);
}

#[test]
fn empty_text_still_takes_its_line() {
    let document = vec![text("", 12, Alignment::Left, 0)];
    let layout = layout_document(&document, &vec![0], &printer_geometry(), &size_driven(0)).unwrap();
    assert_eq!(layout.final_y, 45);
    assert_eq!(layout.commands.len(), 2);
}

#[test]
fn without_simulated_bold_a_line_is_struck_once() {
    let document = vec![ContentElement::Text(TextLine {
        content: String::from("plain"),
        point_size: 12,
        weight: Weight::Regular,
        alignment: Alignment::Left,
        indent_px: 0,
        simulated_bold: false,
    })];
    let layout = layout_document(&document, &vec![60], &printer_geometry(), &size_driven(5)).unwrap();
    assert_eq!(
        layout.commands,
        vec![DrawCommand::GlyphRun { element: 0, x: 10, y: 5, scale_px: 45, weight: Weight::Regular }]
    );
}

#[test]
fn server_request_receipt_lays_out_as_printed() {
    let document = vec![
        text("M1", 36, Alignment::Center, 0),
        ContentElement::VerticalSpace { amount_px: 20 },
        text("SERVER REQUEST", 16, Alignment::Center, 0),
        ContentElement::VerticalSpace { amount_px: 10 },
        text("CHANGE GRILL", 14, Alignment::Center, 0),
        text("2 ICE WATER", 14, Alignment::Center, 0),
        text("2 DISHES", 14, Alignment::Center, 0),
        text("2 WET TOWELS", 14, Alignment::Center, 0),
        ContentElement::VerticalSpace { amount_px: 20 },
        text("Thank You", 12, Alignment::Center, 0),
        ContentElement::Rule,
    ];
    let widths = vec![129, 0, 461, 0, 347, 300, 215, 356, 0, 190, 0];
    let layout = layout_document(&document, &widths, &printer_geometry(), &size_driven(10)).unwrap();
    assert_eq!(layout.final_y, 508);
    assert_eq!(layout.commands.len(), 15);
    assert_eq!(
        layout.commands[0],
        DrawCommand::GlyphRun { element: 0, x: 200, y: 10, scale_px: 135, weight: Weight::Bold }
    );
    assert_eq!(
        layout.commands[5],
        DrawCommand::GlyphRun { element: 4, x: 92, y: 235, scale_px: 52, weight: Weight::Bold }
    );
    assert_eq!(
        layout.commands[14],
        DrawCommand::HorizontalLine { from_x: 10, to_x: 519, y: 508 }
    );
}

#[test]
fn cursor_beyond_the_canvas_is_no_error() {
    let document = vec![
        ContentElement::VerticalSpace { amount_px: 5000 },
        text("below", 12, Alignment::Left, 0),
    ];
    let layout = layout_document(&document, &vec![0, 30], &printer_geometry(), &size_driven(0)).unwrap();
    assert_eq!(layout.final_y, 5045);
}

#[test]
fn cursor_beyond_the_coordinate_range_is_an_error() {
    let document = vec![ContentElement::VerticalSpace { amount_px: 1 }];
    assert_eq!(
        layout_document(&document, &vec![0], &printer_geometry(), &size_driven(i32::MAX)),
        Err(ReceiptError::InvalidLayoutParameter)
    );
    let up = vec![ContentElement::VerticalSpace { amount_px: -1 }];
    assert_eq!(
        layout_document(&up, &vec![0], &printer_geometry(), &size_driven(i32::MIN)),
        Err(ReceiptError::InvalidLayoutParameter)
    );
}

#[test]
fn second_strike_beyond_the_coordinate_range_is_an_error() {
    let document = vec![text("far", 12, Alignment::Left, i32::MAX - 10)];
    assert_eq!(
        layout_document(&document, &vec![0], &printer_geometry(), &size_driven(0)),
        Err(ReceiptError::InvalidLayoutParameter)
    );
    let nearer = vec![text("far", 12, Alignment::Left, i32::MAX - 11)];
    assert!(layout_document(&nearer, &vec![0], &printer_geometry(), &size_driven(0)).is_ok());
}

#[test]
fn glyph_height_beyond_the_coordinate_range_is_an_error() {
    let mut geometry = printer_geometry();
    geometry.dpi = u32::MAX;
    let document = vec![text("huge", 1000, Alignment::Left, 0)];
    assert_eq!(
        layout_document(&document, &vec![0], &geometry, &size_driven(0)),
        Err(ReceiptError::InvalidLayoutParameter)
    );
}

#[test]
fn rule_end_beyond_the_coordinate_range_is_an_error() {
    let mut geometry = printer_geometry();
    geometry.printable_width_px = u32::MAX;
    assert_eq!(
        layout_document(&vec![ContentElement::Rule], &vec![0], &geometry, &size_driven(0)),
        Err(ReceiptError::InvalidLayoutParameter)
    );
}

#[test]
fn same_document_lays_out_the_same_twice() {
    let document = vec![
        text("M1", 36, Alignment::Center, 0),
        ContentElement::Rule,
        text("total", 14, Alignment::Right, 4),
    ];
    let widths = vec![129, 0, 88];
    let first = layout_document(&document, &widths, &printer_geometry(), &size_driven(10));
    let second = layout_document(&document.clone(), &widths, &printer_geometry(), &size_driven(10));
    assert_eq!(first, second);
}

#[test]
fn glyph_scale_is_the_pixel_height_of_the_size() {
    assert_eq!(glyph_scale_px(12, 203), Ok(45));
    assert_eq!(glyph_scale_px(36, 203), Ok(135));
    assert_eq!(glyph_scale_px(0, 203), Err(ReceiptError::InvalidLayoutParameter));
    assert_eq!(glyph_scale_px(-4, 203), Err(ReceiptError::InvalidLayoutParameter));
    assert_eq!(glyph_scale_px(i32::MAX, 203), Err(ReceiptError::InvalidLayoutParameter));
}

#[test]
fn glyph_run_text_is_the_content_of_a_text_line() {
    let document = vec![text("M1", 36, Alignment::Center, 0), ContentElement::Rule];
    assert_eq!(glyph_run_text(&document, 0), Some("M1"));
    assert_eq!(glyph_run_text(&document, 1), None);
    assert_eq!(glyph_run_text(&document, 2), None);
}

#[test]
fn placing_elements_one_by_one_matches_the_whole_layout() {
    let document = vec![
        text("a", 12, Alignment::Left, 0),
        ContentElement::Rule,
        ContentElement::VerticalSpace { amount_px: 3 },
    ];
    let widths = vec![9, 0, 0];
    let mut state = LayoutState::new(printer_geometry(), size_driven(10));
    let mut commands = Vec::new();
    for (index, element) in document.iter().enumerate() {
        assert_eq!(state.place(element, index, widths[index], &mut commands), Ok(()));
    }
    let layout = layout_document(&document, &widths, &printer_geometry(), &size_driven(10)).unwrap();
    assert_eq!(commands, layout.commands);
    assert_eq!(state.current_y, layout.final_y);
    assert_eq!(state.current_y, 58);
}
