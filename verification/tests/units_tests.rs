use receipt_raster::error::ReceiptError;
use receipt_raster::geometry::CanvasGeometry;
use receipt_raster::units::{
    canvas_width_px, line_pitch_px, pixels_per_meter, points_to_pixels, printable_width_px,
};

#[test]
fn points_to_pixels_uses_the_divisor_54() {
    assert_eq!(points_to_pixels(12, 203), 45);
    assert_eq!(points_to_pixels(36, 203), 135);
    assert_eq!(points_to_pixels(16, 203), 60);
    assert_eq!(points_to_pixels(14, 203), 52);
    assert_eq!(points_to_pixels(54, 203), 203);
}

#[test]
fn points_to_pixels_rounds_toward_zero() {
    assert_eq!(points_to_pixels(1, 53), 0);
    assert_eq!(points_to_pixels(1, 54), 1);
    assert_eq!(points_to_pixels(-12, 203), -45);
    assert_eq!(points_to_pixels(-1, 53), 0);
    assert_eq!(points_to_pixels(0, 203), 0);
}

#[test]
fn points_to_pixels_holds_the_largest_inputs() {
    assert_eq!(points_to_pixels(i32::MAX, u32::MAX), 170_803_185_748_376_386);
    assert_eq!(points_to_pixels(i32::MIN, u32::MAX), -170_803_185_827_912_817);
}

#[test]
fn line_pitch_uses_the_divisor_72() {
    assert_eq!(line_pitch_px(12, 203), 33);
    assert_eq!(line_pitch_px(72, 203), 203);
    assert_eq!(line_pitch_px(-12, 203), -33);
    assert_eq!(line_pitch_px(0, 203), 0);
}

#[test]
fn canvas_width_is_the_floor_of_inches_times_dpi() {
    assert_eq!(canvas_width_px(3125, 203), 634);
    assert_eq!(canvas_width_px(1000, 203), 203);
    assert_eq!(canvas_width_px(999, 1), 0);
    assert_eq!(canvas_width_px(0, 203), 0);
}

#[test]
fn printable_width_takes_the_reserved_margin_off() {
    assert_eq!(printable_width_px(634, 105), 529);
    assert_eq!(printable_width_px(100, 100), 0);
    assert_eq!(printable_width_px(10, 25), -15);
}

#[test]
fn pixels_per_meter_follows_the_inch() {
    assert_eq!(pixels_per_meter(203), 7992);
    assert_eq!(pixels_per_meter(254), 10000);
    assert_eq!(pixels_per_meter(0), 0);
}

#[test]
fn geometry_of_the_usual_receipt_printer() {
    let geometry = CanvasGeometry::from_paper(3125, 203, 1000, 105, 10, 10);
    assert_eq!(
        geometry,
        Ok(CanvasGeometry {
            width_px: 634,
            height_px: 1000,
            dpi: 203,
            printable_width_px: 529,
            left_margin_px: 10,
            right_margin_px: 10,
        })
    );
}

#[test]
fn geometry_rejects_a_margin_wider_than_the_canvas() {
    assert_eq!(
        CanvasGeometry::from_paper(1000, 203, 1000, 204, 0, 0),
        Err(ReceiptError::InvalidLayoutParameter)
    );
    assert!(CanvasGeometry::from_paper(1000, 203, 1000, 203, 0, 0).is_ok());
}

#[test]
fn geometry_rejects_a_width_beyond_the_pixel_count() {
    assert_eq!(
        CanvasGeometry::from_paper(u32::MAX, u32::MAX, 1000, 0, 0, 0),
        Err(ReceiptError::InvalidLayoutParameter)
    );
}
