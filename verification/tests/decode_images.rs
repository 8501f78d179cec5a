use image::{ImageFormat, Rgb, RgbImage};
use sensor_telemetry::state::SimState;
use std::io::Cursor;

fn encode_png(img: &RgbImage) -> Vec<u8> {
    let mut buf = Cursor::new(Vec::new());
    img.write_to(&mut buf, ImageFormat::Png).expect("in-memory png encoding");
    buf.into_inner()
}

#[test]
fn decoded_image_builds_model() {
    let mut img = RgbImage::new(1024, 600);
    img.put_pixel(0, 0, Rgb([100, 0, 0]));
    img.put_pixel(1, 0, Rgb([0, 150, 0]));
    img.put_pixel(0, 1, Rgb([0, 200, 0]));
    img.put_pixel(1, 1, Rgb([0, 0, 250]));
    let bytes = encode_png(&img);

    let sim = SimState::new_state(&bytes).expect("a reference-size image must be accepted");
    assert_eq!(sim.read_value(0), (100u16 << 8) | 150);
    assert_eq!(sim.read_value(8), (200u16 << 8) | 250);
    assert_eq!(sim.read_value(1), 0);
}

#[test]
fn decoded_image_row_order_matters() {
    // A pixel far from the origin lands at the address its coordinate maps
    // to: (512, 300) sits in block column 32, block row 37, in-block row 4.
    let mut img = RgbImage::new(1024, 600);
    img.put_pixel(512, 300, Rgb([77, 0, 0]));
    let bytes = encode_png(&img);
    let sim = SimState::new_state(&bytes).expect("a reference-size image must be accepted");
    let addr = sensor_telemetry::geometry::addr_from_x_y(512, 300);
    assert_eq!(sim.read_value(addr), 77u16 << 8);
}

#[test]
fn wrong_dimensions_rejected() {
    let img = RgbImage::new(10, 10);
    let bytes = encode_png(&img);
    assert!(SimState::new_state(&bytes).is_none());
}

#[test]
fn undecodable_bytes_rejected() {
    assert!(SimState::new_state(&[1, 2, 3, 4]).is_none());
    assert!(SimState::new_state(&[]).is_none());
}
