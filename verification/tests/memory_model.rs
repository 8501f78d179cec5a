use sensor_telemetry::geometry::{ADDRESS_COUNT, SENSOR_HEIGHT, SOURCE_WIDTH};
use sensor_telemetry::memory::{quad_channel, SensorMemoryModel, NO_DATA};

fn blank_pixels() -> Vec<(u8, u8, u8)> {
    vec![(0, 0, 0); SOURCE_WIDTH * SENSOR_HEIGHT]
}

fn set_pixel(pixels: &mut [(u8, u8, u8)], x: usize, y: usize, p: (u8, u8, u8)) {
    pixels[y * SOURCE_WIDTH + x] = p;
}

#[test]
fn quad_channel_positions() {
    let p = (10, 20, 30);
    assert_eq!(quad_channel(p, 0, 0), 10);
    assert_eq!(quad_channel(p, 1, 0), 20);
    assert_eq!(quad_channel(p, 0, 1), 20);
    assert_eq!(quad_channel(p, 1, 1), 30);
    assert_eq!(quad_channel(p, 2, 2), 10);
    assert_eq!(quad_channel(p, 3, 3), 30);
}

#[test]
fn quad_pattern_packing() {
    // The 2-by-2 source block at the origin: channel 0 of (0,0), channel 1
    // of (1,0) and (0,1), channel 2 of (1,1).  The packed sample must keep
    // both halves verbatim, even sample high, odd sample low — no average.
    let mut pixels = blank_pixels();
    set_pixel(&mut pixels, 0, 0, (100, 0, 0));
    set_pixel(&mut pixels, 1, 0, (0, 150, 0));
    set_pixel(&mut pixels, 0, 1, (0, 200, 0));
    set_pixel(&mut pixels, 1, 1, (0, 0, 250));
    let model = SensorMemoryModel::new(&pixels);

    let first = model.read_memory(0);
    assert_eq!(first, (100u16 << 8) | 150);
    assert_eq!(first >> 8, 100);
    assert_eq!(first & 0xFF, 150);

    // (0,1) and (1,1) live in the second row of the same block: address 8.
    let second = model.read_memory(8);
    assert_eq!(second, (200u16 << 8) | 250);
    assert_eq!(second >> 8, 200);
    assert_eq!(second & 0xFF, 250);

    // Untouched source pixels pack to zero.
    assert_eq!(model.read_memory(1), 0);
}

#[test]
fn packing_respects_block_tiling() {
    // Columns 16 and 17 of row 0 belong to the second block: address 64.
    let mut pixels = blank_pixels();
    set_pixel(&mut pixels, 16, 0, (7, 0, 0));
    set_pixel(&mut pixels, 17, 0, (0, 9, 0));
    let model = SensorMemoryModel::new(&pixels);
    assert_eq!(model.read_memory(64), (7u16 << 8) | 9);
    assert_eq!(model.read_memory(0), 0);
}

#[test]
fn memory_sentinel_out_of_bounds() {
    let model = SensorMemoryModel::new(&blank_pixels());
    assert_eq!(model.read_memory(ADDRESS_COUNT as u32), NO_DATA);
    assert_eq!(model.read_memory(ADDRESS_COUNT as u32 + 1), NO_DATA);
    assert_eq!(model.read_memory(u32::MAX), NO_DATA);
    // The last in-range address is real data, not the sentinel.
    assert_eq!(model.read_memory(ADDRESS_COUNT as u32 - 1), 0);
}
