//! The simulated raw sensor memory: an immutable array of 16-bit samples
//! reconstructed from a decoded color source image.
//!
//! Each source pixel contributes one 8-bit channel, chosen by its position
//! in the repeating 2-by-2 color-filter cell; horizontally adjacent samples
//! are packed in pairs into one 16-bit value, stored at the linear address
//! that the sensor's block-tiled readout order assigns to their coordinate.

use crate::geometry::{
    lemma_coords_in_range, spec_x_from_addr, spec_y_from_addr, x_y_from_addr, ADDRESS_COUNT,
    SENSOR_HEIGHT, SOURCE_WIDTH,
};
use vstd::prelude::*;

verus! {

/// The sentinel a memory read returns for an address outside the model:
/// "no data", never a failure.
pub const NO_DATA: u16 = 0xFFFF;

/// The source color channel sampled at position `(x, y)` of the repeating
/// 2-by-2 filter cell.  Both off-diagonal positions read the middle channel:
/// a quirk of the modeled sensor layout, reproduced faithfully on purpose.
pub open spec fn spec_quad_channel(p: (u8, u8, u8), x: int, y: int) -> u8 {
    if x % 2 == 0 && y % 2 == 0 {
        p.0
    } else if x % 2 != 0 && y % 2 != 0 {
        p.2
    } else {
        p.1
    }
}

/// The 16-bit sample stored at `addr`: the two horizontally adjacent
/// extracted samples of the address's coordinate, even column in the high
/// byte, odd column in the low byte.  `pixels` is the source image in
/// row-major order.
pub open spec fn spec_sample(pixels: Seq<(u8, u8, u8)>, addr: int) -> u16 {
    let x = spec_x_from_addr(addr);
    let y = spec_y_from_addr(addr);
    let hi = spec_quad_channel(pixels[y * (SOURCE_WIDTH as int) + x], x, y);
    let lo = spec_quad_channel(pixels[y * (SOURCE_WIDTH as int) + x + 1], x + 1, y);
    ((hi as u16) << 8) | (lo as u16)
}

/// Extracts the color-filter sample of the source pixel `p` at `(x, y)`.
pub fn quad_channel(p: (u8, u8, u8), x: usize, y: usize) -> (r: u8)
    ensures
        r == spec_quad_channel(p, x as int, y as int),
{
    if x % 2 == 0 && y % 2 == 0 {
        p.0
    } else if x % 2 == 1 && y % 2 == 1 {
        p.2
    } else {
        p.1
    }
}

/// The fully precomputed raw memory image, one 16-bit sample per linear
/// address.  Built once, never mutated.
pub struct SensorMemoryModel {
    data: Vec<u16>,
}

impl View for SensorMemoryModel {
    type V = Seq<u16>;

    closed spec fn view(&self) -> Seq<u16> {
        self.data@
    }
}

impl SensorMemoryModel {
    /// Builds the model from a decoded source image of the reference
    /// dimensions, in row-major order: every address holds the packed
    /// sample pair of its coordinate.
    pub fn new(pixels: &Vec<(u8, u8, u8)>) -> (r: SensorMemoryModel)
        requires
            pixels@.len() == SOURCE_WIDTH * SENSOR_HEIGHT,
        ensures
            r@.len() == ADDRESS_COUNT,
            forall|a: int| 0 <= a < ADDRESS_COUNT ==> r@[a] == spec_sample(pixels@, a),
    {
        let mut data: Vec<u16> = Vec::new();
        let mut addr: usize = 0;
        while addr < ADDRESS_COUNT
            invariant
                pixels@.len() == SOURCE_WIDTH * SENSOR_HEIGHT,
                addr <= ADDRESS_COUNT,
                data@.len() == addr,
                forall|a: int| 0 <= a < addr ==> data@[a] == spec_sample(pixels@, a),
            decreases ADDRESS_COUNT - addr,
        {
            proof {
                lemma_coords_in_range(addr as int);
            }
            let (x, y) = x_y_from_addr(addr as u32);
            let hi = quad_channel(pixels[y * SOURCE_WIDTH + x], x, y);
            let lo = quad_channel(pixels[y * SOURCE_WIDTH + x + 1], x + 1, y);
            let value: u16 = ((hi as u16) << 8) | (lo as u16);
            data.push(value);
            addr = addr + 1;
        }
        SensorMemoryModel { data }
    }

    /// Reads the sample stored at `addr`.  An address outside the model
    /// answers the `NO_DATA` sentinel instead of failing.
    pub fn read_memory(&self, addr: u32) -> (r: u16)
        ensures
            addr < self@.len() ==> r == self@[addr as int],
            addr >= self@.len() ==> r == NO_DATA,
    {
        if (addr as usize) < self.data.len() {
            self.data[addr as usize]
        } else {
            NO_DATA
        }
    }
}

} // verus!
