//! The deterministic bijection between a linear sensor memory address and a
//! 2-D pixel coordinate.
//!
//! Addresses are grouped into blocks of 64; each block covers an 8-row by
//! 8-sample tile of coordinate space.  The sensor emits two horizontally
//! adjacent samples per address, so an in-block column contributes twice its
//! index to the horizontal coordinate, and a block spans 16 source columns.

use vstd::arithmetic::div_mod::{
    lemma_fundamental_div_mod, lemma_fundamental_div_mod_converse, lemma_mod_multiples_vanish,
};
use vstd::prelude::*;

verus! {

/// Columns of the raw sensor address space (one address per packed sample pair).
pub const SENSOR_WIDTH: usize = 512;

/// Rows of the raw sensor address space.
pub const SENSOR_HEIGHT: usize = 600;

/// Columns of the decoded source image; two source columns fold into one address column.
pub const SOURCE_WIDTH: usize = 1024;

/// Number of valid linear addresses at the reference geometry.
pub const ADDRESS_COUNT: usize = SENSOR_WIDTH * SENSOR_HEIGHT;

/// Horizontal coordinate of the first of the two samples stored at `addr`.
pub open spec fn spec_x_from_addr(addr: int) -> int {
    ((addr / 64) % 64) * 16 + ((addr % 64) % 8) * 2
}

/// Vertical coordinate of the samples stored at `addr`.
pub open spec fn spec_y_from_addr(addr: int) -> int {
    ((addr / 64) / 64) * 8 + (addr % 64) / 8
}

/// Linear address that stores the sample pair at coordinate `(x, y)`.
pub open spec fn spec_addr_from_x_y(x: int, y: int) -> int {
    ((y / 8) * 64 + x / 16) * 64 + ((y % 8) * 8 + (x % 16) / 2)
}

/// Maps a linear address to the coordinate of its first (even-column) sample.
pub fn x_y_from_addr(addr: u32) -> (r: (usize, usize))
    ensures
        r.0 == spec_x_from_addr(addr as int),
        r.1 == spec_y_from_addr(addr as int),
{
    let block: u32 = addr / 64;
    let block_x: u32 = block % 64;
    let block_y: u32 = block / 64;

    let in_block: u32 = addr % 64;
    let in_x: u32 = in_block % 8;
    let in_y: u32 = in_block / 8;

    let x: u32 = block_x * 16 + in_x * 2;
    let y: u32 = block_y * 8 + in_y;

    (x as usize, y as usize)
}

/// Maps the coordinate of a sample pair back to its linear address.
pub fn addr_from_x_y(x: usize, y: usize) -> (r: u32)
    requires
        x < SOURCE_WIDTH,
        y < SENSOR_HEIGHT,
    ensures
        r == spec_addr_from_x_y(x as int, y as int),
        r < ADDRESS_COUNT,
{
    let block_x: usize = x / 16;
    let block_y: usize = y / 8;
    let in_x: usize = (x % 16) / 2;
    let in_y: usize = y % 8;

    let block: usize = block_y * 64 + block_x;
    let in_block: usize = in_y * 8 + in_x;

    (block * 64 + in_block) as u32
}

/// An in-range address decodes to a coordinate inside the source frame, with
/// an even horizontal position.
pub proof fn lemma_coords_in_range(addr: int)
    requires
        0 <= addr < ADDRESS_COUNT,
    ensures
        0 <= spec_x_from_addr(addr) < SOURCE_WIDTH - 1,
        spec_x_from_addr(addr) % 2 == 0,
        0 <= spec_y_from_addr(addr) < SENSOR_HEIGHT,
{
    let block = addr / 64;
    let in_block = addr % 64;
    assert(0 <= in_block < 64);
    assert(0 <= block < 4800);
    assert(0 <= block % 64 < 64);
    assert(0 <= block / 64 < 75);
    assert(0 <= in_block % 8 < 8);
    assert(0 <= in_block / 8 < 8);
    assert((((addr / 64) % 64) * 16 + ((addr % 64) % 8) * 2) % 2 == 0);
}

/// Address bijection law: decoding an in-range linear address to its
/// coordinate pair and encoding that pair again yields the same address.
pub proof fn lemma_addr_round_trip(addr: int)
    requires
        0 <= addr < ADDRESS_COUNT,
    ensures
        spec_addr_from_x_y(spec_x_from_addr(addr), spec_y_from_addr(addr)) == addr,
{
    let block = addr / 64;
    let in_block = addr % 64;
    let block_x = block % 64;
    let block_y = block / 64;
    let in_x = in_block % 8;
    let in_y = in_block / 8;
    let x = spec_x_from_addr(addr);
    let y = spec_y_from_addr(addr);

    lemma_fundamental_div_mod(addr, 64);
    lemma_fundamental_div_mod(block, 64);
    lemma_fundamental_div_mod(in_block, 8);

    // y = block_y * 8 + in_y with 0 <= in_y < 8 pins y / 8 and y % 8.
    lemma_fundamental_div_mod_converse(y, 8, block_y, in_y);
    // x = block_x * 16 + in_x * 2 with 0 <= in_x * 2 < 16 pins x / 16 and x % 16.
    lemma_fundamental_div_mod_converse(x, 16, block_x, in_x * 2);

    assert(y / 8 == block_y);
    assert(y % 8 == in_y);
    assert(x / 16 == block_x);
    assert((x % 16) / 2 == in_x);

    assert(spec_addr_from_x_y(x, y) == (block_y * 64 + block_x) * 64 + (in_y * 8 + in_x));
    assert((block_y * 64 + block_x) * 64 + (in_y * 8 + in_x) == block * 64 + in_block);
}

/// The other half of the bijection: encoding any coordinate of the source
/// frame with an even horizontal position and decoding the address again
/// yields the same coordinate.
pub proof fn lemma_xy_round_trip(x: int, y: int)
    requires
        0 <= x < SOURCE_WIDTH,
        x % 2 == 0,
        0 <= y < SENSOR_HEIGHT,
    ensures
        spec_x_from_addr(spec_addr_from_x_y(x, y)) == x,
        spec_y_from_addr(spec_addr_from_x_y(x, y)) == y,
{
    let block_x = x / 16;
    let in_x2 = x % 16;
    let block_y = y / 8;
    let in_y = y % 8;
    lemma_fundamental_div_mod(x, 16);
    lemma_fundamental_div_mod(y, 8);

    // An even coordinate has an even in-block offset.
    assert(16 * block_x + in_x2 == 2 * (8 * block_x) + in_x2);
    lemma_mod_multiples_vanish(8 * block_x, in_x2, 2);
    assert(in_x2 % 2 == 0);
    let in_x = in_x2 / 2;
    lemma_fundamental_div_mod(in_x2, 2);
    assert(in_x2 == 2 * in_x);

    let addr = spec_addr_from_x_y(x, y);
    assert(addr == (block_y * 64 + block_x) * 64 + (in_y * 8 + in_x));
    lemma_fundamental_div_mod_converse(addr, 64, block_y * 64 + block_x, in_y * 8 + in_x);
    lemma_fundamental_div_mod_converse(block_y * 64 + block_x, 64, block_y, block_x);
    lemma_fundamental_div_mod_converse(in_y * 8 + in_x, 8, in_y, in_x);
}

} // verus!
