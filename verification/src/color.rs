//! The colour that a genome gives its cell.
//!
//! Only the first and the last gene count. Eight of their bits make a code
//! from 0 to 255; the code gives the three channels; a colour that is too
//! bright is dimmed channel by channel.
use crate::gene::{Gene, NodeType};
use vstd::prelude::*;

verus! {

/// The brightest that a channel of a dimmed colour may be.
pub const MAX_COLOR_VAL: u32 = 0xb0;

/// The luma above which a colour is dimmed.
pub const MAX_LUMA_VAL: u32 = 0xb0;

/// One for true and zero for false.
pub open spec fn flag(b: bool) -> int {
    if b {
        1
    } else {
        0
    }
}

/// The colour code of a genome that starts with `first` and ends with
/// `last`. From the lowest binary place up: whether the head of `first` is
/// an input, whether the head of `last` is, whether the tail of `first` is
/// an inner node, whether the tail of `last` is, and then the parities of
/// the head and tail index of `first` and of the head and tail index of
/// `last`.
pub open spec fn color_code(first: Gene, last: Gene) -> int {
    flag(first.head_type() == NodeType::INPUT) + 2 * flag(last.head_type() == NodeType::INPUT) + 4
        * flag(first.tail_type() == NodeType::INNER) + 8 * flag(
        last.tail_type() == NodeType::INNER,
    ) + 16 * (first.head_index() % 2) + 32 * (first.tail_index() % 2) + 64 * (last.head_index()
        % 2) + 128 * (last.tail_index() % 2)
}

/// The weighted brightness of a colour.
pub open spec fn luma(red: int, green: int, blue: int) -> int {
    (3 * red + green + 4 * blue) / 8
}

/// A channel of a colour that is too bright: above the cap it is reduced
/// modulo the cap, at or below the cap it stays.
pub open spec fn dimmed(channel: int) -> int {
    if channel > MAX_COLOR_VAL {
        channel % (MAX_COLOR_VAL as int)
    } else {
        channel
    }
}

/// The colour for a code: red is the code, green its low five bits times
/// eight, blue its low three bits times 32, each channel dimmed where the
/// luma of the three is above the cap.
pub open spec fn color_from_code(code: int) -> (int, int, int) {
    let red: int = code;
    let green: int = (code % 32) * 8;
    let blue: int = (code % 8) * 32;
    if luma(red, green, blue) > MAX_LUMA_VAL {
        (dimmed(red), dimmed(green), dimmed(blue))
    } else {
        (red, green, blue)
    }
}

/// The colour of a genome, as red, green and blue.
pub open spec fn color_of(genome: Seq<Gene>) -> (u8, u8, u8) {
    let c: (int, int, int) = color_from_code(color_code(genome.first(), genome.last()));
    (c.0 as u8, c.1 as u8, c.2 as u8)
}

/// Eight flags packed with shifts are the sum of their binary places, and
/// the masks and shifts that give green and blue are a remainder and a
/// product.
proof fn lemma_code_bits(b0: u32, b1: u32, b2: u32, b3: u32, b4: u32, b5: u32, b6: u32, b7: u32)
    by (bit_vector)
    requires
        b0 <= 1,
        b1 <= 1,
        b2 <= 1,
        b3 <= 1,
        b4 <= 1,
        b5 <= 1,
        b6 <= 1,
        b7 <= 1,
    ensures
        ({
            let c: u32 = b0 | (b1 << 1) | (b2 << 2) | (b3 << 3) | (b4 << 4) | (b5 << 5) | (b6 << 6)
                | (b7 << 7);
            &&& c == b0 + 2 * b1 + 4 * b2 + 8 * b3 + 16 * b4 + 32 * b5 + 64 * b6 + 128 * b7
            &&& c < 256
            &&& (c & 0x1f) << 3 == (c % 32) * 8
            &&& (c & 7) << 5 == (c % 8) * 32
        }),
{
}

/// The lowest bit of an index is its parity.
proof fn lemma_low_bit(index: u8)
    by (bit_vector)
    ensures
        index & 1 == index % 2,
        index & 1 <= 1,
{
}

/// The colour of a genome. The genome must hold a gene.
pub fn createColor(genome: &Vec<Gene>) -> (r: (u8, u8, u8))
    requires
        genome@.len() > 0,
    ensures
        r == color_of(genome@),
{
    let first: Gene = genome[0];
    let last: Gene = genome[genome.len() - 1];
    let b0: u32 = if first.get_head_type() == NodeType::INPUT {
        1
    } else {
        0
    };
    let b1: u32 = if last.get_head_type() == NodeType::INPUT {
        1
    } else {
        0
    };
    let b2: u32 = if first.get_tail_type() == NodeType::INNER {
        1
    } else {
        0
    };
    let b3: u32 = if last.get_tail_type() == NodeType::INNER {
        1
    } else {
        0
    };
    proof {
        lemma_low_bit(first.head_index());
        lemma_low_bit(first.tail_index());
        lemma_low_bit(last.head_index());
        lemma_low_bit(last.tail_index());
    }
    let b4: u32 = (first.get_head_index() & 1) as u32;
    let b5: u32 = (first.get_tail_index() & 1) as u32;
    let b6: u32 = (last.get_head_index() & 1) as u32;
    let b7: u32 = (last.get_tail_index() & 1) as u32;
    proof {
        lemma_code_bits(b0, b1, b2, b3, b4, b5, b6, b7);
    }
    let c: u32 = b0 | (b1 << 1) | (b2 << 2) | (b3 << 3) | (b4 << 4) | (b5 << 5) | (b6 << 6) | (b7
        << 7);
    assert(c == color_code(first, last));
    let mut color: (u32, u32, u32) = (c, (c & 0x1f) << 3, (c & 7) << 5);
    if (color.0 * 3 + color.1 + color.2 * 4) / 8 > MAX_LUMA_VAL {
        if color.0 > MAX_COLOR_VAL {
            color.0 = color.0 % MAX_COLOR_VAL;
        }
        if color.1 > MAX_COLOR_VAL {
            color.1 = color.1 % MAX_COLOR_VAL;
        }
        if color.2 > MAX_COLOR_VAL {
            color.2 = color.2 % MAX_COLOR_VAL;
        }
    }
    (color.0 as u8, color.1 as u8, color.2 as u8)
}

/// Genomes that begin with the same gene and end with the same gene have
/// the same colour.
pub proof fn lemma_color_from_ends(a: Seq<Gene>, b: Seq<Gene>)
    requires
        a.len() > 0,
        b.len() > 0,
        a.first() == b.first(),
        a.last() == b.last(),
    ensures
        color_of(a) == color_of(b),
{
}

/// Putting another gene in a place that is neither the first nor the last
/// leaves the colour as it was.
pub proof fn lemma_color_ignores_interior(genome: Seq<Gene>, place: int, gene: Gene)
    requires
        0 < place < genome.len() - 1,
    ensures
        color_of(genome.update(place, gene)) == color_of(genome),
{
    lemma_color_from_ends(genome.update(place, gene), genome);
}

} // verus!
