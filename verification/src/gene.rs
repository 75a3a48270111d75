//! The packed gene: one connection of the neural network in 32 bits.
//!
//! From the lowest bit up: one bit for the class of the head node, seven for
//! its index, one bit for the class of the tail node, seven for its index,
//! and sixteen for the weight, a two's complement number.
use crate::random::random_bits;
use vstd::prelude::*;

verus! {

/// The class of a node of the network.
#[derive(Debug, Clone, Copy, PartialEq, Eq, Structural)]
pub enum NodeType {
    INPUT,
    INNER,
    OUTPUT,
}

/// The number of indices that a gene can name at either end.
pub const NODE_INDEX_LIMIT: u8 = 128;

/// A gene with its fields laid out.
#[derive(Debug, Clone, Copy, PartialEq, Eq, Structural)]
pub struct GeneFields {
    pub head_type: NodeType,
    pub head_index: u8,
    pub tail_type: NodeType,
    pub tail_index: u8,
    pub weight: i16,
}

/// A gene in its packed form. Every 32-bit value is a gene.
#[derive(Debug, Clone, Copy, PartialEq, Eq, Structural)]
pub struct Gene {
    pub bits: u32,
}

/// Whether `a` and `b` differ in exactly one bit.
pub open spec fn one_bit_apart(a: u32, b: u32) -> bool {
    exists|k: u32| k < 32 && b == a ^ (1u32 << k)
}

impl GeneFields {
    /// Whether a gene can hold the fields as they are: a head is an input or
    /// an inner node, a tail an inner node or an output, and both indices
    /// are below the limit.
    pub open spec fn in_range(self) -> bool {
        &&& self.head_type != NodeType::OUTPUT
        &&& self.tail_type != NodeType::INPUT
        &&& self.head_index < NODE_INDEX_LIMIT
        &&& self.tail_index < NODE_INDEX_LIMIT
    }

    /// The fields brought into range: an index keeps its low seven bits, a
    /// head that is no input and a tail that is no output count as inner.
    pub open spec fn masked(self) -> GeneFields {
        GeneFields {
            head_type: if self.head_type == NodeType::INPUT {
                NodeType::INPUT
            } else {
                NodeType::INNER
            },
            head_index: self.head_index & 0x7f,
            tail_type: if self.tail_type == NodeType::OUTPUT {
                NodeType::OUTPUT
            } else {
                NodeType::INNER
            },
            tail_index: self.tail_index & 0x7f,
            weight: self.weight,
        }
    }
}

impl Gene {
    /// The class of the head node: the lowest bit, set for an input.
    pub open spec fn head_type(self) -> NodeType {
        if self.bits & 1 == 1 {
            NodeType::INPUT
        } else {
            NodeType::INNER
        }
    }

    /// The index of the head node: bits 1 to 7.
    pub open spec fn head_index(self) -> u8 {
        ((self.bits >> 1) & 0x7f) as u8
    }

    /// The class of the tail node: bit 8, set for an output.
    pub open spec fn tail_type(self) -> NodeType {
        if (self.bits >> 8) & 1 == 1 {
            NodeType::OUTPUT
        } else {
            NodeType::INNER
        }
    }

    /// The index of the tail node: bits 9 to 15.
    pub open spec fn tail_index(self) -> u8 {
        ((self.bits >> 9) & 0x7f) as u8
    }

    /// The weight: the upper sixteen bits as a two's complement number.
    pub open spec fn weight(self) -> i16 {
        let upper: int = (self.bits >> 16) as int;
        if upper >= 0x8000 {
            (upper - 0x1_0000) as i16
        } else {
            upper as i16
        }
    }

    /// All five fields of the gene.
    pub open spec fn fields(self) -> GeneFields {
        GeneFields {
            head_type: self.head_type(),
            head_index: self.head_index(),
            tail_type: self.tail_type(),
            tail_index: self.tail_index(),
            weight: self.weight(),
        }
    }

    /// A gene drawn at random, each of the 32-bit values with the same
    /// chance. Any value may come back, and whichever does, its fields are
    /// in range.
    pub fn newRandom() -> (r: Gene)
        ensures
            r.fields().in_range(),
    {
        let r = Gene { bits: random_bits() };
        proof {
            lemma_fields_in_range(r);
        }
        r
    }

    /// The gene that a child takes at one place: that of the first parent
    /// where the coin says so, else that of the second.
    pub fn cross_gene(coin: bool, first: Gene, second: Gene) -> (r: Gene)
        ensures
            r == if coin {
                first
            } else {
                second
            },
    {
        if coin {
            first
        } else {
            second
        }
    }

    pub fn get_head_type(&self) -> (r: NodeType)
        ensures
            r == self.head_type(),
    {
        if self.bits & 1 == 1 {
            NodeType::INPUT
        } else {
            NodeType::INNER
        }
    }

    pub fn get_head_index(&self) -> (r: u8)
        ensures
            r == self.head_index(),
            r < NODE_INDEX_LIMIT,
    {
        proof {
            lemma_part_bounds(self.bits);
        }
        ((self.bits >> 1) & 0x7f) as u8
    }

    pub fn get_tail_type(&self) -> (r: NodeType)
        ensures
            r == self.tail_type(),
    {
        if (self.bits >> 8) & 1 == 1 {
            NodeType::OUTPUT
        } else {
            NodeType::INNER
        }
    }

    pub fn get_tail_index(&self) -> (r: u8)
        ensures
            r == self.tail_index(),
            r < NODE_INDEX_LIMIT,
    {
        proof {
            lemma_part_bounds(self.bits);
        }
        ((self.bits >> 9) & 0x7f) as u8
    }

    pub fn get_weight(&self) -> (r: i16)
        ensures
            r == self.weight(),
    {
        let upper: u32 = self.bits >> 16;
        proof {
            lemma_part_bounds(self.bits);
        }
        if upper >= 0x8000 {
            (upper as i32 - 0x1_0000) as i16
        } else {
            upper as i16
        }
    }
    /// Packs the fields into a gene. Fields out of range are masked, not
    /// refused: unpacking the result gives the fields brought into range,
    /// and so the very fields that were given where they were in range.
    pub fn encode(fields: GeneFields) -> (r: Gene)
        ensures
            r.fields() == fields.masked(),
            fields.in_range() ==> r.fields() == fields,
    {
        let head_bit: u32 = match fields.head_type {
            NodeType::INPUT => 1,
            _ => 0,
        };
        let tail_bit: u32 = match fields.tail_type {
            NodeType::OUTPUT => 1,
            _ => 0,
        };
        let head_index: u8 = fields.head_index & 0x7f;
        let tail_index: u8 = fields.tail_index & 0x7f;
        let upper: u32 = if fields.weight < 0 {
            (fields.weight as i32 + 0x1_0000) as u32
        } else {
            fields.weight as u32
        };
        proof {
            lemma_index_mask(fields.head_index);
            lemma_index_mask(fields.tail_index);
            lemma_packed_fields(head_bit, head_index as u32, tail_bit, tail_index as u32, upper);
        }
        Gene {
            bits: head_bit | ((head_index as u32) << 1) | (tail_bit << 8) | ((tail_index as u32)
                << 9) | (upper << 16),
        }
    }

    /// Unpacks the gene. The fields that come out are always in range.
    pub fn decode(&self) -> (r: GeneFields)
        ensures
            r == self.fields(),
            r.in_range(),
    {
        GeneFields {
            head_type: self.get_head_type(),
            head_index: self.get_head_index(),
            tail_type: self.get_tail_type(),
            tail_index: self.get_tail_index(),
            weight: self.get_weight(),
        }
    }

    /// The gene with one bit flipped. Of `bit` only the low five bits count,
    /// so that every `bit` names one of the 32.
    pub fn flip_bit(self, bit: u32) -> (r: Gene)
        ensures
            r.bits == self.bits ^ (1u32 << (bit & 31)),
            bit < 32 ==> r.bits == self.bits ^ (1u32 << bit),
            one_bit_apart(self.bits, r.bits),
    {
        assert(bit & 31 < 32 && (bit < 32 ==> bit & 31 == bit)) by (bit_vector);
        Gene { bits: self.bits ^ (1u32 << (bit & 31)) }
    }
}

/// Each of the five parts of a 32-bit value fits its field.
proof fn lemma_part_bounds(bits: u32)
    by (bit_vector)
    ensures
        bits & 1 <= 1,
        (bits >> 1) & 0x7f < 128,
        (bits >> 8) & 1 <= 1,
        (bits >> 9) & 0x7f < 128,
        bits >> 16 < 0x1_0000,
{
}

/// Masking an index keeps it below the limit, and keeps it as it is where
/// it was below the limit.
proof fn lemma_index_mask(index: u8)
    by (bit_vector)
    ensures
        index & 0x7f < 128,
        index < 128 ==> index & 0x7f == index,
{
}

/// The five parts of a packed gene can be read back from it one by one.
proof fn lemma_packed_fields(head_bit: u32, head_index: u32, tail_bit: u32, tail_index: u32, upper: u32)
    by (bit_vector)
    requires
        head_bit <= 1,
        head_index < 128,
        tail_bit <= 1,
        tail_index < 128,
        upper < 0x1_0000,
    ensures
        ({
            let bits: u32 = head_bit | (head_index << 1) | (tail_bit << 8) | (tail_index << 9) | (
            upper << 16);
            &&& bits & 1 == head_bit
            &&& (bits >> 1) & 0x7f == head_index
            &&& (bits >> 8) & 1 == tail_bit
            &&& (bits >> 9) & 0x7f == tail_index
            &&& bits >> 16 == upper
        }),
{
}

/// A 32-bit value is fixed by its five parts.
proof fn lemma_parts_fix_bits(a: u32, b: u32)
    by (bit_vector)
    requires
        a & 1 == b & 1,
        (a >> 1) & 0x7f == (b >> 1) & 0x7f,
        (a >> 8) & 1 == (b >> 8) & 1,
        (a >> 9) & 0x7f == (b >> 9) & 0x7f,
        a >> 16 == b >> 16,
    ensures
        a == b,
{
}

/// The fields that a gene unpacks to are in range.
pub proof fn lemma_fields_in_range(g: Gene)
    ensures
        g.fields().in_range(),
        g.fields().masked() == g.fields(),
{
    lemma_part_bounds(g.bits);
    lemma_index_mask(g.head_index());
    lemma_index_mask(g.tail_index());
}

/// Two genes with the same fields are the same gene: nothing in the 32 bits
/// lies outside the five fields. With what `Gene::encode` ensures, packing
/// the fields of a gene therefore gives the gene back.
pub proof fn lemma_fields_fix_gene(a: Gene, b: Gene)
    requires
        a.fields() == b.fields(),
    ensures
        a == b,
{
    lemma_part_bounds(a.bits);
    lemma_part_bounds(b.bits);
    assert(a.head_type() == b.head_type());
    assert(a.tail_type() == b.tail_type());
    assert(a.head_index() == b.head_index());
    assert(a.tail_index() == b.tail_index());
    assert(a.weight() == b.weight());
    lemma_parts_fix_bits(a.bits, b.bits);
}

/// Values one bit apart are different, and the relation holds both ways
/// round: flipping the same bit again restores the first value.
pub proof fn lemma_one_bit_apart(a: u32, b: u32)
    requires
        one_bit_apart(a, b),
    ensures
        a != b,
        one_bit_apart(b, a),
{
    let k: u32 = choose|k: u32| k < 32 && b == a ^ (1u32 << k);
    assert(a ^ (1u32 << k) != a && (a ^ (1u32 << k)) ^ (1u32 << k) == a) by (bit_vector)
        requires
            k < 32,
    ;
}

} // verus!
