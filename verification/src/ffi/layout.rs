//! The memory layout in which the driver reads a position.
//!
//! The driver reads a block of 108 bytes: the device number in one byte,
//! three bytes that fill up to the next field, and then the 26 other fields
//! of `PositionV2` in their order, each in four bytes with the lowest byte
//! first. A signed field stands in two's complement.

use vstd::prelude::*;

use crate::ffi::rusty_structure::{PositionV2, VJDPosition};

verus! {

/// The number of bytes of a position in the driver's layout.
pub const POSITION_SIZE: usize = 108;

/// The four bytes of `value`, the lowest first.
pub open spec fn le_bytes(value: u32) -> Seq<u8> {
    seq![
        (value % 256) as u8,
        ((value / 0x100) % 256) as u8,
        ((value / 0x1_0000) % 256) as u8,
        (value / 0x100_0000) as u8,
    ]
}

/// The number that stands for `value` in an unsigned field of 32 bits: the
/// value itself, or the value plus 2^32 where it is negative.
pub open spec fn spec_unsigned(value: i32) -> u32 {
    if value >= 0 {
        value as u32
    } else {
        (value + 0x1_0000_0000) as u32
    }
}

/// The fields of a position behind the device number, in the order of the
/// layout, each as the unsigned number that its four bytes spell.
pub open spec fn layout_fields(position: PositionV2) -> Seq<u32> {
    seq![
        spec_unsigned(position.wThrottle),
        spec_unsigned(position.wRudder),
        spec_unsigned(position.wAileron),
        spec_unsigned(position.wAxisX),
        spec_unsigned(position.wAxisY),
        spec_unsigned(position.wAxisZ),
        spec_unsigned(position.wAxisXRot),
        spec_unsigned(position.wAxisYRot),
        spec_unsigned(position.wAxisZRot),
        spec_unsigned(position.wSlider),
        spec_unsigned(position.wDial),
        spec_unsigned(position.wWheel),
        spec_unsigned(position.wAxisVX),
        spec_unsigned(position.wAxisVY),
        spec_unsigned(position.wAxisVZ),
        spec_unsigned(position.wAxisVBRX),
        spec_unsigned(position.wAxisVBRY),
        spec_unsigned(position.wAxisVBRZ),
        position.lButtons,
        position.bHats,
        position.bHatsEx1,
        position.bHatsEx2,
        position.bHatsEx3,
        position.lButtonsEx1,
        position.lButtonsEx2,
        position.lButtonsEx3,
    ]
}

/// The bytes of the first `count` of `fields`, one field after the other.
pub open spec fn fields_bytes(fields: Seq<u32>, count: int) -> Seq<u8>
    decreases count,
{
    if count <= 0 {
        Seq::empty()
    } else {
        fields_bytes(fields, count - 1) + le_bytes(fields[count - 1])
    }
}

/// The block of bytes that stands for `position` in the driver's layout.
pub open spec fn spec_to_bytes(position: PositionV2) -> Seq<u8> {
    seq![position.bDevice, 0u8, 0u8, 0u8] + fields_bytes(layout_fields(position), 26)
}

proof fn lemma_fields_bytes_len(fields: Seq<u32>, count: int)
    requires
        0 <= count,
    ensures
        fields_bytes(fields, count).len() == 4 * count,
    decreases count,
{
    if count > 0 {
        lemma_fields_bytes_len(fields, count - 1);
    }
}

proof fn lemma_fields_bytes_place(fields: Seq<u32>, count: int, field: int, byte: int)
    requires
        0 <= field < count,
        0 <= byte < 4,
    ensures
        fields_bytes(fields, count).len() == 4 * count,
        fields_bytes(fields, count)[4 * field + byte] == le_bytes(fields[field])[byte],
    decreases count,
{
    lemma_fields_bytes_len(fields, count);
    lemma_fields_bytes_len(fields, count - 1);
    if field < count - 1 {
        lemma_fields_bytes_place(fields, count - 1, field, byte);
    }
}

/// The layout puts every field at its place: the block has 108 bytes, the
/// first is the device number, the next three are zero, and the four bytes
/// from `4 + 4 * field` on spell field `field` of the 26 others.
pub proof fn lemma_layout_places(position: PositionV2, field: int, byte: int)
    requires
        0 <= field < 26,
        0 <= byte < 4,
    ensures
        spec_to_bytes(position).len() == POSITION_SIZE,
        spec_to_bytes(position)[0] == position.bDevice,
        spec_to_bytes(position)[1] == 0 && spec_to_bytes(position)[2] == 0 && spec_to_bytes(
            position,
        )[3] == 0,
        spec_to_bytes(position)[4 + 4 * field + byte] == le_bytes(
            layout_fields(position)[field],
        )[byte],
{
    lemma_fields_bytes_place(layout_fields(position), 26, field, byte);
}

proof fn lemma_le_bytes_tell(a: u32, b: u32)
    requires
        le_bytes(a) == le_bytes(b),
    ensures
        a == b,
{
    assert(le_bytes(a)[0] == le_bytes(b)[0]);
    assert(le_bytes(a)[1] == le_bytes(b)[1]);
    assert(le_bytes(a)[2] == le_bytes(b)[2]);
    assert(le_bytes(a)[3] == le_bytes(b)[3]);
}

/// The layout loses nothing: two positions with the same block of bytes are
/// the same position.
pub proof fn lemma_layout_tells_positions_apart(a: PositionV2, b: PositionV2)
    requires
        spec_to_bytes(a) == spec_to_bytes(b),
    ensures
        a == b,
{
    lemma_layout_places(a, 0, 0);
    lemma_layout_places(b, 0, 0);
    assert forall|field: int| 0 <= field < 26 implies layout_fields(a)[field] == layout_fields(
        b,
    )[field] by {
        assert forall|byte: int| 0 <= byte < 4 implies le_bytes(layout_fields(a)[field])[byte]
            == le_bytes(layout_fields(b)[field])[byte] by {
            lemma_layout_places(a, field, byte);
            lemma_layout_places(b, field, byte);
        }
        assert(le_bytes(layout_fields(a)[field]) =~= le_bytes(layout_fields(b)[field]));
        lemma_le_bytes_tell(layout_fields(a)[field], layout_fields(b)[field]);
    }
    assert(layout_fields(a)[0] == layout_fields(b)[0]);
    assert(layout_fields(a)[1] == layout_fields(b)[1]);
    assert(layout_fields(a)[2] == layout_fields(b)[2]);
    assert(layout_fields(a)[3] == layout_fields(b)[3]);
    assert(layout_fields(a)[4] == layout_fields(b)[4]);
    assert(layout_fields(a)[5] == layout_fields(b)[5]);
    assert(layout_fields(a)[6] == layout_fields(b)[6]);
    assert(layout_fields(a)[7] == layout_fields(b)[7]);
    assert(layout_fields(a)[8] == layout_fields(b)[8]);
    assert(layout_fields(a)[9] == layout_fields(b)[9]);
    assert(layout_fields(a)[10] == layout_fields(b)[10]);
    assert(layout_fields(a)[11] == layout_fields(b)[11]);
    assert(layout_fields(a)[12] == layout_fields(b)[12]);
    assert(layout_fields(a)[13] == layout_fields(b)[13]);
    assert(layout_fields(a)[14] == layout_fields(b)[14]);
    assert(layout_fields(a)[15] == layout_fields(b)[15]);
    assert(layout_fields(a)[16] == layout_fields(b)[16]);
    assert(layout_fields(a)[17] == layout_fields(b)[17]);
    assert(layout_fields(a)[18] == layout_fields(b)[18]);
    assert(layout_fields(a)[19] == layout_fields(b)[19]);
    assert(layout_fields(a)[20] == layout_fields(b)[20]);
    assert(layout_fields(a)[21] == layout_fields(b)[21]);
    assert(layout_fields(a)[22] == layout_fields(b)[22]);
    assert(layout_fields(a)[23] == layout_fields(b)[23]);
    assert(layout_fields(a)[24] == layout_fields(b)[24]);
    assert(layout_fields(a)[25] == layout_fields(b)[25]);
}

fn unsigned(value: i32) -> (r: u32)
    ensures
        r == spec_unsigned(value),
{
    if value >= 0 {
        value as u32
    } else {
        (value as i64 + 0x1_0000_0000) as u32
    }
}

fn push_field(block: &mut Vec<u8>, value: u32)
    ensures
        final(block)@ == old(block)@ + le_bytes(value),
{
    block.push((value % 256) as u8);
    block.push(((value / 0x100) % 256) as u8);
    block.push(((value / 0x1_0000) % 256) as u8);
    block.push((value / 0x100_0000) as u8);
    proof {
        assert(block@ =~= old(block)@ + le_bytes(value));
    }
}

impl PositionV2 {
    /// The fields behind the device number, in the order of the layout.
    fn fields(&self) -> (r: [u32; 26])
        ensures
            r@ == layout_fields(*self),
    {
        let fields = [
            unsigned(self.wThrottle),
            unsigned(self.wRudder),
            unsigned(self.wAileron),
            unsigned(self.wAxisX),
            unsigned(self.wAxisY),
            unsigned(self.wAxisZ),
            unsigned(self.wAxisXRot),
            unsigned(self.wAxisYRot),
            unsigned(self.wAxisZRot),
            unsigned(self.wSlider),
            unsigned(self.wDial),
            unsigned(self.wWheel),
            unsigned(self.wAxisVX),
            unsigned(self.wAxisVY),
            unsigned(self.wAxisVZ),
            unsigned(self.wAxisVBRX),
            unsigned(self.wAxisVBRY),
            unsigned(self.wAxisVBRZ),
            self.lButtons,
            self.bHats,
            self.bHatsEx1,
            self.bHatsEx2,
            self.bHatsEx3,
            self.lButtonsEx1,
            self.lButtonsEx2,
            self.lButtonsEx3,
        ];
        proof {
            assert(fields@ =~= layout_fields(*self));
        }
        fields
    }

    /// The block of bytes that stands for the position in the driver's layout.
    pub fn to_bytes(&self) -> (r: Vec<u8>)
        ensures
            r@ == spec_to_bytes(*self),
            r@.len() == POSITION_SIZE,
    {
        let fields = self.fields();
        let mut block: Vec<u8> = Vec::with_capacity(POSITION_SIZE);
        block.push(self.bDevice);
        block.push(0);
        block.push(0);
        block.push(0);
        let ghost head = block@;
        proof {
            assert(head =~= seq![self.bDevice, 0u8, 0u8, 0u8]);
            assert(head + fields_bytes(fields@, 0) =~= head);
        }
        let mut i: usize = 0;
        while i < 26
            invariant
                i <= 26,
                fields@ == layout_fields(*self),
                block@ == head + fields_bytes(fields@, i as int),
            decreases 26 - i,
        {
            push_field(&mut block, fields[i]);
            proof {
                assert(block@ =~= head + fields_bytes(fields@, i + 1));
            }
            i = i + 1;
        }
        proof {
            lemma_fields_bytes_len(fields@, 26);
        }
        block
    }
}

impl VJDPosition {
    /// The position as the block of bytes that the driver reads. The
    /// position itself stays as it is.
    pub fn snapshot(&self) -> (r: Vec<u8>)
        ensures
            r@ == spec_to_bytes(self@),
            r@.len() == POSITION_SIZE,
    {
        self.get_position().to_bytes()
    }
}

} // verus!
