//! What holds of the packed position report whatever it held before.

use vstd::prelude::*;

use crate::ffi::rusty_structure::{
    button_bit, button_segment, hats_nibble, hats_with_nibble, mask_has_bit, mask_with_bit,
    pov_shift, valid_button, PositionV2, VJDPovDisc, VJDPovNumber,
};

verus! {

proof fn lemma_written_bit(mask: u32, bit: u32, pressed: bool, other: u32)
    by (bit_vector)
    requires
        bit < 32,
        other < 32,
    ensures
        mask_has_bit(mask_with_bit(mask, bit, pressed), other) == (if other == bit {
            pressed
        } else {
            mask_has_bit(mask, other)
        }),
{
}

proof fn lemma_set_then_cleared_bit(mask: u32, bit: u32)
    by (bit_vector)
    requires
        bit < 32,
        !mask_has_bit(mask, bit),
    ensures
        mask_with_bit(mask_with_bit(mask, bit, true), bit, false) == mask,
{
}

proof fn lemma_first_bit(bit: u32)
    by (bit_vector)
    requires
        bit < 32,
    ensures
        mask_with_bit(0u32, bit, true) == 1u32 << bit,
{
}

proof fn lemma_written_nibble(hats: u32, shift: u32, nibble: u32, other: u32)
    by (bit_vector)
    requires
        shift == 0 || shift == 4 || shift == 8 || shift == 12,
        other == 0 || other == 4 || other == 8 || other == 12,
        nibble <= 0xF,
    ensures
        hats_nibble(hats_with_nibble(hats, shift, nibble), other) == (if other == shift {
            nibble
        } else {
            hats_nibble(hats, other)
        }),
        hats_with_nibble(hats, shift, nibble) >> 16u32 == hats >> 16u32,
{
}

/// Setting a button writes one bit. After `button` is set to `pressed`, every
/// button of the device reads as it did before, except `button` itself, which
/// reads as `pressed`.
pub proof fn lemma_set_button_writes_one_bit(
    position: PositionV2,
    button: int,
    pressed: bool,
    other: int,
)
    requires
        valid_button(button),
        valid_button(other),
    ensures
        position.with_button(button, pressed).is_pressed(other) == (if other == button {
            pressed
        } else {
            position.is_pressed(other)
        }),
{
    if button_segment(other) == button_segment(button) {
        lemma_written_bit(
            position.buttons(button_segment(button)),
            button_bit(button),
            pressed,
            button_bit(other),
        );
    }
}

/// Setting a button changes the mask of its segment and nothing else: the
/// other three masks, the hats, the axes and the device field stay as they were.
pub proof fn lemma_set_button_keeps_the_rest(position: PositionV2, button: int, pressed: bool)
    requires
        valid_button(button),
    ensures
        forall|segment: int|
            0 <= segment < 4 && segment != button_segment(button) ==> #[trigger] position.with_button(
                button,
                pressed,
            ).buttons(segment) == position.buttons(segment),
        position.with_button(button, pressed) == position.with_buttons(
            button_segment(button),
            position.with_button(button, pressed).buttons(button_segment(button)),
        ),
{
}

/// The first press sets exactly one bit. Where no button is pressed, pressing
/// `button` leaves its segment's mask with the one bit `(button - 1) % 32`
/// and the other masks at zero.
pub proof fn lemma_first_press_sets_one_bit(position: PositionV2, button: int)
    requires
        valid_button(button),
        position.lButtons == 0,
        position.lButtonsEx1 == 0,
        position.lButtonsEx2 == 0,
        position.lButtonsEx3 == 0,
    ensures
        forall|segment: int|
            0 <= segment < 4 ==> #[trigger] position.with_button(button, true).buttons(segment)
                == (if segment == (button - 1) / 32 {
                1u32 << (((button - 1) % 32) as u32)
            } else {
                0u32
            }),
{
    lemma_first_bit(button_bit(button));
}

/// Pressing and then releasing a button that was released restores the exact
/// position. This holds for an invalid number too, which changes nothing.
pub proof fn lemma_press_then_release_restores(position: PositionV2, button: int)
    requires
        !position.is_pressed(button),
    ensures
        position.after_set_button(button, true).after_set_button(button, false) == position,
{
    if valid_button(button) {
        lemma_set_then_cleared_bit(position.buttons(button_segment(button)), button_bit(button));
    }
}

/// Setting a discrete POV writes its own nibble of `bHats` and nothing else:
/// the POV reads as the direction's nibble, the other three POVs read as
/// before, the upper half of `bHats` and every other field stay as they were.
pub proof fn lemma_set_disc_pov_writes_one_nibble(
    position: PositionV2,
    pov: VJDPovNumber,
    direction: VJDPovDisc,
    other: VJDPovNumber,
)
    ensures
        position.with_disc_pov(pov, direction).disc_pov(other.spec_number()) == (if other == pov {
            direction.spec_nibble()
        } else {
            position.disc_pov(other.spec_number())
        }),
        position.with_disc_pov(pov, direction).bHats >> 16u32 == position.bHats >> 16u32,
        position.with_disc_pov(pov, direction) == (PositionV2 {
            bHats: position.with_disc_pov(pov, direction).bHats,
            ..position
        }),
{
    lemma_written_nibble(
        position.bHats,
        pov_shift(pov.spec_number()),
        direction.spec_nibble(),
        pov_shift(other.spec_number()),
    );
}

/// Setting a continuous POV replaces its own hat field and nothing else.
pub proof fn lemma_set_cont_pov_writes_one_hat(
    position: PositionV2,
    pov: VJDPovNumber,
    value: u32,
    other: VJDPovNumber,
)
    ensures
        position.with_hat(pov.spec_number(), value).hat(other.spec_number()) == (if other == pov {
            value
        } else {
            position.hat(other.spec_number())
        }),
        forall|segment: int|
            #[trigger] position.with_hat(pov.spec_number(), value).buttons(segment)
                == position.buttons(segment),
{
}

} // verus!
