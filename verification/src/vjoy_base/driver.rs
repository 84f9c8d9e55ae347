//! Contains general data regarding the installed vJoy device driver.

use vstd::prelude::*;
use widestring::U16Str;

verus! {

/// The value of hexadecimal digit `place` of `raw`, counted from the lowest.
pub open spec fn hex_digit(raw: int, place: int) -> int {
    if place == 0 {
        raw % 16
    } else if place == 1 {
        (raw / 16) % 16
    } else if place == 2 {
        (raw / 256) % 16
    } else {
        (raw / 4096) % 16
    }
}

/// Whether each of the four hexadecimal digits of `raw` is a decimal digit.
pub open spec fn reads_as_decimal(raw: int) -> bool {
    forall|place: int| 0 <= place < 4 ==> #[trigger] hex_digit(raw, place) <= 9
}

/// The number that the hexadecimal digits of `raw` spell when they are read
/// as decimal digits: 0x0219 reads as 219.
pub open spec fn decimal_reading(raw: int) -> int {
    hex_digit(raw, 3) * 1000 + hex_digit(raw, 2) * 100 + hex_digit(raw, 1) * 10 + hex_digit(raw, 0)
}

/// The version that a raw version word stands for, if it stands for one.
///
/// The driver writes a version with one hexadecimal digit for each decimal
/// digit. A word with a digit above 9 stands for nothing, and so does 0.
pub open spec fn spec_version(raw: int) -> Option<u16> {
    if reads_as_decimal(raw) && decimal_reading(raw) != 0 {
        Some(decimal_reading(raw) as u16)
    } else {
        None
    }
}

/// The sixteen bits of `raw`, read without a sign.
pub open spec fn spec_unsigned(raw: i16) -> int {
    if raw >= 0 {
        raw as int
    } else {
        raw + 0x1_0000
    }
}

/// The code units of `units` that come before the first zero; all of them
/// where there is none.
pub open spec fn before_nul(units: Seq<u16>) -> Seq<u16>
    decreases units.len(),
{
    if units.len() == 0 || units[0] == 0 {
        Seq::empty()
    } else {
        seq![units[0]] + before_nul(units.drop_first())
    }
}

/// What comes before the first zero is the longest start without a zero: a
/// start of `units` that holds no zero and ends at the first zero, or at the
/// end where there is no zero.
pub proof fn lemma_before_nul_is_the_start(units: Seq<u16>)
    ensures
        before_nul(units).len() <= units.len(),
        before_nul(units) == units.take(before_nul(units).len() as int),
        forall|i: int| 0 <= i < before_nul(units).len() ==> units[i] != 0,
        before_nul(units).len() < units.len() ==> units[before_nul(units).len() as int] == 0,
    decreases units.len(),
{
    if units.len() > 0 && units[0] != 0 {
        let rest = units.drop_first();
        lemma_before_nul_is_the_start(rest);
        let n = before_nul(rest).len() as int;
        assert(before_nul(units) =~= units.take(n + 1));
        assert forall|i: int| 0 <= i < n + 1 implies units[i] != 0 by {
            if i > 0 {
                assert(units[i] == rest[i - 1]);
            }
        }
        if n + 1 < units.len() {
            assert(units[n + 1] == rest[n]);
        }
    } else {
        assert(before_nul(units) =~= units.take(0));
    }
}

/// The text that `U16Str::to_string_lossy` decodes from UTF-16 code units.
pub uninterp spec fn utf16_lossy(units: Seq<u16>) -> Seq<char>;

/// Decodes UTF-16 code units with `widestring::U16Str::to_string_lossy`,
/// which puts U+FFFD in the place of each invalid sequence. The contract
/// gives the result a name and claims nothing more of it.
#[verifier::external_body]
fn decode_utf16_lossy(units: &Vec<u16>) -> (text: String)
    ensures
        text@ == utf16_lossy(units@),
{
    U16Str::from_slice(units.as_slice()).to_string_lossy()
}

/// The text of a wide string that the driver handed out: `None` where it
/// handed out none, else what the code units before the first zero decode to.
pub fn widestring_ptr_to_string(units: Option<Vec<u16>>) -> (r: Option<String>)
    ensures
        units is None <==> r is None,
        r matches Some(text) ==> text@ == utf16_lossy(before_nul(units->0@)),
{
    match units {
        None => None,
        Some(units) => {
            let text = cut_at_nul(&units);
            Some(decode_utf16_lossy(&text))
        },
    }
}

/// The code units of `units` that come before the first zero.
pub fn cut_at_nul(units: &Vec<u16>) -> (r: Vec<u16>)
    ensures
        r@ == before_nul(units@),
{
    let mut cut: Vec<u16> = Vec::new();
    let mut i: usize = 0;
    proof {
        assert(units@.skip(0) == units@);
        assert(cut@ + before_nul(units@) == before_nul(units@));
    }
    while i < units.len() && units[i] != 0
        invariant
            i <= units.len(),
            before_nul(units@) == cut@ + before_nul(units@.skip(i as int)),
        decreases units.len() - i,
    {
        proof {
            let rest = units@.skip(i as int);
            assert(rest.drop_first() == units@.skip(i + 1));
            assert(cut@.push(units[i as int]) + before_nul(rest.drop_first()) == cut@ + (seq![
                rest[0],
            ] + before_nul(rest.drop_first())));
        }
        cut.push(units[i]);
        i = i + 1;
    }
    proof {
        assert(cut@ + Seq::<u16>::empty() == cut@);
    }
    cut
}

/// Holder of utility methods to read general data regarding the installed vJoy driver.
pub struct VJGeneral(());

impl VJGeneral {
    /// Describes the maximum number of vJoy devices that can potentially exist.
    pub const MAX_DEVICES: u8 = 16;

    /// Describes the maximum value of a vJoy axis.
    pub const MAX_AXIS_VALUE: i32 = 32767;

    /// Describes the minimum value of a vJoy axis.
    pub const MIN_AXIS_VALUE: i32 = 0;

    /// The registry path, under the local machine, where the driver keeps
    /// one key for each configured device.
    pub const REG_DEVICES_PATH: &'static str = "SYSTEM\\CurrentControlSet\\services\\vjoy\\Parameters";

    /// What the name of the registry key of a device starts with; the number
    /// of the device follows.
    pub const REG_DEVICE_PREFIX: &'static str = "Device";

    /// The version that a raw version word stands for: its hexadecimal digits
    /// read as decimal digits. `None` for a word with a digit above 9, and for 0.
    pub fn decode_version(raw: u16) -> (r: Option<u16>)
        ensures
            r == spec_version(raw as int),
    {
        let d0: u16 = raw % 16;
        let d1: u16 = (raw / 16) % 16;
        let d2: u16 = (raw / 256) % 16;
        let d3: u16 = (raw / 4096) % 16;
        assert(d0 == hex_digit(raw as int, 0) && d1 == hex_digit(raw as int, 1) && d2 == hex_digit(
            raw as int,
            2,
        ) && d3 == hex_digit(raw as int, 3));
        if d0 > 9 || d1 > 9 || d2 > 9 || d3 > 9 {
            return None;
        }
        let version: u16 = d3 * 1000 + d2 * 100 + d1 * 10 + d0;
        if version != 0 {
            Some(version)
        } else {
            None
        }
    }

    /// Returns the version number of the installed vJoy driver, or `None` if
    /// no vJoy 2.x is installed and enabled.
    ///
    /// `raw` is the version word that the driver reported, `None` where the
    /// driver is not enabled and was therefore not asked.
    pub fn get_version(raw: Option<i16>) -> (r: Option<u16>)
        ensures
            raw is None ==> r is None,
            raw matches Some(word) ==> r == spec_version(spec_unsigned(word)),
    {
        match raw {
            None => None,
            Some(word) => {
                let unsigned: u16 = if word >= 0 {
                    word as u16
                } else {
                    (word as i32 + 0x1_0000) as u16
                };
                Self::decode_version(unsigned)
            },
        }
    }

    /// Returns the vJoy driver version and the interface library version, or
    /// `None` for either of one if the version cannot be determined.
    ///
    /// The arguments are the two version words as the driver reported them.
    /// The return format is a tuple: (driver_version, dll_version).
    pub fn get_driver_dll_version(driver_raw: u16, dll_raw: u16) -> (r: (Option<u16>, Option<u16>))
        ensures
            r.0 == spec_version(driver_raw as int),
            r.1 == spec_version(dll_raw as int),
    {
        (Self::decode_version(driver_raw), Self::decode_version(dll_raw))
    }
}

} // verus!
