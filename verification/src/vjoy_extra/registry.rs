//! The vJoy devices that the registry lists.
//!
//! The driver keeps one registry key for each configured device, named
//! `Device` and the number of the device. This module reads such names.

use vstd::prelude::*;
use vstd::string::*;

use crate::ffi::rusty_structure::VJDevice;
use crate::vjoy_base::driver::VJGeneral;

verus! {

/// `std::io::Error`, the error of a failed access to the registry. It is
/// carried through as it came; nothing is read of it and nothing claimed.
#[verifier::external_type_specification]
#[verifier::external_body]
pub struct ExIoError(std::io::Error);

/// Describes an error state of [`reg_vjoy_devices`].
#[derive(Debug)]
pub enum VJDRegistryError {
    /// A device number was not in the range 1..=16. This is a sign of
    /// malformed entries.
    InvalidDevice,
    /// A device number found in registry appeared in an unordered fashion.
    /// This is a sign of malformed entries.
    InvalidOrder,
    /// A device number was found at least twice in registry. This is a sign
    /// of malformed entries.
    DuplicateEntry,
    /// The access to the registry path where devices are registered has
    /// failed. The error is provided for further investigation.
    PathError(std::io::Error),
}

/// Whether `c` is one of the digits 0 to 9.
pub open spec fn is_digit(c: char) -> bool {
    48 <= c as int <= 57
}

/// The value of the digit `c`.
pub open spec fn digit_value(c: char) -> int {
    c as int - 48
}

/// Whether `text` holds digits only.
pub open spec fn all_digits(text: Seq<char>) -> bool {
    forall|i: int| 0 <= i < text.len() ==> is_digit(#[trigger] text[i])
}

/// The number that the digits of `text` spell in base ten; 0 for no digits.
pub open spec fn digits_value(text: Seq<char>) -> int
    decreases text.len(),
{
    if text.len() == 0 {
        0
    } else {
        digits_value(text.drop_last()) * 10 + digit_value(text.last())
    }
}

/// The number up to 255 that `text` spells: an optional plus sign, then one
/// digit or more and nothing else. Other texts spell no number.
pub open spec fn spec_parse_u8(text: Seq<char>) -> Option<u8> {
    let digits = if text.len() > 0 && text[0] == '+' {
        text.drop_first()
    } else {
        text
    };
    if digits.len() > 0 && all_digits(digits) && digits_value(digits) <= 255 {
        Some(digits_value(digits) as u8)
    } else {
        None
    }
}

/// The number that a key name carries behind `prefix`, if it carries one:
/// the name starts with `prefix`, goes on after it, and what follows spells
/// a number up to 255.
pub open spec fn spec_device_number(key: Seq<char>, prefix: Seq<char>) -> Option<u8> {
    if key.len() > prefix.len() && key.subrange(0, prefix.len() as int) == prefix {
        spec_parse_u8(key.subrange(prefix.len() as int, key.len() as int))
    } else {
        None
    }
}

/// Whether the numbers of `devices` rise strictly.
pub open spec fn strictly_rising(devices: Seq<VJDevice>) -> bool {
    forall|i: int, j: int|
        0 <= i < j < devices.len() ==> (#[trigger] devices[i]).spec_id() < (
        #[trigger] devices[j]).spec_id()
}

/// What listing device number `number` makes of the devices listed so far:
/// the list with the device at its end, or the reason why the number cannot
/// follow: it is no device number, it is listed already, or a higher one is.
pub open spec fn spec_add_device(found: Seq<VJDevice>, number: int) -> Result<
    Seq<VJDevice>,
    VJDRegistryError,
> {
    if number < 1 || number > 16 {
        Err(VJDRegistryError::InvalidDevice)
    } else if exists|k: int| 0 <= k < found.len() && (#[trigger] found[k]).spec_id() == number {
        Err(VJDRegistryError::DuplicateEntry)
    } else if exists|k: int| 0 <= k < found.len() && (#[trigger] found[k]).spec_id() > number {
        Err(VJDRegistryError::InvalidOrder)
    } else {
        Ok(found.push(VJDevice::spec_with_id(number)))
    }
}

/// The devices that the key names `keys` list, in their order, or the first
/// reason why they list none. Names that carry no number are passed over.
pub open spec fn spec_registered(keys: Seq<Seq<char>>, prefix: Seq<char>) -> Result<
    Seq<VJDevice>,
    VJDRegistryError,
>
    decreases keys.len(),
{
    if keys.len() == 0 {
        Ok(Seq::empty())
    } else {
        match spec_registered(keys.drop_last(), prefix) {
            Err(e) => Err(e),
            Ok(found) => match spec_device_number(keys.last(), prefix) {
                None => Ok(found),
                Some(number) => spec_add_device(found, number as int),
            },
        }
    }
}

/// The devices that key names list have strictly rising numbers.
pub proof fn lemma_registered_rises(keys: Seq<Seq<char>>, prefix: Seq<char>)
    ensures
        spec_registered(keys, prefix) matches Ok(found) ==> strictly_rising(found),
    decreases keys.len(),
{
    if keys.len() > 0 {
        lemma_registered_rises(keys.drop_last(), prefix);
    }
}

/// The numbers that the key names `keys` carry, in their order.
pub open spec fn spec_numbers(keys: Seq<Seq<char>>, prefix: Seq<char>) -> Seq<int>
    decreases keys.len(),
{
    if keys.len() == 0 {
        Seq::empty()
    } else {
        match spec_device_number(keys.last(), prefix) {
            None => spec_numbers(keys.drop_last(), prefix),
            Some(number) => spec_numbers(keys.drop_last(), prefix).push(number as int),
        }
    }
}

/// Whether `numbers` are device numbers that rise strictly.
pub open spec fn rising_device_numbers(numbers: Seq<int>) -> bool {
    &&& forall|i: int| 0 <= i < numbers.len() ==> 1 <= #[trigger] numbers[i] <= 16
    &&& forall|i: int, j: int| 0 <= i < j < numbers.len() ==> #[trigger] numbers[i] < #[trigger] numbers[j]
}

/// Key names list devices exactly when the numbers they carry are device
/// numbers that rise strictly, and then they list the devices of just these
/// numbers, in their order.
pub proof fn lemma_registered_lists_the_numbers(keys: Seq<Seq<char>>, prefix: Seq<char>)
    ensures
        spec_registered(keys, prefix) is Ok <==> rising_device_numbers(spec_numbers(keys, prefix)),
        spec_registered(keys, prefix) matches Ok(found) ==> found.len() == spec_numbers(
            keys,
            prefix,
        ).len() && forall|i: int|
            0 <= i < found.len() ==> (#[trigger] found[i]).spec_id() == spec_numbers(
                keys,
                prefix,
            )[i],
    decreases keys.len(),
{
    if keys.len() > 0 {
        let rest = keys.drop_last();
        lemma_registered_lists_the_numbers(rest, prefix);
        let before = spec_numbers(rest, prefix);
        let numbers = spec_numbers(keys, prefix);
        match spec_device_number(keys.last(), prefix) {
            None => {},
            Some(number) => {
                let n = number as int;
                assert(numbers == before.push(n));
                assert forall|i: int| 0 <= i < before.len() implies before[i] == numbers[i] by {}
                if rising_device_numbers(numbers) {
                    assert forall|i: int| 0 <= i < before.len() implies 1 <= #[trigger] before[i]
                        <= 16 by {
                        assert(before[i] == numbers[i]);
                    }
                    assert forall|i: int, j: int| 0 <= i < j < before.len() implies #[trigger] before[i]
                        < #[trigger] before[j] by {
                        assert(before[i] == numbers[i] && before[j] == numbers[j]);
                    }
                    assert(rising_device_numbers(before));
                    let found = spec_registered(rest, prefix)->Ok_0;
                    assert(1 <= numbers[before.len() as int] <= 16);
                    assert forall|k: int| 0 <= k < found.len() implies (#[trigger] found[k]).spec_id()
                        < n by {
                        assert(numbers[k] < numbers[before.len() as int]);
                    }
                    assert(spec_registered(keys, prefix) is Ok);
                }
                if spec_registered(keys, prefix) is Ok {
                    let found = spec_registered(rest, prefix)->Ok_0;
                    assert forall|i: int, j: int| 0 <= i < j < numbers.len() implies #[trigger] numbers[i]
                        < #[trigger] numbers[j] by {
                        if j < before.len() {
                            assert(before[i] < before[j]);
                        } else {
                            assert(found[i].spec_id() == before[i]);
                            assert(!(found[i].spec_id() == n));
                            assert(!(found[i].spec_id() > n));
                        }
                    }
                    assert forall|i: int| 0 <= i < numbers.len() implies 1 <= #[trigger] numbers[i]
                        <= 16 by {
                        if i < before.len() {
                            assert(1 <= before[i] <= 16);
                        }
                    }
                }
            },
        }
    }
}

/// An error among the first key names is the error of all of them.
pub proof fn lemma_registered_error_stays(keys: Seq<Seq<char>>, prefix: Seq<char>, n: int)
    requires
        0 <= n <= keys.len(),
        spec_registered(keys.take(n), prefix) is Err,
    ensures
        spec_registered(keys, prefix) == spec_registered(keys.take(n), prefix),
    decreases keys.len() - n,
{
    if n < keys.len() {
        assert(keys.take(n + 1).drop_last() == keys.take(n));
        lemma_registered_error_stays(keys, prefix, n + 1);
    } else {
        assert(keys.take(n) == keys);
    }
}

proof fn lemma_digits_value_grows(text: Seq<char>, n: int)
    requires
        all_digits(text),
        0 <= n <= text.len(),
    ensures
        0 <= digits_value(text.take(n)) <= digits_value(text),
    decreases text.len() - n,
{
    if n == text.len() {
        assert(text.take(n) == text);
        lemma_digits_value_pos(text);
    } else {
        assert(text.take(n + 1).drop_last() == text.take(n));
        assert(is_digit(text[n]));
        assert(text.take(n + 1).last() == text[n]);
        lemma_digits_value_grows(text, n + 1);
        lemma_digits_value_pos(text.take(n));
    }
}

proof fn lemma_digits_value_pos(text: Seq<char>)
    requires
        all_digits(text),
    ensures
        0 <= digits_value(text),
    decreases text.len(),
{
    if text.len() > 0 {
        assert(is_digit(text.last()));
        lemma_digits_value_pos(text.drop_last());
    }
}

/// The number up to 255 that `text` spells from its character `from` on.
fn parse_u8(text: &str, from: usize) -> (r: Option<u8>)
    requires
        from <= text@.len(),
    ensures
        r == spec_parse_u8(text@.subrange(from as int, text@.len() as int)),
{
    let len = text.unicode_len();
    let ghost whole = text@.subrange(from as int, len as int);
    let mut start = from;
    if start < len && text.get_char(start) == '+' {
        start = start + 1;
    }
    let ghost digits = text@.subrange(start as int, len as int);
    proof {
        if start > from {
            assert(whole[0] == '+');
            assert(whole.drop_first() == digits);
        } else {
            assert(whole == digits);
            assert(!(whole.len() > 0 && whole[0] == '+'));
        }
    }
    if start == len {
        return None;
    }
    let ghost target = spec_parse_u8(whole);
    let mut value: u8 = 0;
    let mut i = start;
    proof {
        assert(digits.take(0) == Seq::<char>::empty());
    }
    while i < len
        invariant
            start <= i <= len,
            len == text@.len(),
            digits == text@.subrange(start as int, len as int),
            target == spec_parse_u8(text@.subrange(from as int, text@.len() as int)),
            target == (if all_digits(digits) && digits_value(digits) <= 255 {
                Some(digits_value(digits) as u8)
            } else {
                None
            }),
            all_digits(digits.take(i - start)),
            value == digits_value(digits.take(i - start)),
        decreases len - i,
    {
        let c = text.get_char(i);
        let ghost seen = digits.take(i - start);
        let ghost next = digits.take(i - start + 1);
        proof {
            assert(digits[i - start] == c);
            assert(next.drop_last() == seen);
            assert(next.last() == c);
        }
        if c < '0' || c > '9' {
            proof {
                assert(!is_digit(digits[i - start]));
            }
            return None;
        }
        let digit: u8 = (c as u8) - 48;
        proof {
            assert(digits_value(next) == value * 10 + digit);
            assert forall|j: int| 0 <= j < next.len() implies is_digit(#[trigger] next[j]) by {
                if j < seen.len() {
                    assert(seen[j] == next[j]);
                }
            }
        }
        if value > 25 || (value == 25 && digit > 5) {
            proof {
                if all_digits(digits) {
                    lemma_digits_value_grows(digits, i - start + 1);
                }
            }
            return None;
        }
        value = value * 10 + digit;
        i = i + 1;
    }
    proof {
        assert(digits.take(len - start) == digits);
    }
    Some(value)
}

/// The number that the key name `key` carries behind `prefix`, if it
/// carries one.
pub fn device_number(key: &str, prefix: &str) -> (r: Option<u8>)
    ensures
        r == spec_device_number(key@, prefix@),
{
    let key_len = key.unicode_len();
    let prefix_len = prefix.unicode_len();
    if key_len <= prefix_len {
        return None;
    }
    let mut i: usize = 0;
    while i < prefix_len
        invariant
            i <= prefix_len < key_len,
            prefix_len == prefix@.len(),
            key_len == key@.len(),
            key@.subrange(0, i as int) == prefix@.subrange(0, i as int),
        decreases prefix_len - i,
    {
        if key.get_char(i) != prefix.get_char(i) {
            proof {
                assert(key@.subrange(0, prefix_len as int)[i as int] != prefix@[i as int]);
            }
            return None;
        }
        proof {
            assert(key@.subrange(0, i + 1) == key@.subrange(0, i as int).push(key@[i as int]));
            assert(prefix@.subrange(0, i + 1) == prefix@.subrange(0, i as int).push(
                prefix@[i as int],
            ));
        }
        i = i + 1;
    }
    proof {
        assert(prefix@.subrange(0, prefix_len as int) == prefix@);
    }
    parse_u8(key, prefix_len)
}

/// Lists device number `number` behind the devices `found`, whose numbers
/// rise strictly.
fn add_device(found: &mut Vec<VJDevice>, number: u8) -> (r: Result<(), VJDRegistryError>)
    requires
        strictly_rising(old(found)@),
    ensures
        match spec_add_device(old(found)@, number as int) {
            Ok(list) => r is Ok && final(found)@ == list,
            Err(e) => r == Err::<(), VJDRegistryError>(e) && final(found)@ == old(found)@,
        },
        strictly_rising(final(found)@),
{
    let device = match VJDevice::get_from(number) {
        Some(device) => device,
        None => {
            return Err(VJDRegistryError::InvalidDevice);
        },
    };
    let mut k: usize = 0;
    while k < found.len()
        invariant
            k <= found@.len(),
            found@ == old(found)@,
            strictly_rising(found@),
            device.spec_id() == number,
            device == VJDevice::spec_with_id(number as int),
            forall|j: int| 0 <= j < k ==> (#[trigger] found@[j]).spec_id() < number,
        decreases found@.len() - k,
    {
        let listed = found[k].id();
        if listed == number {
            return Err(VJDRegistryError::DuplicateEntry);
        }
        if listed > number {
            proof {
                assert forall|j: int| 0 <= j < found@.len() implies (#[trigger] found@[j]).spec_id()
                    != number by {
                    if j > k {
                        assert(found@[k as int].spec_id() < found@[j].spec_id());
                    }
                }
            }
            return Err(VJDRegistryError::InvalidOrder);
        }
        k = k + 1;
    }
    found.push(device);
    Ok(())
}

/// The devices that the key names `names` list.
fn list_devices(names: &Vec<String>, prefix: &str) -> (r: Result<Vec<VJDevice>, VJDRegistryError>)
    ensures
        match spec_registered(names.deep_view(), prefix@) {
            Ok(devices) => r matches Ok(list) && list@ == devices,
            Err(e) => r == Err::<Vec<VJDevice>, VJDRegistryError>(e),
        },
{
    let ghost all = names.deep_view();
    let mut found: Vec<VJDevice> = Vec::new();
    let mut i: usize = 0;
    proof {
        assert(all.take(0) == Seq::<Seq<char>>::empty());
    }
    while i < names.len()
        invariant
            i <= names@.len(),
            all == names.deep_view(),
            all.len() == names@.len(),
            spec_registered(all.take(i as int), prefix@) == Ok::<Seq<VJDevice>, VJDRegistryError>(
                found@,
            ),
            strictly_rising(found@),
        decreases names@.len() - i,
    {
        proof {
            assert(all.take(i + 1).drop_last() == all.take(i as int));
            assert(all.take(i + 1).last() == names@[i as int]@);
        }
        match device_number(names[i].as_str(), prefix) {
            None => {},
            Some(number) => {
                match add_device(&mut found, number) {
                    Ok(()) => {},
                    Err(e) => {
                        proof {
                            lemma_registered_error_stays(all, prefix@, i + 1);
                        }
                        return Err(e);
                    },
                }
            },
        }
        i = i + 1;
    }
    proof {
        assert(all.take(i as int) == all);
    }
    Ok(found)
}

/// Returns the list of the devices that the registry lists, or the reason
/// why there is none. The list is ordered.
///
/// `keys` is what reading the registry gave: the names of the keys under
/// `VJGeneral::REG_DEVICES_PATH`, in the order in which the registry hands
/// them out, or the error of the access. The key of a device is named
/// `VJGeneral::REG_DEVICE_PREFIX` and the number of the device.
pub fn reg_vjoy_devices(keys: Result<Vec<String>, std::io::Error>) -> (r: Result<
    Vec<VJDevice>,
    VJDRegistryError,
>)
    ensures
        match keys {
            Err(error) => r == Err::<Vec<VJDevice>, VJDRegistryError>(
                VJDRegistryError::PathError(error),
            ),
            Ok(names) => match spec_registered(names.deep_view(), VJGeneral::REG_DEVICE_PREFIX@) {
                Ok(devices) => r matches Ok(list) && list@ == devices,
                Err(e) => r == Err::<Vec<VJDevice>, VJDRegistryError>(e),
            },
        },
{
    match keys {
        Ok(names) => list_devices(&names, VJGeneral::REG_DEVICE_PREFIX),
        Err(error) => Err(VJDRegistryError::PathError(error)),
    }
}

} // verus!
