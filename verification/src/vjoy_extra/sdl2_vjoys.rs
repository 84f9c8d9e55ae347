//! The matching of the joysticks that SDL2 found with the vJoy devices that
//! the registry lists.
//!
//! SDL2 gives every vJoy device the same name and the same GUID. What tells
//! them apart is the order: the joysticks in the order of their instance
//! ids belong to the registered devices in the order of their numbers.

use vstd::prelude::*;
use vstd::string::*;

use crate::ffi::rusty_structure::VJDevice;
use crate::vjoy_extra::registry::VJDRegistryError;
use crate::vjoy_extra::SDL2Helper;

verus! {

/// Describes error from [`SDL2Helper::get_vjoys`].
#[derive(Debug)]
pub enum SDL2VjoyError {
    /// The number of vjoy joysticks found by SDL2 doesn't match the number of
    /// vjoy devices found in the windows registry.
    DeviceCountError,
    /// Registry error when trying to capture vjoy registered devices in the
    /// windows registry.
    RegError(VJDRegistryError),
    /// A given integer was so big that its representation as a C integer
    /// would be negative.
    IntegerOverflows(&'static str, u32),
    /// SDL2 error.
    SdlError(String),
}

/// Whether the joystick at place `a` comes before the one at place `b` when
/// the joysticks with instance ids `ids` are put in order: by instance id,
/// and by place among those with one id.
pub open spec fn joystick_before(ids: Seq<u32>, a: int, b: int) -> bool {
    ids[a] < ids[b] || (ids[a] == ids[b] && a < b)
}

/// Whether `order` lists the places `0..ids.len()` in the order of their
/// instance ids: every place once, each before all that come after it.
pub open spec fn is_joystick_order(ids: Seq<u32>, order: Seq<usize>) -> bool {
    &&& order.len() == ids.len()
    &&& forall|k: int| 0 <= k < order.len() ==> 0 <= #[trigger] order[k] < ids.len()
    &&& forall|place: usize| place < ids.len() ==> #[trigger] order.contains(place)
    &&& forall|k: int, l: int|
        0 <= k < l < order.len() ==> joystick_before(
            ids,
            #[trigger] order[k] as int,
            #[trigger] order[l] as int,
        )
}

proof fn lemma_orders_agree_up_to(ids: Seq<u32>, a: Seq<usize>, b: Seq<usize>, n: int)
    requires
        is_joystick_order(ids, a),
        is_joystick_order(ids, b),
        0 <= n <= ids.len(),
    ensures
        forall|j: int| 0 <= j < n ==> a[j] == b[j],
    decreases n,
{
    if n > 0 {
        lemma_orders_agree_up_to(ids, a, b, n - 1);
        let k = n - 1;
        assert(b.contains(a[k]));
        let m = choose|m: int| 0 <= m < b.len() && b[m] == a[k];
        assert(a.contains(b[k]));
        let w = choose|w: int| 0 <= w < a.len() && a[w] == b[k];
        if m < k {
            assert(a[m] == b[m]);
            assert(joystick_before(ids, a[m] as int, a[k] as int));
        }
        if w < k {
            assert(a[w] == b[w]);
            assert(joystick_before(ids, b[w] as int, b[k] as int));
        }
        if m > k {
            assert(joystick_before(ids, b[k] as int, b[m] as int));
            if w > k {
                assert(joystick_before(ids, a[k] as int, a[w] as int));
            }
        }
    }
}

/// There is one order of the joysticks only: two lists that both put the
/// places in the order of their instance ids are the same list.
pub proof fn lemma_joystick_order_is_unique(ids: Seq<u32>, a: Seq<usize>, b: Seq<usize>)
    requires
        is_joystick_order(ids, a),
        is_joystick_order(ids, b),
    ensures
        a == b,
{
    lemma_orders_agree_up_to(ids, a, b, ids.len() as int);
    assert(a =~= b);
}

/// The places of the first `count` joysticks, in the order of their instance ids.
spec fn is_partial_order(ids: Seq<u32>, order: Seq<usize>, count: int) -> bool {
    &&& order.len() == count
    &&& forall|k: int| 0 <= k < order.len() ==> 0 <= #[trigger] order[k] < count
    &&& forall|place: usize| place < count ==> #[trigger] order.contains(place)
    &&& forall|k: int, l: int|
        0 <= k < l < order.len() ==> joystick_before(
            ids,
            #[trigger] order[k] as int,
            #[trigger] order[l] as int,
        )
}

/// The places of the joysticks with instance ids `ids`, in the order of
/// their instance ids; joysticks with one id keep their order.
pub fn joystick_order(ids: &Vec<u32>) -> (r: Vec<usize>)
    ensures
        is_joystick_order(ids@, r@),
{
    let mut order: Vec<usize> = Vec::new();
    let mut next: usize = 0;
    while next < ids.len()
        invariant
            next <= ids@.len(),
            is_partial_order(ids@, order@, next as int),
        decreases ids@.len() - next,
    {
        let mut at: usize = 0;
        while at < order.len() && ids[order[at]] <= ids[next]
            invariant
                at <= order@.len(),
                next < ids@.len(),
                is_partial_order(ids@, order@, next as int),
                forall|k: int| 0 <= k < at ==> ids@[#[trigger] order@[k] as int] <= ids@[next as int],
            decreases order@.len() - at,
        {
            at = at + 1;
        }
        let ghost before = order@;
        order.insert(at, next);
        proof {
            let after = order@;
            assert(after == before.insert(at as int, next));
            assert forall|k: int| 0 <= k < after.len() implies 0 <= #[trigger] after[k] < next
                + 1 by {
                if k < at {
                    assert(after[k] == before[k]);
                } else if k > at {
                    assert(after[k] == before[k - 1]);
                }
            }
            assert forall|place: usize| place < next + 1 implies #[trigger] after.contains(
                place,
            ) by {
                if place == next {
                    assert(after[at as int] == place);
                } else {
                    assert(before.contains(place));
                    let k = choose|k: int| 0 <= k < before.len() && before[k] == place;
                    if k < at {
                        assert(after[k] == place);
                    } else {
                        assert(after[k + 1] == place);
                    }
                }
            }
            assert forall|k: int, l: int| 0 <= k < l < after.len() implies joystick_before(
                ids@,
                #[trigger] after[k] as int,
                #[trigger] after[l] as int,
            ) by {
                if l < at {
                    assert(after[k] == before[k] && after[l] == before[l]);
                } else if l == at {
                    assert(after[k] == before[k]);
                    assert(before[k] < next);
                } else if k > at {
                    assert(after[k] == before[k - 1] && after[l] == before[l - 1]);
                } else {
                    assert(after[l] == before[l - 1]);
                    assert(at < before.len());
                    assert(ids@[before[at as int] as int] > ids@[next as int]);
                    if l - 1 > at {
                        assert(joystick_before(
                            ids@,
                            before[at as int] as int,
                            before[l - 1] as int,
                        ));
                    }
                    if k < at {
                        assert(after[k] == before[k]);
                        assert(joystick_before(ids@, before[k] as int, before[l - 1] as int));
                    }
                }
            }
        }
        next = next + 1;
    }
    order
}

impl SDL2Helper {
    /// Whether `name` is the name under which SDL2 lists a vJoy device.
    pub fn is_vjoy(name: &str) -> (r: bool)
        ensures
            r == (name@ == "vJoy Device"@),
    {
        name.to_owned() == "vJoy Device".to_owned()
    }

    /// Returns which joystick of SDL2 belongs to which vJoy device.
    ///
    /// `instance_ids` are the instance ids of the vJoy joysticks that SDL2
    /// opened, in the order in which it found them. `reg_devices` is what
    /// reading the registry gave. The result holds one pair for each
    /// registered device, in the order of the registry: the device, and the
    /// place in `instance_ids` of its joystick. The joystick with the lowest
    /// instance id belongs to the first device, and so on; of joysticks with
    /// one instance id the one found first comes first.
    ///
    /// A registry error comes back as `RegError`. Where the registry lists
    /// more or fewer devices than SDL2 found joysticks, the result is
    /// `DeviceCountError`.
    pub fn get_vjoys(
        instance_ids: &Vec<u32>,
        reg_devices: Result<Vec<VJDevice>, VJDRegistryError>,
    ) -> (r: Result<Vec<(VJDevice, usize)>, SDL2VjoyError>)
        ensures
            match reg_devices {
                Err(error) => r == Err::<Vec<(VJDevice, usize)>, SDL2VjoyError>(
                    SDL2VjoyError::RegError(error),
                ),
                Ok(devices) => if devices@.len() != instance_ids@.len() {
                    r == Err::<Vec<(VJDevice, usize)>, SDL2VjoyError>(
                        SDL2VjoyError::DeviceCountError,
                    )
                } else {
                    r matches Ok(pairs) && pairs@.len() == devices@.len() && is_joystick_order(
                        instance_ids@,
                        pairs@.map_values(|pair: (VJDevice, usize)| pair.1),
                    ) && pairs@.map_values(|pair: (VJDevice, usize)| pair.0) == devices@
                },
            },
    {
        match reg_devices {
            Err(error) => Err(SDL2VjoyError::RegError(error)),
            Ok(devices) => {
                if instance_ids.len() != devices.len() {
                    return Err(SDL2VjoyError::DeviceCountError);
                }
                let order = joystick_order(instance_ids);
                Ok(Self::pair_up(&devices, &order))
            },
        }
    }

    fn pair_up(devices: &Vec<VJDevice>, order: &Vec<usize>) -> (r: Vec<(VJDevice, usize)>)
        requires
            devices@.len() == order@.len(),
        ensures
            r@.map_values(|pair: (VJDevice, usize)| pair.0) == devices@,
            r@.map_values(|pair: (VJDevice, usize)| pair.1) == order@,
            r@.len() == devices@.len(),
    {
        let mut pairs: Vec<(VJDevice, usize)> = Vec::new();
        let mut k: usize = 0;
        while k < devices.len()
            invariant
                k <= devices@.len(),
                devices@.len() == order@.len(),
                pairs@.len() == k,
                forall|j: int| 0 <= j < k ==> #[trigger] pairs@[j] == (devices@[j], order@[j]),
            decreases devices@.len() - k,
        {
            pairs.push((devices[k], order[k]));
            k = k + 1;
        }
        proof {
            assert(pairs@.map_values(|pair: (VJDevice, usize)| pair.0) =~= devices@);
            assert(pairs@.map_values(|pair: (VJDevice, usize)| pair.1) =~= order@);
        }
        pairs
    }
}

} // verus!
