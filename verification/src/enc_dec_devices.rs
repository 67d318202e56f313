//! The whole result of an enumeration: every device that was found.

use vstd::prelude::*;
use crate::device::Device;
use crate::device::DeviceView;
use crate::ownership::backing;
use crate::ownership::lemma_owned_by_all_agrees;
use crate::ownership::owned_by_all;
use crate::ownership::Allocation;
use crate::ownership::Owner;
use crate::utils::drop_vec;
use crate::utils::is_packed;
use crate::utils::lemma_pack_then_drop;
use crate::utils::packed_items;
use crate::utils::spec_drop_vec;
use crate::utils::spec_vec_to_ptr;
use crate::utils::vec_to_ptr;

verus! {

/// The list of devices, in its boundary form. It is the root of the tree of
/// ownership: a consumer receives it whole and hands it back whole.
#[derive(Debug, PartialEq, Eq)]
pub struct EncDecDevices {
    devices: Option<Vec<Device>>,
    num_devices: u32,
}

/// What each device description of a list says.
pub open spec fn device_views(devices: Seq<Device>) -> Seq<DeviceView> {
    devices.map_values(|d: Device| d@)
}

impl View for EncDecDevices {
    type V = Seq<DeviceView>;

    open spec fn view(&self) -> Seq<DeviceView> {
        device_views(packed_items(self.spec_devices()))
    }
}

impl Clone for EncDecDevices {
    /// Copies the whole tree. The copy says what the result says and owns
    /// allocations of its own, as many and of the same kinds.
    fn clone(&self) -> (r: Self)
        ensures
            r.wf(),
            r@ == self@,
            r.owned() == self.owned(),
    {
        proof {
            use_type_invariant(self);
        }
        let devices = match &self.devices {
            Some(list) => {
                let copy = list.clone();
                proof {
                    assert forall|i: int| 0 <= i < list@.len() implies (#[trigger] list@[i])@
                        == copy@[i]@ && list@[i].owned() == copy@[i].owned() by {
                        assert(cloned::<Device>(list@[i], copy@[i]));
                    }
                    assert(device_views(list@) =~= device_views(copy@));
                    lemma_owned_by_all_agrees(list@, copy@);
                }
                Some(copy)
            },
            None => None,
        };

        Self { devices, num_devices: self.num_devices }
    }
}

impl EncDecDevices {
    /// The pointer to the devices; `None` is the null pointer.
    pub closed spec fn spec_devices(&self) -> Option<Vec<Device>> {
        self.devices
    }

    /// The count that goes with the pointer to the devices.
    pub closed spec fn spec_num_devices(&self) -> u32 {
        self.num_devices
    }

    /// The pointer and the count are in packed form: the pointer is null
    /// exactly when the count is 0, and a backing store holds as many devices
    /// as the count tells. Every result that exists while the program runs is
    /// of this form.
    #[verifier::type_invariant]
    pub open spec fn wf(&self) -> bool {
        is_packed(self.spec_devices(), self.spec_num_devices())
    }

    /// The allocations that the result owns, in the order in which its
    /// teardown releases them: what each device owns, device by device, and
    /// then the backing store of the devices.
    pub open spec fn owned(&self) -> Seq<Allocation> {
        spec_drop_vec(self.spec_devices(), self.spec_num_devices())
    }

    /// Packs the devices that were found, taking the list over.
    pub fn new(devices: Vec<Device>) -> (r: Self)
        requires
            devices@.len() <= u32::MAX,
        ensures
            r.wf(),
            (r.spec_devices(), r.spec_num_devices()) == spec_vec_to_ptr(devices),
            r@ == device_views(devices@),
            r.owned() == owned_by_all(devices@) + backing::<Device>(devices@.len() as u32),
    {
        proof {
            lemma_pack_then_drop(devices);
        }
        let (devices, num_devices) = vec_to_ptr(devices);

        Self { devices, num_devices }
    }

    /// The pointer to the devices; `None` is the null pointer.
    pub fn devices(&self) -> (p: Option<&Vec<Device>>)
        ensures
            p is None <==> self.spec_devices() is None,
            p matches Some(v) ==> self.spec_devices() == Some(*v),
            p is None <==> self.spec_num_devices() == 0,
            p matches Some(v) ==> v@.len() == self.spec_num_devices(),
    {
        proof {
            use_type_invariant(self);
        }
        self.devices.as_ref()
    }

    /// The count that goes with the pointer to the devices.
    #[verifier::when_used_as_spec(spec_num_devices)]
    pub fn num_devices(&self) -> (n: u32)
        ensures
            n == self.spec_num_devices(),
    {
        self.num_devices
    }

    /// Tears the whole tree down: every device in order, each with all that
    /// it owns, and the backing store of the devices last. Reports each
    /// allocation that was released, in order.
    pub fn release(self) -> (freed: Vec<Allocation>)
        ensures
            freed@ == self.owned(),
    {
        proof {
            use_type_invariant(&self);
        }
        if self.num_devices > 0 {
            drop_vec(self.devices, self.num_devices)
        } else {
            Vec::new()
        }
    }

    /// In a well-formed result the pointer to the devices is null exactly
    /// when the count is 0, and the count is the number of devices.
    pub proof fn lemma_null_iff_count_zero(self)
        requires
            self.wf(),
        ensures
            self.spec_devices() is None <==> self.spec_num_devices() == 0,
            self.spec_num_devices() == self@.len(),
    {
    }
}

} // verus!
