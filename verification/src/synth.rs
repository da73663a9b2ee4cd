//! A deterministic, in-process realization of the capability contract: a
//! fixed row of synthetic devices, each delivering a flat test-pattern frame
//! in the canonical packed pixel format through the single-slot handoff.
//! It stands where a native capture stack would, and lets every facade
//! operation be exercised without hardware.

use vstd::prelude::*;

use crate::camera::{InnerCamera, InnerDevice};
use crate::cycle;
use crate::frame::Frame;
use crate::slot::Slot;

verus! {

/// Identity key of the first synthetic device.
pub const DEVICE_ID_ALPHA: u64 = 0xA1;

/// Identity key of the second synthetic device.
pub const DEVICE_ID_BETA: u64 = 0xB2;

/// Identity key of the third synthetic device.
pub const DEVICE_ID_GAMMA: u64 = 0xC3;

/// Width, in pixels, of every synthetic frame.
pub const FRAME_WIDTH: u32 = 16;

/// Height, in pixels, of every synthetic frame.
pub const FRAME_HEIGHT: u32 = 9;

/// The identity keys of the synthetic devices, in enumeration order.
pub open spec fn device_ids() -> Seq<u64> {
    seq![DEVICE_ID_ALPHA, DEVICE_ID_BETA, DEVICE_ID_GAMMA]
}

/// The label of the synthetic device at position `i` of the enumeration.
pub open spec fn device_label(i: int) -> Seq<char> {
    if i == 0 {
        "Pattern Generator Alpha"@
    } else if i == 1 {
        "Pattern Generator Beta"@
    } else {
        "Pattern Generator Gamma"@
    }
}

/// The synthetic device keys are pairwise distinct.
pub proof fn lemma_device_ids_distinct()
    ensures
        cycle::distinct_ids(device_ids()),
        device_ids().len() == 3,
{
    let ids = device_ids();
    assert(ids[0] == DEVICE_ID_ALPHA);
    assert(ids[1] == DEVICE_ID_BETA);
    assert(ids[2] == DEVICE_ID_GAMMA);
}

/// Byte `i` of the test pattern for the `count`-th delivered frame: every
/// fourth byte is an opaque alpha, the rest carry a per-frame level that is
/// never zero.
pub open spec fn pattern_byte(count: u64, i: int) -> u8 {
    if i % 4 == 3 {
        255
    } else {
        ((count as int) % 200 + 1) as u8
    }
}

/// The whole test-pattern buffer for the `count`-th delivered frame.
pub open spec fn pattern_bytes(count: u64) -> Seq<u8> {
    Seq::new(4 * ((FRAME_WIDTH as nat) * (FRAME_HEIGHT as nat)), |i: int| pattern_byte(count, i))
}

/// The frame counter after one more delivery.
pub open spec fn next_count(count: u64) -> u64 {
    if count == u64::MAX {
        0
    } else {
        (count + 1) as u64
    }
}

/// A synthetic capture device: a stable numeric identity key and a label.
#[derive(Debug)]
pub struct Device {
    id: u64,
    name: String,
}

impl Device {
    #[verifier::type_invariant]
    spec fn labeled(self) -> bool {
        self.name@.len() > 0
    }
}

impl InnerDevice for Device {
    closed spec fn id_spec(&self) -> u64 {
        self.id
    }

    closed spec fn name_spec(&self) -> Seq<char> {
        self.name@
    }

    fn list_all_devices() -> (devices: Vec<Device>)
        ensures
            devices@.len() == device_ids().len(),
            forall|i: int|
                0 <= i < devices@.len() ==> (#[trigger] devices@[i]).id_spec() == device_ids()[i],
            forall|i: int|
                0 <= i < devices@.len() ==> (#[trigger] devices@[i]).name_spec() == device_label(i),
    {
        proof {
            reveal_strlit("Pattern Generator Alpha");
            reveal_strlit("Pattern Generator Beta");
            reveal_strlit("Pattern Generator Gamma");
        }
        let mut devices: Vec<Device> = Vec::new();
        devices.push(Device { id: DEVICE_ID_ALPHA, name: String::from_str("Pattern Generator Alpha") });
        devices.push(Device { id: DEVICE_ID_BETA, name: String::from_str("Pattern Generator Beta") });
        devices.push(Device { id: DEVICE_ID_GAMMA, name: String::from_str("Pattern Generator Gamma") });
        proof {
            lemma_device_ids_distinct();
            assert(devices@.map_values(|d: Device| d.id_spec()) =~= device_ids());
        }
        devices
    }

    fn id(&self) -> (id: u64)
    {
        self.id
    }

    fn name(&self) -> (name: String)
        ensures
            name@.len() > 0,
    {
        proof {
            use_type_invariant(&*self);
        }
        self.name.clone()
    }
}

/// The synthetic realization of the camera capability: one bound device, a
/// running flag, the single-slot handoff, and a delivery counter driving the
/// test pattern.
#[derive(Debug)]
pub struct Camera {
    device: Device,
    running: bool,
    slot: Slot,
    delivered: u64,
}

impl Camera {
    /// How many frames this camera has delivered since it was built.
    pub closed spec fn delivered_spec(&self) -> u64 {
        self.delivered
    }

    /// The identity key of the currently bound device.
    pub fn current_device_id(&self) -> (id: u64)
        ensures
            id == self.device_id_spec(),
    {
        self.device.id
    }
}

/// Renders the flat test-pattern frame for the `count`-th delivery.
fn render_frame(count: u64) -> (frame: Frame)
    ensures
        frame.wf(),
        frame.width_spec() == FRAME_WIDTH,
        frame.height_spec() == FRAME_HEIGHT,
        frame.bytes_spec() == pattern_bytes(count),
{
    let level: u8 = (count % 200) as u8 + 1;
    let total: usize = (4 * FRAME_WIDTH * FRAME_HEIGHT) as usize;
    let mut bytes: Vec<u8> = Vec::new();
    let mut i: usize = 0;
    while i < total
        invariant
            i <= total,
            total == 4 * ((FRAME_WIDTH as int) * (FRAME_HEIGHT as int)),
            level as int == (count as int) % 200 + 1,
            bytes@.len() == i as int,
            forall|j: int| 0 <= j < i as int ==> bytes@[j] == pattern_byte(count, j),
        decreases total - i,
    {
        if i % 4 == 3 {
            bytes.push(255);
        } else {
            bytes.push(level);
        }
        i = i + 1;
    }
    proof {
        assert(bytes@ =~= pattern_bytes(count));
    }
    let framed = Frame::from_buffer(FRAME_WIDTH, FRAME_HEIGHT, bytes);
    framed.unwrap()
}

impl InnerCamera for Camera {
    type Device = Device;

    type Frame = Frame;

    closed spec fn running_spec(&self) -> bool {
        self.running
    }

    closed spec fn device_id_spec(&self) -> u64 {
        self.device.id
    }

    fn new_from_device(device: Device) -> (camera: Camera)
        ensures
            camera.delivered_spec() == 0,
    {
        Camera { device, running: false, slot: Slot::empty(), delivered: 0 }
    }

    fn new_default_device() -> (camera: Camera)
        ensures
            camera.device_id_spec() == device_ids()[0],
            camera.delivered_spec() == 0,
    {
        let mut devices = Device::list_all_devices();
        let first = devices.remove(0);
        Camera::new_from_device(first)
    }

    fn start(&mut self)
        ensures
            final(self).delivered_spec() == old(self).delivered_spec(),
    {
        self.running = true;
    }

    fn stop(&mut self)
        ensures
            final(self).delivered_spec() == old(self).delivered_spec(),
    {
        self.running = false;
        self.slot.clear();
    }

    fn wait_for_frame(&mut self) -> (frame: Option<Frame>)
        ensures
            final(self).delivered_spec() == if old(self).running_spec() {
                next_count(old(self).delivered_spec())
            } else {
                old(self).delivered_spec()
            },
            match frame {
                Some(f) => {
                    &&& old(self).running_spec()
                    &&& f.wf()
                    &&& f.width_spec() == FRAME_WIDTH
                    &&& f.height_spec() == FRAME_HEIGHT
                    &&& f.bytes_spec() == pattern_bytes(old(self).delivered_spec())
                },
                None => !old(self).running_spec(),
            },
    {
        if !self.running {
            return None;
        }
        let rendered = render_frame(self.delivered);
        self.slot.deposit(rendered);
        self.delivered = if self.delivered == u64::MAX {
            0
        } else {
            self.delivered + 1
        };
        self.slot.take()
    }

    fn change_device(&mut self)
        ensures
            final(self).device_id_spec() == cycle::next_bound_id(
                device_ids(),
                old(self).device_id_spec(),
            ),
            final(self).delivered_spec() == old(self).delivered_spec(),
    {
        let devices = Device::list_all_devices();
        let mut ids: Vec<u64> = Vec::new();
        let mut i: usize = 0;
        while i < devices.len()
            invariant
                i <= devices@.len(),
                devices@.len() == device_ids().len(),
                forall|k: int|
                    0 <= k < devices@.len() ==> (#[trigger] devices@[k]).id_spec() == device_ids()[k],
                ids@.len() == i as int,
                forall|k: int| 0 <= k < i as int ==> ids@[k] == devices@[k].id_spec(),
            decreases devices@.len() - i,
        {
            let key = devices[i].id();
            ids.push(key);
            i = i + 1;
        }
        proof {
            assert(ids@ =~= device_ids());
            lemma_device_ids_distinct();
        }
        match cycle::next_device_index(&ids, self.device.id) {
            None => {
            }
            Some(j) => {
                let mut devices = devices;
                let next = devices.remove(j);
                self.slot.clear();
                self.device = next;
            }
        }
    }
}

} // verus!
