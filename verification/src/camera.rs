//! The backend-agnostic facade and the capability contract behind it.
//!
//! A backend plugs into the facade by providing two capabilities: a device
//! capability (enumerate the attached devices, read their labels and stable
//! identity keys) and a camera capability (bind to a device, start and stop
//! the session, block for frames, hot-swap the bound device). The facade
//! performs no logic of its own beyond delegating to the realization it was
//! built over.

use vstd::prelude::*;

use crate::cycle;
use crate::synth;

pub use crate::frame::Frame;
pub use crate::frame::FrameData;

verus! {

/// The device capability every backend must provide: enumeration of the
/// attached capture devices, each with a human-readable label and a stable
/// identity key that survives repeated enumeration.
pub trait InnerDevice: Sized {
    /// The stable identity key of this device.
    spec fn id_spec(&self) -> u64;

    /// The human-readable label of this device.
    spec fn name_spec(&self) -> Seq<char>;

    /// Enumerates the currently attached devices: a finite row, in a
    /// backend-defined order, with pairwise distinct identity keys and
    /// non-empty labels. No devices is an empty row, not an error.
    fn list_all_devices() -> (devices: Vec<Self>)
        ensures
            cycle::distinct_ids(devices@.map_values(|d: Self| d.id_spec())),
            forall|i: int|
                0 <= i < devices@.len() ==> (#[trigger] devices@[i]).name_spec().len() > 0,
    ;

    /// The stable identity key, for hot-swap matching.
    fn id(&self) -> (id: u64)
        ensures
            id == self.id_spec(),
    ;

    /// The human-readable label.
    fn name(&self) -> (name: String)
        ensures
            name@ == self.name_spec(),
    ;
}

/// The camera capability every backend must provide. A camera is bound to
/// one device at a time and is either stopped (the initial state) or running;
/// a blocked frame retrieval returns nothing rather than waiting forever once
/// the session is stopped.
pub trait InnerCamera: Sized {
    /// The backend's device realization.
    type Device: InnerDevice;

    /// The backend's frame realization.
    type Frame;

    /// Whether the capture session is currently running.
    spec fn running_spec(&self) -> bool;

    /// The identity key of the currently bound device.
    spec fn device_id_spec(&self) -> u64;

    /// Binds a camera to a caller-chosen device; ownership of the device
    /// transfers to the camera. The session starts out stopped.
    fn new_from_device(device: Self::Device) -> (camera: Self)
        ensures
            !camera.running_spec(),
            camera.device_id_spec() == device.id_spec(),
    ;

    /// Binds a camera to the platform's default device. The session starts
    /// out stopped.
    fn new_default_device() -> (camera: Self)
        ensures
            !camera.running_spec(),
    ;

    /// Begins frame delivery. Idempotent when already running.
    fn start(&mut self)
        ensures
            final(self).running_spec(),
            final(self).device_id_spec() == old(self).device_id_spec(),
    ;

    /// Halts frame delivery so that no further frames are enqueued; a
    /// blocked retrieval is released within a bounded time.
    fn stop(&mut self)
        ensures
            !final(self).running_spec(),
            final(self).device_id_spec() == old(self).device_id_spec(),
    ;

    /// Blocks until a frame is available or a bounded timeout elapses.
    /// Once the session is stopped, nothing is returned.
    fn wait_for_frame(&mut self) -> (frame: Option<Self::Frame>)
        ensures
            final(self).running_spec() == old(self).running_spec(),
            final(self).device_id_spec() == old(self).device_id_spec(),
            !old(self).running_spec() ==> frame is None,
    ;

    /// Re-enumerates the attached devices and switches to the cyclic
    /// successor of the bound device, rebuilding the session around it;
    /// running or stopped is preserved. An unmatched identity or a lone
    /// device leaves the binding unchanged.
    fn change_device(&mut self)
        ensures
            final(self).running_spec() == old(self).running_spec(),
    ;
}

/// A capture device attached to the system: an opaque backend handle with a
/// human-readable label and a stable identity key. Obtained by enumeration
/// and consumed when a camera is bound to it.
#[derive(Debug)]
pub struct Device {
    inner: synth::Device,
}

impl Device {
    /// The stable identity key of this device.
    pub closed spec fn id_spec(&self) -> u64 {
        self.inner.id_spec()
    }

    /// The human-readable label of this device.
    pub closed spec fn name_spec(&self) -> Seq<char> {
        self.inner.name_spec()
    }

    /// Enumerates all currently attached capture devices: a finite row in
    /// enumeration order, empty when nothing is attached. Identity keys are
    /// pairwise distinct and every label is non-empty.
    pub fn list_all_devices() -> (devices: Vec<Device>)
        ensures
            devices@.len() == synth::device_ids().len(),
            forall|i: int|
                0 <= i < devices@.len() ==> (#[trigger] devices@[i]).id_spec()
                    == synth::device_ids()[i],
            forall|i: int|
                0 <= i < devices@.len() ==> (#[trigger] devices@[i]).name_spec()
                    == synth::device_label(i),
            forall|i: int|
                0 <= i < devices@.len() ==> (#[trigger] devices@[i]).name_spec().len() > 0,
    {
        let mut backing = synth::Device::list_all_devices();
        let ghost enumerated = backing@;
        let mut devices: Vec<Device> = Vec::new();
        while backing.len() > 0
            invariant
                devices@.len() + backing@.len() == enumerated.len(),
                backing@ == enumerated.subrange(devices@.len() as int, enumerated.len() as int),
                forall|k: int|
                    0 <= k < devices@.len() ==> (#[trigger] devices@[k]).inner == enumerated[k],
            decreases backing@.len(),
        {
            let first = backing.remove(0);
            devices.push(Device { inner: first });
            proof {
                assert(backing@ =~= enumerated.subrange(
                    devices@.len() as int,
                    enumerated.len() as int,
                ));
            }
        }
        devices
    }

    /// The device's human-readable label: pure, and never empty.
    pub fn name(&self) -> (name: String)
        ensures
            name@ == self.name_spec(),
            name@.len() > 0,
    {
        self.inner.name()
    }

    /// The stable identity key, as used for hot-swap matching.
    pub fn id(&self) -> (id: u64)
        ensures
            id == self.id_spec(),
    {
        self.inner.id()
    }
}

/// The backend-agnostic camera session. It owns one backend camera at a
/// time, stays valid across device hot-swaps, and hands frames out through
/// the blocking retrieval point `wait_for_frame`.
#[derive(Debug)]
pub struct Camera {
    inner: synth::Camera,
}

impl Camera {
    /// Whether the capture session is currently running.
    pub closed spec fn running_spec(&self) -> bool {
        self.inner.running_spec()
    }

    /// The identity key of the currently bound device.
    pub closed spec fn device_id_spec(&self) -> u64 {
        self.inner.device_id_spec()
    }

    /// How many frames this session has delivered.
    pub closed spec fn frames_delivered_spec(&self) -> u64 {
        self.inner.delivered_spec()
    }

    /// Binds a camera to the platform's default device: the first device of
    /// the enumeration. The session starts out stopped.
    pub fn new_default_device() -> (camera: Camera)
        ensures
            !camera.running_spec(),
            camera.device_id_spec() == synth::device_ids()[0],
            camera.frames_delivered_spec() == 0,
    {
        Camera { inner: synth::Camera::new_default_device() }
    }

    /// Binds a camera to a caller-chosen device; ownership of the device
    /// transfers to the camera. The session starts out stopped.
    pub fn new_from_device(device: Device) -> (camera: Camera)
        ensures
            !camera.running_spec(),
            camera.device_id_spec() == device.id_spec(),
            camera.frames_delivered_spec() == 0,
    {
        Camera { inner: synth::Camera::new_from_device(device.inner) }
    }

    /// Begins frame delivery; harmless when already running.
    pub fn start(&mut self)
        ensures
            final(self).running_spec(),
            final(self).device_id_spec() == old(self).device_id_spec(),
            final(self).frames_delivered_spec() == old(self).frames_delivered_spec(),
    {
        self.inner.start();
    }

    /// Halts frame delivery: nothing further is enqueued, and a pending
    /// frame is discarded rather than handed out stale.
    pub fn stop(&mut self)
        ensures
            !final(self).running_spec(),
            final(self).device_id_spec() == old(self).device_id_spec(),
            final(self).frames_delivered_spec() == old(self).frames_delivered_spec(),
    {
        self.inner.stop();
    }

    /// The blocking retrieval point: returns the next frame, or nothing
    /// within a bounded time once the session is stopped. Every returned
    /// frame is well-formed in the canonical packed pixel format.
    pub fn wait_for_frame(&mut self) -> (frame: Option<Frame>)
        ensures
            final(self).running_spec() == old(self).running_spec(),
            final(self).device_id_spec() == old(self).device_id_spec(),
            final(self).frames_delivered_spec() == if old(self).running_spec() {
                synth::next_count(old(self).frames_delivered_spec())
            } else {
                old(self).frames_delivered_spec()
            },
            match frame {
                Some(f) => {
                    &&& old(self).running_spec()
                    &&& f.wf()
                    &&& f.width_spec() == synth::FRAME_WIDTH
                    &&& f.height_spec() == synth::FRAME_HEIGHT
                    &&& f.bytes_spec() == synth::pattern_bytes(old(self).frames_delivered_spec())
                },
                None => !old(self).running_spec(),
            },
    {
        self.inner.wait_for_frame()
    }

    /// Re-enumerates the attached devices and switches to the cyclic
    /// successor of the bound device, tearing the internal session down and
    /// rebuilding it; the caller's handle stays valid and running or stopped
    /// is preserved. An unmatched identity or a lone device is a no-op.
    pub fn change_device(&mut self)
        ensures
            final(self).running_spec() == old(self).running_spec(),
            final(self).device_id_spec() == cycle::next_bound_id(
                synth::device_ids(),
                old(self).device_id_spec(),
            ),
            final(self).frames_delivered_spec() == old(self).frames_delivered_spec(),
    {
        self.inner.change_device();
    }

    /// The identity key of the currently bound device.
    pub fn device_id(&self) -> (id: u64)
        ensures
            id == self.device_id_spec(),
    {
        self.inner.current_device_id()
    }
}

/// Cyclic closure of the hot-swap: starting from any enumerated device,
/// switching as many times as there are devices returns the camera to the
/// identity it started from.
pub proof fn lemma_change_device_cycles(start: u64)
    requires
        synth::device_ids().contains(start),
    ensures
        cycle::iterate_bound_id(synth::device_ids(), start, synth::device_ids().len()) == start,
{
    synth::lemma_device_ids_distinct();
    cycle::lemma_cycle_closure(synth::device_ids(), start);
}

} // verus!
