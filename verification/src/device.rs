//! Device and queue-family selection.
//!
//! The unverified shell enumerates physical devices and their queue
//! families, reduces each to the one capability the engine needs (whether
//! the family supports graphics work), and the functions here make the
//! selection: the first suitable candidate, or a configuration-mismatch
//! error when none exists.

use vstd::prelude::*;

verus! {

/// Fatal errors of engine setup and steady-state rendering.
#[derive(Clone, Copy, Debug, PartialEq, Eq, Structural)]
pub enum EngineError {
    /// No queue family of the inspected device supports graphics work, or
    /// no physical device has such a family.
    MissingQueueFamily,
    /// The device refused to allocate a resource; the engine cannot
    /// continue rendering.
    DeviceResourceExhausted,
    /// The device was lost or a queue operation failed fatally; no further
    /// calls may be issued against it.
    DeviceLost,
}

impl EngineError {
    /// The variant's description, for error reports.
    pub open spec fn spec_describe(self) -> Seq<char> {
        match self {
            EngineError::MissingQueueFamily => "missing a required queue family"@,
            EngineError::DeviceResourceExhausted => "the device refused a resource allocation"@,
            EngineError::DeviceLost => "the device was lost"@,
        }
    }

    /// Describes the error in words.
    pub fn describe(&self) -> (r: &'static str)
        ensures
            r@ == self.spec_describe(),
    {
        match self {
            EngineError::MissingQueueFamily => "missing a required queue family",
            EngineError::DeviceResourceExhausted => "the device refused a resource allocation",
            EngineError::DeviceLost => "the device was lost",
        }
    }
}

/// How swapchain images are shared between the graphics queue and the
/// present queue.
#[derive(Clone, Copy, Debug, PartialEq, Eq, Structural)]
pub enum SharingMode {
    /// One queue family owns the images outright.
    Exclusive,
    /// The graphics and present families differ and share the images.
    Concurrent,
}

/// Selects the first queue family that supports graphics work.
/// Returns `Ok` with the family's index exactly when such a family exists,
/// and `Err(MissingQueueFamily)` exactly when none does.
pub fn select_queue_family(supports_graphics: &Vec<bool>) -> (r: Result<u32, EngineError>)
    requires
        supports_graphics@.len() <= u32::MAX,
    ensures
        r matches Ok(i) ==> {
            &&& 0 <= i < supports_graphics@.len()
            &&& supports_graphics@[i as int]
            &&& forall|j: int| 0 <= j < i ==> !supports_graphics@[j]
        },
        (r is Ok) == (exists|i: int|
            0 <= i < supports_graphics@.len() && supports_graphics@[i]),
        r is Err ==> r == Result::<u32, EngineError>::Err(EngineError::MissingQueueFamily),
{
    let n = supports_graphics.len();
    let mut i: usize = 0;
    while i < n
        invariant
            n == supports_graphics@.len(),
            n <= u32::MAX,
            0 <= i <= n,
            forall|j: int| 0 <= j < i ==> !supports_graphics@[j],
        decreases n - i,
    {
        if supports_graphics[i] {
            return Ok(i as u32);
        }
        i = i + 1;
    }
    Err(EngineError::MissingQueueFamily)
}

/// Selects the first suitable physical device.
/// Returns `Ok` with the device's position exactly when some candidate is
/// suitable, and `Err(MissingQueueFamily)` exactly when none is.
pub fn select_physical_device(suitable: &Vec<bool>) -> (r: Result<usize, EngineError>)
    ensures
        r matches Ok(i) ==> {
            &&& 0 <= i < suitable@.len()
            &&& suitable@[i as int]
            &&& forall|j: int| 0 <= j < i ==> !suitable@[j]
        },
        (r is Ok) == (exists|i: int| 0 <= i < suitable@.len() && suitable@[i]),
        r is Err ==> r == Result::<usize, EngineError>::Err(EngineError::MissingQueueFamily),
{
    let n = suitable.len();
    let mut i: usize = 0;
    while i < n
        invariant
            n == suitable@.len(),
            0 <= i <= n,
            forall|j: int| 0 <= j < i ==> !suitable@[j],
        decreases n - i,
    {
        if suitable[i] {
            return Ok(i);
        }
        i = i + 1;
    }
    Err(EngineError::MissingQueueFamily)
}

/// Selects the image sharing mode: concurrent exactly when the graphics and
/// present queue families differ.
pub fn select_sharing_mode(graphics_family: u32, present_family: u32) -> (r: SharingMode)
    ensures
        (r is Concurrent) == (graphics_family != present_family),
        (r is Exclusive) == (graphics_family == present_family),
{
    if graphics_family != present_family {
        SharingMode::Concurrent
    } else {
        SharingMode::Exclusive
    }
}

} // verus!
