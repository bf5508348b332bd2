//! What binderfs keeps about a binder device.

use vstd::prelude::*;

verus! {

/// The address of the binder context of a device, 0 if it has none.
#[allow(non_camel_case_types)]
pub type rust_binder_context = usize;

/// A binder device, to which the private field of its inode points.
#[allow(non_camel_case_types)]
#[derive(Clone, Copy, Debug, PartialEq, Eq, Structural)]
pub struct binder_device {
    /// The minor device number, by which the devices of the driver are told apart.
    pub minor: i32,
    /// The context to which the device belongs.
    pub ctx: rust_binder_context,
}

impl Default for binder_device {
    /// The device of which every byte is zero: minor number 0, and no context.
    fn default() -> (res: Self)
        ensures
            res == (binder_device { minor: 0, ctx: 0 }),
    {
        binder_device { minor: 0, ctx: 0 }
    }
}

/// The default device has minor number 0 and no context.
pub proof fn law_default_device_is_all_zero(device: binder_device)
    requires
        call_ensures(<binder_device as Default>::default, (), device),
    ensures
        device.minor == 0,
        device.ctx == 0,
{
}

} // verus!
