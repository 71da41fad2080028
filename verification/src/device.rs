//! Which kind of device to run on, given the accelerators that are available.

use vstd::prelude::*;

verus! {

/// The kinds of device the engine can run on.
#[derive(Clone, Copy, Debug, PartialEq, Eq, Structural)]
pub enum DeviceKind {
    Cuda,
    Metal,
    Cpu,
}

/// CUDA when it is available, else Metal when it is available, else the CPU.
pub fn select_device(cuda_available: bool, metal_available: bool) -> (d: DeviceKind)
    ensures
        cuda_available ==> d == DeviceKind::Cuda,
        !cuda_available && metal_available ==> d == DeviceKind::Metal,
        !cuda_available && !metal_available ==> d == DeviceKind::Cpu,
{
    if cuda_available {
        DeviceKind::Cuda
    } else if metal_available {
        DeviceKind::Metal
    } else {
        DeviceKind::Cpu
    }
}

} // verus!
