//! Compute-device descriptions and the device-type query validation used
//! when enumerating accelerators.  The enumeration itself queries the
//! machine and runs outside this crate; this module owns the plain data it
//! produces and the validation of what may be asked for.

use vstd::prelude::*;

verus! {

/// Kinds of accelerator device this crate can describe.  CPUs are
/// excluded: with one per machine they need no enumeration.
#[derive(Copy, Clone, Debug, PartialEq, Eq, Structural)]
pub enum DeviceBackend {
    GpuVulkan,
    GpuOpenGL,
    ComputeOpenCL,
}

/// Basic information about one device: enough to show it to a user and to
/// select it for inference.
#[derive(Clone, Debug, PartialEq)]
pub struct DevicePointer {
    pub name: String,
    pub index: usize,
    pub backend: DeviceBackend,
    pub vendor_id: usize,
    pub device_id: usize,
}

/// Device-type code for the platform's default device.
pub const CL_DEVICE_TYPE_DEFAULT: u64 = 1;

/// Device-type code for CPU devices.
pub const CL_DEVICE_TYPE_CPU: u64 = 2;

/// Device-type code for GPU devices.
pub const CL_DEVICE_TYPE_GPU: u64 = 4;

/// Device-type code for dedicated accelerators.
pub const CL_DEVICE_TYPE_ACCELERATOR: u64 = 8;

/// Device-type code for custom devices.
pub const CL_DEVICE_TYPE_CUSTOM: u64 = 16;

/// Device-type code matching every device.
pub const CL_DEVICE_TYPE_ALL: u64 = 4294967295;

/// The compute-device classes an enumeration can be restricted to.
#[derive(Copy, Clone, Debug, PartialEq, Eq, Structural)]
pub enum OpenCLEnumerateType {
    All,
    Cpu,
    Custom,
    Default,
    Gpu,
}

impl OpenCLEnumerateType {
    /// The device-type code this class queries for.
    pub open spec fn device_type_code_spec(self) -> u64 {
        match self {
            OpenCLEnumerateType::All => CL_DEVICE_TYPE_ALL,
            OpenCLEnumerateType::Cpu => CL_DEVICE_TYPE_CPU,
            OpenCLEnumerateType::Custom => CL_DEVICE_TYPE_CUSTOM,
            OpenCLEnumerateType::Default => CL_DEVICE_TYPE_DEFAULT,
            OpenCLEnumerateType::Gpu => CL_DEVICE_TYPE_GPU,
        }
    }

    /// Converts the class to its device-type code.
    pub fn device_type_code(&self) -> (r: u64)
        ensures
            r == self.device_type_code_spec(),
    {
        match self {
            OpenCLEnumerateType::All => CL_DEVICE_TYPE_ALL,
            OpenCLEnumerateType::Cpu => CL_DEVICE_TYPE_CPU,
            OpenCLEnumerateType::Custom => CL_DEVICE_TYPE_CUSTOM,
            OpenCLEnumerateType::Default => CL_DEVICE_TYPE_DEFAULT,
            OpenCLEnumerateType::Gpu => CL_DEVICE_TYPE_GPU,
        }
    }
}

impl Default for OpenCLEnumerateType {
    /// GPU devices, the class an inference workload enumerates by default.
    fn default() -> (r: OpenCLEnumerateType)
        ensures
            r == OpenCLEnumerateType::Gpu,
    {
        OpenCLEnumerateType::Gpu
    }
}

/// A device-type code is one the enumeration accepts.
pub open spec fn valid_device_type_code(code: u64) -> bool {
    ||| code == CL_DEVICE_TYPE_DEFAULT
    ||| code == CL_DEVICE_TYPE_CPU
    ||| code == CL_DEVICE_TYPE_GPU
    ||| code == CL_DEVICE_TYPE_ACCELERATOR
    ||| code == CL_DEVICE_TYPE_CUSTOM
    ||| code == CL_DEVICE_TYPE_ALL
}

/// Error code returned for a device-type code outside the accepted set.
pub const INVALID_DEVICE_TYPE_QUERY: i32 = -512;

/// Validates the optional device-type restriction of an enumeration: no
/// restriction queries for GPUs; an accepted code passes through; any
/// other code is rejected with `INVALID_DEVICE_TYPE_QUERY`.
pub fn validate_device_type_query(op: Option<u64>) -> (r: Result<u64, i32>)
    ensures
        op is None ==> r == Ok::<u64, i32>(CL_DEVICE_TYPE_GPU),
        op matches Some(code) ==> (if valid_device_type_code(code) {
            r == Ok::<u64, i32>(code)
        } else {
            r == Err::<u64, i32>(INVALID_DEVICE_TYPE_QUERY)
        }),
{
    match op {
        None => Ok(CL_DEVICE_TYPE_GPU),
        Some(code) => {
            if code == CL_DEVICE_TYPE_DEFAULT || code == CL_DEVICE_TYPE_CPU || code
                == CL_DEVICE_TYPE_GPU || code == CL_DEVICE_TYPE_ACCELERATOR || code
                == CL_DEVICE_TYPE_CUSTOM || code == CL_DEVICE_TYPE_ALL {
                Ok(code)
            } else {
                Err(INVALID_DEVICE_TYPE_QUERY)
            }
        },
    }
}

} // verus!
