//! Error numbers reported by the hypervisor.
use vstd::prelude::*;

verus! {

/// Error numbers, named after the Linux errno values that the driver sees.
#[allow(non_camel_case_types)]
#[derive(Debug, Clone, Copy, PartialEq, Eq, Structural)]
pub enum HvErrorNum {
    /// Invalid argument.
    EINVAL,
}

/// Result of a hypervisor operation.
pub type HvResult<T> = Result<T, HvErrorNum>;

} // verus!
