//! The event record of the kernel-side disk probe, and the decoding of its
//! fixed-size text fields.

use vstd::prelude::*;
use crate::text::{nul_terminated_text, prefix_to_nul, utf8_lossy};

verus! {

/// The width of the operation field in a disk event.
pub const OPERATION_LEN: usize = 8;

/// One disk event as the kernel-side probe hands it up: device numbers,
/// and the disk name and operation as NUL-padded byte fields.
#[derive(Debug)]
pub struct Event {
    pub major: i32,
    pub first_minor: i32,
    pub minors: i32,
    pub disk_name: [u8; 32],
    pub operation: [u8; OPERATION_LEN],
}

/// The printable content of one of an event's byte fields: everything
/// before the first NUL, decoded with invalid sequences replaced.
pub fn get_string(x: &[u8]) -> (r: String)
    ensures
        r@ == utf8_lossy(prefix_to_nul(x@)),
{
    nul_terminated_text(x)
}

/// The probe's program image to load. The image is built separately,
/// against the target kernel; this library embeds none and yields the
/// empty image.
pub fn probe_code() -> (code: Vec<u8>)
    ensures
        code@ == Seq::<u8>::empty(),
{
    let code: Vec<u8> = Vec::new();
    proof {
        assert(code@ =~= Seq::<u8>::empty());
    }
    code
}

} // verus!
