//! The event record of the kernel-side bus probe, and the decoding of its
//! fixed-size text fields.

use vstd::prelude::*;
use crate::text::{nul_terminated_text, prefix_to_nul, utf8_lossy};

verus! {

/// One bus event as the kernel-side probe hands it up: the device class and
/// bus id as NUL-padded byte fields.
#[derive(Debug)]
pub struct Event {
    pub device_class: [u8; 20],
    pub bus_id: [u8; 15],
}

/// The printable content of one of an event's byte fields: everything
/// before the first NUL, decoded with invalid sequences replaced.
pub fn get_string(x: &[u8]) -> (r: String)
    ensures
        r@ == utf8_lossy(prefix_to_nul(x@)),
{
    nul_terminated_text(x)
}

/// The probe's program image to load. The image is built separately,
/// against the target kernel; this library embeds none and yields the
/// empty image.
pub fn probe_code() -> (code: Vec<u8>)
    ensures
        code@ == Seq::<u8>::empty(),
{
    let code: Vec<u8> = Vec::new();
    proof {
        assert(code@ =~= Seq::<u8>::empty());
    }
    code
}

} // verus!
