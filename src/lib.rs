//! Decoding of the boot information that a stivale2 bootloader hands to the
//! kernel: a singly linked chain of tagged records in memory.
//!
//! * `bytes`: little-endian field reads that do not depend on alignment.
//! * `tag`: one typed view per record kind, with the derived values (sizes,
//!   end addresses, module names) and the trailing arrays of the memory map,
//!   module list, SMP and EDID records.
//! * `chain`: the identifiers of the known record kinds, the walk along the
//!   chain and the lookup of the first record of a given kind.
use vstd::prelude::*;

pub mod bytes;
pub mod tag;
pub mod chain;

verus! {

} // verus!
