//! Device identity: the physical slot a device occupies on the bus and the
//! classifier that decides whether a (vendor, product) pair belongs to the
//! managed family.

use vstd::prelude::*;

verus! {

/// The single vendor whose devices this system manages.
pub const APPLE_VENDOR_ID: u16 = 0x05AC;

/// A physical device slot: bus number plus device address, both assigned by
/// the host's USB subsystem at attach time. Not stable across replugs; it
/// only correlates an attach event with its later detach event.
#[derive(Clone, Copy, PartialEq, Eq, Hash, Debug, Structural)]
pub struct DeviceAddr {
    pub bus: u8,
    pub addr: u8,
}

/// True iff `product_id` is one of the fixed, enumerated product identifiers
/// of the managed family. The family is heterogeneous and not contiguous,
/// so membership is an allow-list, not a range check.
pub open spec fn is_known_product(product_id: u16) -> bool {
    ||| product_id == 0x1290
    ||| product_id == 0x1291
    ||| product_id == 0x1292
    ||| product_id == 0x1293
    ||| product_id == 0x1294
    ||| product_id == 0x1296
    ||| product_id == 0x1297
    ||| product_id == 0x1299
    ||| product_id == 0x129a
    ||| product_id == 0x129c
    ||| product_id == 0x129d
    ||| product_id == 0x129e
    ||| product_id == 0x129f
    ||| product_id == 0x12a0
    ||| product_id == 0x12a1
    ||| product_id == 0x12a2
    ||| product_id == 0x12a3
    ||| product_id == 0x12a4
    ||| product_id == 0x12a5
    ||| product_id == 0x12a6
    ||| product_id == 0x12a8
    ||| product_id == 0x12a9
    ||| product_id == 0x12aa
    ||| product_id == 0x12ab
    ||| product_id == 0x12ac
}

/// True iff the (vendor, product) pair belongs to the managed family:
/// the vendor is the fixed constant and the product is on the allow-list.
pub open spec fn is_managed(vendor_id: u16, product_id: u16) -> bool {
    vendor_id == APPLE_VENDOR_ID && is_known_product(product_id)
}

/// Decides whether a device belongs to the managed family.
///
/// Pure and total: returns true iff the vendor equals the fixed vendor
/// constant and the product is one of the enumerated identifiers.
pub fn is_apple_device(vendor_id: u16, product_id: u16) -> (r: bool)
    ensures
        r == is_managed(vendor_id, product_id),
{
    vendor_id == APPLE_VENDOR_ID && (product_id == 0x1290 || product_id == 0x1291
        || product_id == 0x1292 || product_id == 0x1293 || product_id == 0x1294
        || product_id == 0x1296 || product_id == 0x1297 || product_id == 0x1299
        || product_id == 0x129a || product_id == 0x129c || product_id == 0x129d
        || product_id == 0x129e || product_id == 0x129f || product_id == 0x12a0
        || product_id == 0x12a1 || product_id == 0x12a2 || product_id == 0x12a3
        || product_id == 0x12a4 || product_id == 0x12a5 || product_id == 0x12a6
        || product_id == 0x12a8 || product_id == 0x12a9 || product_id == 0x12aa
        || product_id == 0x12ab || product_id == 0x12ac)
}

} // verus!
