//! Hardware-provider selection: DMI `product_name` is read once and picks the
//! matching provider, falling back to `GenericLinux` for any unrecognized
//! machine — Acer-specific capabilities are never assumed without a match.

use vstd::prelude::*;
use crate::sysfs::{IoError, SysfsReader};
use crate::text::{chars_eq_str, chars_of, trim, trim_chars};

verus! {

pub const DMI_PRODUCT_NAME_PATH: &'static str = "/sys/class/dmi/id/product_name";

pub const ACER_NITRO_V15_PRODUCT_NAME: &'static str = "Nitro ANV15-41";

#[derive(Debug, Clone, Copy, PartialEq, Eq, Structural)]
pub enum ProviderKind {
    AcerNitroV15,
    GenericLinux,
}

/// The provider a DMI read selects: an exact (trimmed) product-name match,
/// with an unreadable file counting as an empty name.
pub open spec fn provider_kind_of(read: Result<String, IoError>) -> ProviderKind {
    let name = match read {
        Ok(s) => s@,
        Err(_) => Seq::empty(),
    };
    if trim(name) == "Nitro ANV15-41"@ {
        ProviderKind::AcerNitroV15
    } else {
        ProviderKind::GenericLinux
    }
}

/// The provider selected by the outcome of reading DMI `product_name`.
pub fn provider_kind_from_read(read: Result<String, IoError>) -> (k: ProviderKind)
    ensures
        k == provider_kind_of(read),
{
    let name = match &read {
        Ok(s) => chars_of(s.as_str()),
        Err(_) => Vec::new(),
    };
    let t = trim_chars(name.as_slice());
    if chars_eq_str(t.as_slice(), ACER_NITRO_V15_PRODUCT_NAME) {
        ProviderKind::AcerNitroV15
    } else {
        ProviderKind::GenericLinux
    }
}

/// Reads DMI `product_name` and decides which provider matches this machine.
/// A missing or unreadable DMI file is not an error here: it only means no
/// Acer-specific hardware can be identified, so `GenericLinux` is chosen.
pub fn detect_provider_kind<R: SysfsReader>(sysfs: &R) -> (k: ProviderKind)
    ensures
        exists|read: Result<String, IoError>|
            #[trigger] sysfs.read_result(DMI_PRODUCT_NAME_PATH@, read) && provider_kind_of(read) == k,
{
    let read = sysfs.read_to_string(DMI_PRODUCT_NAME_PATH);
    let ghost r = read;
    let k = provider_kind_from_read(read);
    assert(sysfs.read_result(DMI_PRODUCT_NAME_PATH@, r) && provider_kind_of(r) == k);
    k
}

} // verus!
