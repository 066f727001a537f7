//! Record identifiers: 128-bit UUIDs and the text that stands for them.

use vstd::prelude::*;

verus! {

/// The text of the UUID whose 128 bits are `id`, as `uuid::Uuid` displays it:
/// the hyphenated lower-case form, such as
/// `67e55044-10b1-426f-9247-bb680e5fe0c8`.
pub uninterp spec fn uuid_text(id: u128) -> Seq<char>;

/// `id` carries the marks of a random UUID: the version bits say 4 and the
/// variant bits say RFC 9562.
pub open spec fn is_random_uuid(id: u128) -> bool {
    id & 0x0000_0000_0000_f000_c000_0000_0000_0000u128
        == 0x0000_0000_0000_4000_8000_0000_0000_0000u128
}

/// A new random UUID, as 128 bits, from `uuid::Uuid::new_v4`.
///
/// Trusted: the bits come from the operating system's random source, so
/// nothing is claimed of them but the version and variant marks that `new_v4`
/// sets on every value. `new_v4` panics where that source fails.
#[verifier::external_body]
pub(crate) fn random_uuid() -> (id: u128)
    ensures
        is_random_uuid(id),
{
    uuid::Uuid::new_v4().as_u128()
}

/// The text of the UUID `id`, from the `Display` impl of `uuid::Uuid`.
///
/// Trusted: the text depends on the 128 bits alone, and [`uuid_text`] names
/// it.
#[verifier::external_body]
pub(crate) fn hyphenated(id: u128) -> (text: String)
    ensures
        text@ == uuid_text(id),
{
    uuid::Uuid::from_u128(id).to_string()
}

} // verus!
