use smithay_client_toolkit::seat::keyboard::keysyms;
use vstd::prelude::*;

verus! {

/// The symbol of the key `c`.
pub open spec fn spec_key_c() -> u32 {
    0x0063
}

/// The symbol of the key `u`.
pub open spec fn spec_key_u() -> u32 {
    0x0075
}

/// The symbol of the backspace key.
pub open spec fn spec_key_backspace() -> u32 {
    0xff08
}

/// The symbol of the return key.
pub open spec fn spec_key_return() -> u32 {
    0xff0d
}

/// The constant `XKB_KEY_c` of `smithay_client_toolkit::seat::keyboard::keysyms`.
/// It is claimed to be 0x0063.
#[verifier::external_body]
pub(crate) fn key_c() -> (k: u32)
    ensures
        k == spec_key_c(),
{
    keysyms::XKB_KEY_c
}

/// The constant `XKB_KEY_u` of `smithay_client_toolkit::seat::keyboard::keysyms`.
/// It is claimed to be 0x0075.
#[verifier::external_body]
pub(crate) fn key_u() -> (k: u32)
    ensures
        k == spec_key_u(),
{
    keysyms::XKB_KEY_u
}

/// The constant `XKB_KEY_BackSpace` of
/// `smithay_client_toolkit::seat::keyboard::keysyms`. It is claimed to be
/// 0xff08.
#[verifier::external_body]
pub(crate) fn key_backspace() -> (k: u32)
    ensures
        k == spec_key_backspace(),
{
    keysyms::XKB_KEY_BackSpace
}

/// The constant `XKB_KEY_Return` of
/// `smithay_client_toolkit::seat::keyboard::keysyms`. It is claimed to be
/// 0xff0d.
#[verifier::external_body]
pub(crate) fn key_return() -> (k: u32)
    ensures
        k == spec_key_return(),
{
    keysyms::XKB_KEY_Return
}

} // verus!
