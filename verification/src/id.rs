//! The program identifier: the fixed 32-byte address by which callers route
//! invocations to this program, and its base58 rendering.

use vstd::prelude::*;

verus! {

/// The program's address on its host ledger, fixed for the lifetime of the
/// deployed artifact. Its base58 rendering is
/// `ZiECmSCWiJvsKRbNmBw27pyWEqEPFY4sBZ3MCnbvirH`.
pub const PROGRAM_ID: [u8; 32] = [
    8, 97, 51, 190, 145, 46, 104, 19, 238, 7, 141, 225, 233, 121, 18, 85, 143, 228, 30, 150, 178,
    249, 238, 148, 88, 144, 152, 61, 141, 166, 26, 54,
];

/// The program identifier as a sequence of bytes.
pub open spec fn spec_program_id() -> Seq<u8> {
    PROGRAM_ID@
}

/// The base58 rendering of a 32-byte address, as the ledger SDK prints it.
pub uninterp spec fn base58_of(bytes: Seq<u8>) -> Seq<char>;

/// Relies on `anchor_lang::prelude::Pubkey` (`solana_address::Address`):
/// `new_from_array` stores the 32 bytes as given, and the `Debug` impl writes
/// exactly the base58 rendering of those bytes, a function of the bytes alone.
#[verifier::external_body]
pub(crate) fn render_base58(bytes: &[u8; 32]) -> (r: String)
    ensures
        r@ == base58_of(bytes@),
{
    let key = anchor_lang::prelude::Pubkey::new_from_array(*bytes);
    format!("{:?}", key)
}

/// The program identifier, as the host hands it to an invocation.
pub fn program_id() -> (r: [u8; 32])
    ensures
        r@ == spec_program_id(),
{
    PROGRAM_ID
}

/// The program identifier rendered in base58, the form callers quote.
pub fn program_id_base58() -> (r: String)
    ensures
        r@ == base58_of(spec_program_id()),
{
    render_base58(&PROGRAM_ID)
}

} // verus!
