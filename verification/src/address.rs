//! The text form of an account address.

use vstd::prelude::*;

verus! {

/// The text that `Pubkey`'s `Display` writes for the address made of
/// `bytes`: the address in base 58, as wallets and explorers show it.
///
/// The encoding is the work of the `Pubkey` type and is not defined here.
/// All that is claimed is that the text depends on the bytes alone.
pub uninterp spec fn address_text(bytes: Seq<u8>) -> Seq<char>;

/// Renders an address as text.
///
/// Trusted: the body builds a `Pubkey` from the bytes with
/// `Pubkey::new_from_array` and calls its `to_string`, which goes through
/// `Display`. The contract gives the text its name, `address_text`, and
/// claims nothing else of it.
#[verifier::external_body]
pub(crate) fn render_address(key: &[u8; 32]) -> (text: String)
    ensures
        text@ == address_text(key@),
{
    anchor_lang::prelude::Pubkey::new_from_array(*key).to_string()
}

} // verus!
