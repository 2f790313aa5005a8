//! The program's on-chain identifier.
//!
//! On chain a program is addressed by a fixed 32-byte address, shown to
//! humans in base58.  `ProgramId` holds the raw bytes; the declared
//! identifier of this program is a compile-time constant.

use vstd::prelude::*;

verus! {

/// A 32-byte on-chain program address.
#[derive(Clone, Copy, Debug)]
pub struct ProgramId {
    pub bytes: [u8; 32],
}

impl View for ProgramId {
    type V = Seq<u8>;

    open spec fn view(&self) -> Seq<u8> {
        self.bytes@
    }
}

/// The bytes of the statically declared identifier of this program,
/// base58 `2N6QZDfjFzCKYVJ9pELvv3S5y1KVxxDTyzDuyAdv5RaV`.
pub open spec fn declared_id_bytes() -> Seq<u8> {
    seq![
        20u8, 66u8, 255u8, 36u8, 59u8, 195u8, 96u8, 215u8,
        189u8, 66u8, 22u8, 224u8, 149u8, 89u8, 181u8, 195u8,
        93u8, 184u8, 172u8, 146u8, 27u8, 228u8, 117u8, 94u8,
        59u8, 158u8, 48u8, 229u8, 8u8, 12u8, 62u8, 166u8,
    ]
}

/// The identifier this program is declared under.
pub fn declared_id() -> (id: ProgramId)
    ensures
        id@ == declared_id_bytes(),
{
    let bytes: [u8; 32] = [
        20u8, 66u8, 255u8, 36u8, 59u8, 195u8, 96u8, 215u8,
        189u8, 66u8, 22u8, 224u8, 149u8, 89u8, 181u8, 195u8,
        93u8, 184u8, 172u8, 146u8, 27u8, 228u8, 117u8, 94u8,
        59u8, 158u8, 48u8, 229u8, 8u8, 12u8, 62u8, 166u8,
    ];
    proof {
        assert(bytes@ =~= declared_id_bytes());
    }
    ProgramId { bytes }
}

/// The base58 rendering of a 32-byte address.
pub uninterp spec fn base58_of(bytes: Seq<u8>) -> Seq<char>;

/// Relies on anchor_lang's `Pubkey`: its `Debug` impl renders the
/// 32-byte address in base58, a function of the bytes alone.
#[verifier::external_body]
pub(crate) fn base58_text(bytes: &[u8; 32]) -> (r: String)
    ensures
        r@ == base58_of(bytes@),
{
    format!("{:?}", anchor_lang::prelude::Pubkey::new_from_array(*bytes))
}

} // verus!
