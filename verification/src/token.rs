//! What a token account says of its holder: the token-balance oracle of a
//! gated vote.

use crate::address::Address;
use anchor_lang::AccountDeserialize;
use anchor_spl::token::TokenAccount;
use vstd::prelude::*;

verus! {

/// Number of bytes in the data of a token account.
pub const TOKEN_ACCOUNT_LEN: usize = 165;

/// The mint, the owner and the balance read from a token account.
#[derive(Clone, Copy, Debug)]
pub struct TokenHolding {
    pub mint: Address,
    pub owner: Address,
    pub amount: u64,
}

/// A holding over byte sequences.
pub struct HoldingView {
    pub mint: Seq<u8>,
    pub owner: Seq<u8>,
    pub amount: u64,
}

impl View for TokenHolding {
    type V = HoldingView;

    open spec fn view(&self) -> HoldingView {
        HoldingView { mint: self.mint@, owner: self.owner@, amount: self.amount }
    }
}

/// The holding in an optional value, by its view.
pub open spec fn holding_view(holding: Option<TokenHolding>) -> Option<HoldingView> {
    match holding {
        Some(h) => Some(h@),
        None => None,
    }
}

/// The number that eight bytes stand for, lowest byte first.
pub open spec fn le_u64(bytes: Seq<u8>) -> u64 {
    (bytes[0] as int + bytes[1] as int * 0x100 + bytes[2] as int * 0x1_0000 + bytes[3] as int
        * 0x100_0000 + bytes[4] as int * 0x1_0000_0000 + bytes[5] as int * 0x100_0000_0000
        + bytes[6] as int * 0x1_0000_0000_0000 + bytes[7] as int * 0x100_0000_0000_0000) as u64
}

/// Whether the four bytes at `at` mark an optional field as absent or
/// present: the number 0 or 1, lowest byte first.
pub open spec fn is_option_tag(data: Seq<u8>, at: int) -> bool {
    &&& data[at] == 0 || data[at] == 1
    &&& data[at + 1] == 0
    &&& data[at + 2] == 0
    &&& data[at + 3] == 0
}

/// Whether bytes are the data of an initialized token account: 165 bytes,
/// with the state at byte 108 either initialized (1) or frozen (2), and a
/// well-formed mark before each of the three optional fields, the delegate at
/// byte 72, the native reserve at byte 109 and the close authority at byte
/// 129.
pub open spec fn is_token_account(data: Seq<u8>) -> bool {
    &&& data.len() == TOKEN_ACCOUNT_LEN
    &&& is_option_tag(data, 72)
    &&& (data[108] == 1 || data[108] == 2)
    &&& is_option_tag(data, 109)
    &&& is_option_tag(data, 129)
}

/// The holding in the data of an account, where the data are a token
/// account: the mint in the first 32 bytes, the owner in the next 32, the
/// amount in the 8 after them.
pub open spec fn holding_in(data: Seq<u8>) -> Option<HoldingView> {
    if is_token_account(data) {
        Some(
            HoldingView {
                mint: data.subrange(0, 32),
                owner: data.subrange(32, 64),
                amount: le_u64(data.subrange(64, 72)),
            },
        )
    } else {
        None
    }
}

/// Calls `anchor_spl`'s `TokenAccount::try_deserialize` on the data and hands
/// out three fields of what it returns; its error becomes `None`.
///
/// The call unpacks an `spl_token` account. The contract states what that
/// unpacking does, as its source has it: it takes data of 165 bytes only,
/// splits them into mint, owner, amount, delegate, state, native reserve,
/// delegated amount and close authority, refuses a mark of an optional field
/// that is neither 0 nor 1 and a state that is not 1 or 2, and reads the
/// amount lowest byte first.
#[verifier::external_body]
fn unpack_token_account(data: &[u8]) -> (r: Option<TokenHolding>)
    ensures
        holding_view(r) == holding_in(data@),
{
    let mut rest: &[u8] = data;
    match TokenAccount::try_deserialize(&mut rest) {
        Ok(account) => Some(
            TokenHolding {
                mint: Address { bytes: account.mint.to_bytes() },
                owner: Address { bytes: account.owner.to_bytes() },
                amount: account.amount,
            },
        ),
        Err(_) => None,
    }
}

impl TokenHolding {
    /// Reads the holding from the data of a presented account; `None` where
    /// the data are no initialized token account.
    pub fn read(data: &[u8]) -> (r: Option<TokenHolding>)
        ensures
            holding_view(r) == holding_in(data@),
    {
        unpack_token_account(data)
    }
}

} // verus!
