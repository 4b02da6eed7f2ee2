//! The records of the token program: the log of mints and the listing of
//! tokens.

use crate::address::{optional_view, zero_address, Address};
use crate::fields::{byte_len, fits, too_long};
use vstd::prelude::*;

verus! {

pub const MAX_TX_SIGNATURE_LENGTH: usize = 88;

/// Bytes set aside for the log of one mint.
pub const MINT_ACTIVITY_ACCOUNT_SPACE: usize = 8 + 32 + 32 + 32 + (4 + MAX_TX_SIGNATURE_LENGTH)
    + (1 + 32) + 8 + 1 + 1 + 32;

/// Bytes set aside for a listing.
pub const LISTED_NFT_ACCOUNT_SPACE: usize = 8 + 32 + 32 + 32 + 8 + 1 + 37;

/// Why the token program refuses an operation.
#[derive(Clone, Copy, Debug, PartialEq, Eq, Structural)]
pub enum AppError {
    Unauthorized,
    InvalidStatus,
    CandyMachineIdTooLong,
    TxSignatureTooLong,
    MintActivityAlreadyCancelled,
    MintActivityNotFound,
    NftAlreadyListed,
    ListedNftNotFound,
    NftMintAddressRequired,
    CandyMachineAddressRequired,
}

impl AppError {
    /// The message that goes with the error.
    pub fn message(&self) -> (r: &'static str)
        ensures
            r@ == error_message(*self),
    {
        match self {
            AppError::Unauthorized => "Unauthorized action.",
            AppError::InvalidStatus => "Invalid status value.",
            AppError::CandyMachineIdTooLong => "Candy Machine ID is too long.",
            AppError::TxSignatureTooLong => "Transaction signature string is too long.",
            AppError::MintActivityAlreadyCancelled => "Mint activity already cancelled.",
            AppError::MintActivityNotFound => "Mint activity not found or already closed.",
            AppError::NftAlreadyListed => "NFT is already listed by this creator.",
            AppError::ListedNftNotFound => "Listed NFT not found.",
            AppError::NftMintAddressRequired => "The NFT Mint address cannot be empty.",
            AppError::CandyMachineAddressRequired => "The Candy Machine address cannot be empty.",
        }
    }
}

/// The message of each error.
pub open spec fn error_message(e: AppError) -> Seq<char> {
    match e {
        AppError::Unauthorized => "Unauthorized action."@,
        AppError::InvalidStatus => "Invalid status value."@,
        AppError::CandyMachineIdTooLong => "Candy Machine ID is too long."@,
        AppError::TxSignatureTooLong => "Transaction signature string is too long."@,
        AppError::MintActivityAlreadyCancelled => "Mint activity already cancelled."@,
        AppError::MintActivityNotFound => "Mint activity not found or already closed."@,
        AppError::NftAlreadyListed => "NFT is already listed by this creator."@,
        AppError::ListedNftNotFound => "Listed NFT not found."@,
        AppError::NftMintAddressRequired => "The NFT Mint address cannot be empty."@,
        AppError::CandyMachineAddressRequired => "The Candy Machine address cannot be empty."@,
    }
}

/// The status of a logged mint; the log stores its ordinal.
#[derive(Clone, Copy, Debug, PartialEq, Eq, Structural)]
pub enum MintActivityStatus {
    Active,
    Cancelled,
}

impl MintActivityStatus {
    /// The number stored for the status.
    pub fn ordinal(self) -> (r: u8)
        ensures
            r == mint_activity_status_ordinal(self),
    {
        match self {
            MintActivityStatus::Active => 0,
            MintActivityStatus::Cancelled => 1,
        }
    }
}

pub open spec fn mint_activity_status_ordinal(status: MintActivityStatus) -> u8 {
    match status {
        MintActivityStatus::Active => 0,
        MintActivityStatus::Cancelled => 1,
    }
}

/// Ordinal of a logged mint that stands.
pub const ACTIVE: u8 = 0;

/// Ordinal of a logged mint that was cancelled.
pub const CANCELLED: u8 = 1;

/// The log of one mint: who minted which token from which candy machine.
#[derive(Clone, Debug, PartialEq, Eq)]
pub struct MintActivity {
    pub user_wallet: Address,
    pub candy_machine_id: Address,
    pub nft_mint_address: Address,
    pub transaction_signature: String,
    pub episode_on_chain_pda: Option<Address>,
    pub timestamp: i64,
    pub status: u8,
    pub bump: u8,
}

/// The log of a mint over sequences.
pub struct MintActivityView {
    pub user_wallet: Seq<u8>,
    pub candy_machine_id: Seq<u8>,
    pub nft_mint_address: Seq<u8>,
    pub transaction_signature: Seq<char>,
    pub episode_on_chain_pda: Option<Seq<u8>>,
    pub timestamp: i64,
    pub status: u8,
    pub bump: u8,
}

impl View for MintActivity {
    type V = MintActivityView;

    open spec fn view(&self) -> MintActivityView {
        MintActivityView {
            user_wallet: self.user_wallet@,
            candy_machine_id: self.candy_machine_id@,
            nft_mint_address: self.nft_mint_address@,
            transaction_signature: self.transaction_signature@,
            episode_on_chain_pda: optional_view(self.episode_on_chain_pda),
            timestamp: self.timestamp,
            status: self.status,
            bump: self.bump,
        }
    }
}

impl MintActivityView {
    /// The signature is within its bound, and the status is one of the two.
    pub open spec fn wf(self) -> bool {
        &&& fits(self.transaction_signature, MAX_TX_SIGNATURE_LENGTH)
        &&& self.status <= CANCELLED
    }

    /// Bytes that the log takes when written out.
    pub open spec fn encoded_len(self) -> nat {
        8 + 32 + 32 + 32 + (4 + byte_len(self.transaction_signature)) + (1 + 32) + 8 + 1 + 1
    }
}

impl MintActivity {
    pub open spec fn wf(&self) -> bool {
        self@.wf()
    }

    /// Logs a mint of `user_wallet` at the time `now`, as one that stands.
    pub fn new(
        user_wallet: Address,
        candy_machine_id: Address,
        nft_mint_address: Address,
        bump: u8,
        now: i64,
        transaction_signature: String,
        episode_on_chain_pda: Option<Address>,
    ) -> (r: Result<MintActivity, AppError>)
        ensures
            match r {
                Ok(activity) => {
                    &&& fits(transaction_signature@, MAX_TX_SIGNATURE_LENGTH)
                    &&& activity@ == (MintActivityView {
                        user_wallet: user_wallet@,
                        candy_machine_id: candy_machine_id@,
                        nft_mint_address: nft_mint_address@,
                        transaction_signature: transaction_signature@,
                        episode_on_chain_pda: optional_view(episode_on_chain_pda),
                        timestamp: now,
                        status: ACTIVE,
                        bump,
                    })
                    &&& activity.wf()
                },
                Err(e) => {
                    &&& e == AppError::TxSignatureTooLong
                    &&& !fits(transaction_signature@, MAX_TX_SIGNATURE_LENGTH)
                },
            },
    {
        if too_long(transaction_signature.as_str(), MAX_TX_SIGNATURE_LENGTH) {
            return Err(AppError::TxSignatureTooLong);
        }
        Ok(
            MintActivity {
                user_wallet,
                candy_machine_id,
                nft_mint_address,
                transaction_signature,
                episode_on_chain_pda,
                timestamp: now,
                status: ACTIVE,
                bump,
            },
        )
    }

    /// Cancels the logged mint at the time `now`. A mint is cancelled once.
    pub fn cancel(&mut self, now: i64) -> (r: Result<(), AppError>)
        ensures
            match r {
                Ok(()) => {
                    &&& old(self)@.status != CANCELLED
                    &&& final(self)@ == (MintActivityView {
                        status: CANCELLED,
                        timestamp: now,
                        ..old(self)@
                    })
                },
                Err(e) => {
                    &&& e == AppError::MintActivityAlreadyCancelled
                    &&& old(self)@.status == CANCELLED
                    &&& *final(self) == *old(self)
                },
            },
            old(self).wf() ==> final(self).wf(),
    {
        if self.status == CANCELLED {
            return Err(AppError::MintActivityAlreadyCancelled);
        }
        self.status = CANCELLED;
        self.timestamp = now;
        Ok(())
    }
}

/// The log of a mint within its bounds fits the space set aside for it,
/// with 32 bytes to spare.
pub proof fn mint_activity_fits_its_space(activity: MintActivityView)
    requires
        activity.wf(),
    ensures
        activity.encoded_len() + 32 <= MINT_ACTIVITY_ACCOUNT_SPACE,
{
}

/// The listing of a token by its creator, with the candy machine it comes
/// from.
#[derive(Clone, Copy, Debug, PartialEq, Eq)]
pub struct ListedNft {
    pub creator_wallet: Address,
    pub nft_mint_address: Address,
    pub candy_machine_address: Address,
    pub listed_at: i64,
    pub bump: u8,
}

/// A listing over sequences.
pub struct ListedNftView {
    pub creator_wallet: Seq<u8>,
    pub nft_mint_address: Seq<u8>,
    pub candy_machine_address: Seq<u8>,
    pub listed_at: i64,
    pub bump: u8,
}

impl View for ListedNft {
    type V = ListedNftView;

    open spec fn view(&self) -> ListedNftView {
        ListedNftView {
            creator_wallet: self.creator_wallet@,
            nft_mint_address: self.nft_mint_address@,
            candy_machine_address: self.candy_machine_address@,
            listed_at: self.listed_at,
            bump: self.bump,
        }
    }
}

impl ListedNftView {
    /// A listing names a token and a candy machine: neither is the all-zero
    /// address.
    pub open spec fn wf(self) -> bool {
        &&& self.nft_mint_address != zero_address()
        &&& self.candy_machine_address != zero_address()
    }

    /// Bytes that the listing takes when written out.
    pub open spec fn encoded_len(self) -> nat {
        8 + 32 + 32 + 32 + 8 + 1
    }
}

/// Why a listing is refused, or `None` where it is accepted: the token is
/// asked for first, then the candy machine.
pub open spec fn listing_refusal(nft_mint_address: Seq<u8>, candy_machine_address: Seq<u8>) -> Option<
    AppError,
> {
    if nft_mint_address == zero_address() {
        Some(AppError::NftMintAddressRequired)
    } else if candy_machine_address == zero_address() {
        Some(AppError::CandyMachineAddressRequired)
    } else {
        None
    }
}

impl ListedNft {
    pub open spec fn wf(&self) -> bool {
        self@.wf()
    }

    /// Lists a token for its creator at the time `now`.
    pub fn new(
        creator_wallet: Address,
        bump: u8,
        now: i64,
        nft_mint_address_arg: Address,
        candy_machine_address_arg: Address,
    ) -> (r: Result<ListedNft, AppError>)
        ensures
            match r {
                Ok(listed) => {
                    &&& listing_refusal(nft_mint_address_arg@, candy_machine_address_arg@) is None
                    &&& listed@ == (ListedNftView {
                        creator_wallet: creator_wallet@,
                        nft_mint_address: nft_mint_address_arg@,
                        candy_machine_address: candy_machine_address_arg@,
                        listed_at: now,
                        bump,
                    })
                    &&& listed.wf()
                },
                Err(e) => listing_refusal(nft_mint_address_arg@, candy_machine_address_arg@)
                    == Some(e),
            },
    {
        if nft_mint_address_arg.is_default() {
            return Err(AppError::NftMintAddressRequired);
        }
        if candy_machine_address_arg.is_default() {
            return Err(AppError::CandyMachineAddressRequired);
        }
        Ok(
            ListedNft {
                creator_wallet,
                nft_mint_address: nft_mint_address_arg,
                candy_machine_address: candy_machine_address_arg,
                listed_at: now,
                bump,
            },
        )
    }

    /// Names another candy machine for the listed token. The time of the
    /// listing stays.
    pub fn update(&mut self, new_candy_machine_address_arg: Address) -> (r: Result<(), AppError>)
        ensures
            match r {
                Ok(()) => {
                    &&& new_candy_machine_address_arg@ != zero_address()
                    &&& final(self)@ == (ListedNftView {
                        candy_machine_address: new_candy_machine_address_arg@,
                        ..old(self)@
                    })
                },
                Err(e) => {
                    &&& e == AppError::CandyMachineAddressRequired
                    &&& new_candy_machine_address_arg@ == zero_address()
                    &&& *final(self) == *old(self)
                },
            },
            old(self).wf() ==> final(self).wf(),
    {
        if new_candy_machine_address_arg.is_default() {
            return Err(AppError::CandyMachineAddressRequired);
        }
        self.candy_machine_address = new_candy_machine_address_arg;
        Ok(())
    }
}

} // verus!
