//! Records at derived addresses, guarded by their authority, and weighted
//! voting on top of them.
//!
//! Every record of the four programs below lives at an address derived from
//! a domain tag and the record's seeds ([`address`]), in a store that holds
//! one record per address ([`store`]). A record is changed or closed only
//! after the address is derived again and the signer is held against the
//! authority that the record stores ([`guard`]), and only with field values
//! within their bounds ([`fields`]).
//!
//! [`tale_governance`] is the voting program: proposals with a voting
//! window, one ballot per voter, weighed by what the voter holds of a gating
//! token ([`token`]), a tally that always sums to the total vote power, and a
//! winner named once the vote is closed. [`readium_fun`], [`tale_story`] and
//! [`tale_nft`] are the programs that keep tales, episodes, logs of mints and
//! listings.
//!
//! Each program comes in two layers. Its records are values with operations
//! of their own, which check everything before they write anything. Its
//! ledger puts the records into stores and gives each instruction of the
//! program as a function from the ledger, the accounts that the caller
//! names, the time and the arguments to the ledger afterwards; what the
//! ledger returns to be paid or charged for storage is settled outside.

pub mod address;
pub mod fields;
pub mod guard;
pub mod readium_fun;
pub mod store;
pub mod tale_governance;
pub mod tale_nft;
pub mod tale_story;
pub mod token;
