//! The rules behind a handful of small tools for a Tangle node: splitting
//! a brute-force search over candidate transactions among workers,
//! building the candidates, judging the NFT identifiers that they would
//! mint, following the chain of outputs that control an output, and
//! choosing parents for figures of blocks.
//!
//! Nothing here reads a file or talks to a node.  Where work of that kind
//! stands between two decisions, as signing does in the search, the
//! decisions are a state machine: the program around the library asks what
//! to do, does it, and reports what came of it.  What the ledger defines,
//! such as identifiers, outputs and addresses, is taken from the SDK.

pub mod address_file;
pub mod candidate;
pub mod conflict;
pub mod control;
pub mod decimal;
pub mod env_file;
pub mod mining;
pub mod nft_id;
pub mod output;
pub mod ranges;
pub mod tangle;
