//! A minimal on-chain program: one instruction, `initialize`, which takes an
//! empty account context and emits a single log line embedding the program's
//! own identifier.
//!
//! The crate models the host-facing pieces as plain data: the identifier is a
//! 32-byte address, the account context is a schema validated before the
//! instruction body runs, and the host's append-only log channel is a sequence
//! of lines. The base58 rendering of the address is delegated to the ledger
//! SDK's own `Pubkey` formatting.

pub mod id;
pub mod program;

