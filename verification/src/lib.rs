//! A verified core for a minimal on-chain micro-blogging program.
//!
//! The library implements the one instruction the program offers: publishing
//! an immutable short message ("tweet") into a fixed-size storage account.
//! It holds the byte-layout arithmetic that sizes such an account and the
//! handler that validates the caller's text, stamps authorship and time, and
//! commits all fields at once.  Everything that belongs to the host chain --
//! account creation, signature checking, the clock sysvar -- stays outside
//! and hands this library plain values.

pub mod layout;
pub mod tweet;

pub use tweet::ErrorCode;
pub use tweet::Pubkey;
pub use tweet::SendTweet;
pub use tweet::Tweet;
pub use tweet::send_tweet;
