//! Keeps an authenticated session for a live-streaming control account: a QR-code
//! login, a stored session record, and the daily credential refresh with its
//! RSA-derived correspondence path.
use vstd::prelude::*;

/// Correspondence path: the encrypted refresh timestamp in hexadecimal.
pub mod crypto;
/// The ways a session operation fails.
pub mod error;
/// Reading fields out of JSON replies.
pub mod json;
/// Reading the live-room replies and building their forms.
pub mod live;
/// Loading, logging in, and the daily decision to refresh.
pub mod manager;
/// The area picker's cursor.
pub mod picker;
/// The QR-code login challenge and its polling schedule.
pub mod qr;
/// The four-step credential refresh protocol.
pub mod refresh;
/// The session record and its credential set.
pub mod session;
/// Character sequences and decimal numerals.
pub mod text;

verus! {

} // verus!
