//! Identity custody for a key-based messaging client: the keypair's three
//! representations and their lifecycle, with the text and filtering helpers
//! that the client's front end shares.

pub mod error;
pub mod events;
pub mod keys;
pub mod lifecycle;
pub mod script;
pub mod signer;
pub mod spam_filter;
pub mod text;
