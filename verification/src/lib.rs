//! Intent escrow for a single chain: users lock input tokens (plus a tip) behind
//! an intent that names the tokens they want back; an executor fills the intent by
//! paying the expected outputs and receives the locked inputs and the tip; after the
//! timeout height the creator may take the locked inputs back.
//!
//! Every operation is a verified function from the loaded state and the incoming
//! message to the new state and the outgoing transfers.  Loading and saving state,
//! querying token contracts and serialising messages happen in the host glue.

pub mod types;
pub mod text;
pub mod intent_id;
pub mod payment;
pub mod admin;
pub mod intents;
pub mod queries;
pub mod laws;
