//! The error type that adapters and bots report failures with.

use vstd::prelude::*;

verus! {

/// `anyhow::Error`, the error that an adapter's or a bot's call reports; the
/// library hands it on without looking inside.
#[verifier::external_type_specification]
#[verifier::external_body]
pub struct ExAnyhowError(anyhow::Error);

} // verus!
