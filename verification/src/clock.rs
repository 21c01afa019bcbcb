//! The ledger clock of the Soroban host.

use vstd::prelude::*;

verus! {

/// The Soroban environment handle, carried through as an opaque value.
#[verifier::external_type_specification]
#[verifier::external_body]
pub struct ExEnv(soroban_sdk::Env);

/// Reads the close time of the current ledger, in seconds since the Unix
/// epoch, by `soroban_sdk::ledger::Ledger::timestamp` on the ledger handle
/// that `soroban_sdk::Env::ledger` gives. The reading depends on the host, so
/// nothing is claimed of the value; the callers state what holds for every
/// reading. The host answers as long as it carries ledger information, which
/// every constructor of an environment sets.
#[verifier::external_body]
pub(crate) fn ledger_timestamp(env: &soroban_sdk::Env) -> (now: u64) {
    env.ledger().timestamp()
}

} // verus!
