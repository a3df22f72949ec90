//! Key identity of the offchain worker.

use vstd::prelude::*;

verus! {

/// Identifies the signing-key kind the offchain worker submits its
/// `save_data_chunk` transactions under. The host binds it to a concrete
/// cryptographic scheme; inside the library it only names the authority.
#[derive(Clone, Copy, Debug, PartialEq, Eq, Structural)]
pub struct OffchainAuthId;

} // verus!
