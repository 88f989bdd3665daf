//! Response bodies of the wallet service.

use vstd::prelude::*;
use vstd::string::*;

verus! {

/// The profile a wallet belongs to.
#[derive(Debug)]
pub struct WalletProfile {
    pub profile_id: String,
}

} // verus!
