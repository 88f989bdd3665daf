//! The wallet service: its bodies and the URL of a wallet profile.

use vstd::prelude::*;
use vstd::string::*;
pub use crate::models::response::wallets::WalletProfile;

verus! {

/// A wallet to register for a profile.
#[derive(Debug)]
pub struct RegisterWalletRequest {
    pub profile_id: String,
    pub public_key: String,
    pub memo: Option<String>,
    pub chain: String,
}

/// The URL of the profile that owns a wallet account, with its memo when
/// there is one.
pub fn wallet_profile_url(host: &str, account_id: &str, memo: Option<&str>) -> (r: String)
    ensures
        r@ == match memo {
            Some(m) => host@ + "/user/wallet/"@ + account_id@ + "?memo="@ + m@,
            None => host@ + "/user/wallet/"@ + account_id@,
        },
{
    let mut r = host.to_owned();
    r.append("/user/wallet/");
    r.append(account_id);
    match memo {
        Some(m) => {
            r.append("?memo=");
            r.append(m);
        },
        None => {},
    }
    r
}

} // verus!
