use vstd::prelude::*;

verus! {

/// The calls to outside services: SMS, sign-in providers.
pub struct ExternalApi;

/// Time and token services.
pub struct Utility;

/// Wallet reads and writes made outside a session.
pub struct WalletExtension;

impl ExternalApi {
    pub fn new() -> (r: ExternalApi) {
        ExternalApi
    }
}

impl Utility {
    pub fn new() -> (r: Utility) {
        Utility
    }
}

impl WalletExtension {
    pub fn new() -> (r: WalletExtension) {
        WalletExtension
    }
}

} // verus!
