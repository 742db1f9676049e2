//! What identifies one Apps connection: how to reach the service, and the login it was made under.

use vstd::prelude::*;

verus! {

/// The settings under which an Apps connection is opened.
///
/// Two connections with the same settings and the same login are interchangeable, so the settings
/// are compared as a whole and never taken apart. The two credential settings are held as ordinals
/// of the host's own enumerations, the default of each being zero.
#[derive(Debug)]
pub struct CodexAppsConnectConfig {
    pub base_url: String,
    pub product_sku: Option<String>,
    pub credentials_store_mode: u8,
    pub keyring_backend: u8,
}

/// The value of a [`CodexAppsConnectConfig`], with its strings as character sequences.
pub struct ConnectConfigView {
    pub base_url: Seq<char>,
    pub product_sku: Option<Seq<char>>,
    pub credentials_store_mode: u8,
    pub keyring_backend: u8,
}

impl View for CodexAppsConnectConfig {
    type V = ConnectConfigView;

    open spec fn view(&self) -> ConnectConfigView {
        ConnectConfigView {
            base_url: self.base_url@,
            product_sku: match self.product_sku {
                Some(sku) => Some(sku@),
                None => None,
            },
            credentials_store_mode: self.credentials_store_mode,
            keyring_backend: self.keyring_backend,
        }
    }
}

impl CodexAppsConnectConfig {
    /// Settings made of the given parts.
    pub fn new(
        base_url: String,
        product_sku: Option<String>,
        credentials_store_mode: u8,
        keyring_backend: u8,
    ) -> (config: Self)
        ensures
            config.base_url == base_url,
            config.product_sku == product_sku,
            config.credentials_store_mode == credentials_store_mode,
            config.keyring_backend == keyring_backend,
    {
        CodexAppsConnectConfig { base_url, product_sku, credentials_store_mode, keyring_backend }
    }
}

impl Clone for CodexAppsConnectConfig {
    fn clone(&self) -> (copy: Self)
        ensures
            copy@ == self@,
    {
        let product_sku = match &self.product_sku {
            Some(sku) => Some(sku.clone()),
            None => None,
        };
        CodexAppsConnectConfig {
            base_url: self.base_url.clone(),
            product_sku,
            credentials_store_mode: self.credentials_store_mode,
            keyring_backend: self.keyring_backend,
        }
    }
}

impl PartialEq for CodexAppsConnectConfig {
    fn eq(&self, other: &Self) -> (same: bool) {
        let same_sku = match (&self.product_sku, &other.product_sku) {
            (Some(mine), Some(theirs)) => *mine == *theirs,
            (None, None) => true,
            _ => false,
        };
        self.base_url == other.base_url && same_sku && self.credentials_store_mode
            == other.credentials_store_mode && self.keyring_backend == other.keyring_backend
    }
}

impl vstd::std_specs::cmp::PartialEqSpecImpl for CodexAppsConnectConfig {
    open spec fn obeys_eq_spec() -> bool {
        true
    }

    open spec fn eq_spec(&self, other: &Self) -> bool {
        self@ == other@
    }
}

impl Eq for CodexAppsConnectConfig {

}

/// The identity of one Apps connection.
#[derive(Debug)]
pub struct CodexAppsConnectionKey {
    pub config: CodexAppsConnectConfig,
    pub auth_revision: u64,
}

/// The value of a [`CodexAppsConnectionKey`].
pub struct ConnectionKeyView {
    pub config: ConnectConfigView,
    pub auth_revision: u64,
}

impl View for CodexAppsConnectionKey {
    type V = ConnectionKeyView;

    open spec fn view(&self) -> ConnectionKeyView {
        ConnectionKeyView { config: self.config@, auth_revision: self.auth_revision }
    }
}

impl Clone for CodexAppsConnectionKey {
    fn clone(&self) -> (copy: Self)
        ensures
            copy@ == self@,
    {
        CodexAppsConnectionKey { config: self.config.clone(), auth_revision: self.auth_revision }
    }
}

impl PartialEq for CodexAppsConnectionKey {
    fn eq(&self, other: &Self) -> (same: bool) {
        self.config == other.config && self.auth_revision == other.auth_revision
    }
}

impl vstd::std_specs::cmp::PartialEqSpecImpl for CodexAppsConnectionKey {
    open spec fn obeys_eq_spec() -> bool {
        true
    }

    open spec fn eq_spec(&self, other: &Self) -> bool {
        self@ == other@
    }
}

impl Eq for CodexAppsConnectionKey {

}

} // verus!
