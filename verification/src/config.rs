//! The settings of the gateway, and what is checked of them at startup.

use vstd::prelude::*;
use vstd::string::{StrSliceExecFns, StringExecFns};
use crate::auth::jwt::JwtSignerKeyConfig;

verus! {

/// The settings of the gateway.
#[derive(Clone, Debug)]
pub struct AppConfig {
    /// Local address that the server binds to.
    pub bind_address: String,
    /// Endpoint of the sequencer.
    pub validium_url: String,
    /// Endpoint of the withdraw-proofs service.
    pub withdraw_proofs_url: String,
    /// Bearer strings that give full access.
    pub admin_keys: Vec<String>,
    /// Seconds for which a token is issued.
    pub jwt_expiry_secs: usize,
    /// Identifier of the key that signs new tokens.
    pub default_kid: String,
    /// The keys under which tokens are accepted.
    pub jwt_signer_keys: Vec<JwtSignerKeyConfig>,
}

/// Which setting was refused; each carries the refused value.
#[derive(Clone, Debug)]
pub enum ConfigError {
    InvalidBindAddress(String),
    InvalidValidiumUrl(String),
    InvalidWithdrawProofsUrl(String),
}

/// `ConfigError` with its strings as sequences.
pub enum ConfigErrorView {
    InvalidBindAddress(Seq<char>),
    InvalidValidiumUrl(Seq<char>),
    InvalidWithdrawProofsUrl(Seq<char>),
}

impl View for ConfigError {
    type V = ConfigErrorView;

    open spec fn view(&self) -> ConfigErrorView {
        match self {
            ConfigError::InvalidBindAddress(value) => ConfigErrorView::InvalidBindAddress(value@),
            ConfigError::InvalidValidiumUrl(value) => ConfigErrorView::InvalidValidiumUrl(value@),
            ConfigError::InvalidWithdrawProofsUrl(value) => ConfigErrorView::InvalidWithdrawProofsUrl(
                value@,
            ),
        }
    }
}

/// The text of an error.
pub open spec fn spec_config_error_text(e: ConfigErrorView) -> Seq<char> {
    match e {
        ConfigErrorView::InvalidBindAddress(value) => "Invalid bind_address: "@ + value
            + ". Expected format like 0.0.0.0:8080"@,
        ConfigErrorView::InvalidValidiumUrl(url) => "Invalid validium_url: "@ + url
            + ". Must start with http:// or https://"@,
        ConfigErrorView::InvalidWithdrawProofsUrl(url) => "Invalid withdraw_proofs_url: "@ + url
            + ". Must start with http:// or https://"@,
    }
}

/// The first fault of a set of addresses, if there is one: the bind
/// address is looked at first, then the sequencer's, then that of the
/// withdraw-proofs service. `bind_address_is_socket` says whether the
/// bind address is a socket address.
pub open spec fn spec_fault(
    bind_address: Seq<char>,
    validium_url: Seq<char>,
    withdraw_proofs_url: Seq<char>,
    bind_address_is_socket: bool,
) -> Option<ConfigErrorView> {
    if !bind_address_is_socket {
        Some(ConfigErrorView::InvalidBindAddress(bind_address))
    } else if !spec_is_http_url(validium_url) {
        Some(ConfigErrorView::InvalidValidiumUrl(validium_url))
    } else if !spec_is_http_url(withdraw_proofs_url) {
        Some(ConfigErrorView::InvalidWithdrawProofsUrl(withdraw_proofs_url))
    } else {
        None
    }
}

/// Whether `s` starts with `prefix`.
pub open spec fn spec_starts_with(s: Seq<char>, prefix: Seq<char>) -> bool {
    prefix.len() <= s.len() && s.subrange(0, prefix.len() as int) == prefix
}

/// Whether `url` names an HTTP or HTTPS endpoint.
pub open spec fn spec_is_http_url(url: Seq<char>) -> bool {
    spec_starts_with(url, "http://"@) || spec_starts_with(url, "https://"@)
}

/// `a` if there is one, else `b`.
pub open spec fn spec_or(a: Option<String>, b: Seq<char>) -> Seq<char> {
    match a {
        Some(value) => value@,
        None => b,
    }
}

/// The bind address that is used where none is set.
pub fn default_bind_address() -> (res: String)
    ensures
        res@ == "0.0.0.0:8080"@,
{
    "0.0.0.0:8080".to_owned()
}

/// The sequencer endpoint that is used where none is set.
pub fn default_validium_url() -> (res: String)
    ensures
        res@ == "http://validium-sequencer:8545"@,
{
    "http://validium-sequencer:8545".to_owned()
}

/// Whether `s` starts with `prefix`.
pub fn starts_with(s: &str, prefix: &str) -> (res: bool)
    ensures
        res == spec_starts_with(s@, prefix@),
{
    let n = prefix.unicode_len();
    if s.unicode_len() < n {
        return false;
    }
    let mut i: usize = 0;
    while i < n
        invariant
            i <= n,
            n == prefix@.len(),
            n <= s@.len(),
            forall|j: int| 0 <= j < i ==> s@[j] == prefix@[j],
        decreases n - i,
    {
        if s.get_char(i) != prefix.get_char(i) {
            assert(s@.subrange(0, n as int)[i as int] != prefix@[i as int]);
            return false;
        }
        i += 1;
    }
    assert(s@.subrange(0, n as int) =~= prefix@);
    true
}

/// Whether `url` names an HTTP or HTTPS endpoint.
pub fn is_http_url(url: &str) -> (res: bool)
    ensures
        res == spec_is_http_url(url@),
{
    starts_with(url, "http://") || starts_with(url, "https://")
}

impl ConfigError {
    /// The error as text.
    pub fn message(&self) -> (res: String)
        ensures
            res@ == spec_config_error_text(self@),
    {
        match self {
            ConfigError::InvalidBindAddress(value) => String::from_str(
                "Invalid bind_address: ",
            ).concat(value.as_str()).concat(". Expected format like 0.0.0.0:8080"),
            ConfigError::InvalidValidiumUrl(url) => String::from_str(
                "Invalid validium_url: ",
            ).concat(url.as_str()).concat(". Must start with http:// or https://"),
            ConfigError::InvalidWithdrawProofsUrl(url) => String::from_str(
                "Invalid withdraw_proofs_url: ",
            ).concat(url.as_str()).concat(". Must start with http:// or https://"),
        }
    }
}

impl AppConfig {
    /// The settings read from a file, with the defaults for what the file
    /// leaves out.
    pub fn from_parts(
        bind_address: Option<String>,
        validium_url: Option<String>,
        withdraw_proofs_url: String,
        admin_keys: Vec<String>,
        jwt_expiry_secs: usize,
        default_kid: String,
        jwt_signer_keys: Vec<JwtSignerKeyConfig>,
    ) -> (res: AppConfig)
        ensures
            res.bind_address@ == spec_or(bind_address, "0.0.0.0:8080"@),
            res.validium_url@ == spec_or(validium_url, "http://validium-sequencer:8545"@),
            res.withdraw_proofs_url == withdraw_proofs_url,
            res.admin_keys == admin_keys,
            res.jwt_expiry_secs == jwt_expiry_secs,
            res.default_kid == default_kid,
            res.jwt_signer_keys == jwt_signer_keys,
    {
        AppConfig {
            bind_address: match bind_address {
                Some(value) => value,
                None => default_bind_address(),
            },
            validium_url: match validium_url {
                Some(value) => value,
                None => default_validium_url(),
            },
            withdraw_proofs_url,
            admin_keys,
            jwt_expiry_secs,
            default_kid,
            jwt_signer_keys,
        }
    }

    /// Replaces the three addresses by those given on the command line,
    /// where they are given.
    pub fn apply_overrides(
        &mut self,
        bind_address: Option<String>,
        validium_url: Option<String>,
        withdraw_proofs_url: Option<String>,
    )
        ensures
            final(self).bind_address@ == spec_or(bind_address, old(self).bind_address@),
            final(self).validium_url@ == spec_or(validium_url, old(self).validium_url@),
            final(self).withdraw_proofs_url@ == spec_or(
                withdraw_proofs_url,
                old(self).withdraw_proofs_url@,
            ),
            final(self).admin_keys == old(self).admin_keys,
            final(self).jwt_expiry_secs == old(self).jwt_expiry_secs,
            final(self).default_kid == old(self).default_kid,
            final(self).jwt_signer_keys == old(self).jwt_signer_keys,
    {
        if let Some(value) = bind_address {
            self.bind_address = value;
        }
        if let Some(value) = validium_url {
            self.validium_url = value;
        }
        if let Some(value) = withdraw_proofs_url {
            self.withdraw_proofs_url = value;
        }
    }

    /// The bind address that is in force once the command line is taken
    /// into account.
    pub fn bind_address_with<'a>(&'a self, bind_address: &'a Option<String>) -> (res: &'a str)
        ensures
            res@ == spec_or(*bind_address, self.bind_address@),
    {
        match bind_address {
            Some(value) => value.as_str(),
            None => self.bind_address.as_str(),
        }
    }

    /// The settings that the gateway starts with: those of the file with
    /// the addresses of the command line in place of the file's, where the
    /// command line gives them, checked after that. `bind_address_is_socket`
    /// says whether the bind address that is then in force, the one that
    /// `bind_address_with` gives, is a socket address.
    pub fn resolve(
        self,
        bind_address: Option<String>,
        validium_url: Option<String>,
        withdraw_proofs_url: Option<String>,
        bind_address_is_socket: bool,
    ) -> (res: Result<AppConfig, ConfigError>)
        ensures
            match res {
                Ok(cfg) => {
                    &&& spec_fault(
                        spec_or(bind_address, self.bind_address@),
                        spec_or(validium_url, self.validium_url@),
                        spec_or(withdraw_proofs_url, self.withdraw_proofs_url@),
                        bind_address_is_socket,
                    ) is None
                    &&& cfg.bind_address@ == spec_or(bind_address, self.bind_address@)
                    &&& cfg.validium_url@ == spec_or(validium_url, self.validium_url@)
                    &&& cfg.withdraw_proofs_url@ == spec_or(
                        withdraw_proofs_url,
                        self.withdraw_proofs_url@,
                    )
                    &&& cfg.admin_keys == self.admin_keys
                    &&& cfg.jwt_expiry_secs == self.jwt_expiry_secs
                    &&& cfg.default_kid == self.default_kid
                    &&& cfg.jwt_signer_keys == self.jwt_signer_keys
                },
                Err(e) => spec_fault(
                    spec_or(bind_address, self.bind_address@),
                    spec_or(validium_url, self.validium_url@),
                    spec_or(withdraw_proofs_url, self.withdraw_proofs_url@),
                    bind_address_is_socket,
                ) == Some(e@),
            },
    {
        let mut cfg = self;
        cfg.apply_overrides(bind_address, validium_url, withdraw_proofs_url);
        if !bind_address_is_socket {
            return Err(ConfigError::InvalidBindAddress(cfg.bind_address));
        }
        match cfg.validate_urls() {
            Ok(()) => Ok(cfg),
            Err(e) => Err(e),
        }
    }

    /// Checks that both endpoints are HTTP or HTTPS addresses; the
    /// sequencer's is looked at first.
    pub fn validate_urls(&self) -> (res: Result<(), ConfigError>)
        ensures
            if !spec_is_http_url(self.validium_url@) {
                res matches Err(ConfigError::InvalidValidiumUrl(url)) && url@ == self.validium_url@
            } else if !spec_is_http_url(self.withdraw_proofs_url@) {
                res matches Err(ConfigError::InvalidWithdrawProofsUrl(url)) && url@
                    == self.withdraw_proofs_url@
            } else {
                res is Ok
            },
    {
        if !is_http_url(self.validium_url.as_str()) {
            return Err(ConfigError::InvalidValidiumUrl(self.validium_url.clone()));
        }
        if !is_http_url(self.withdraw_proofs_url.as_str()) {
            return Err(ConfigError::InvalidWithdrawProofsUrl(self.withdraw_proofs_url.clone()));
        }
        Ok(())
    }
}

} // verus!
