//! The values that startup reads from the secret store.

use crate::error::BootstrapError;
use crate::secrets::{get_secret, lookup, opt_view, qualified, secrets_of, BuildMode};
use shuttle_secrets::SecretStore;
use vstd::prelude::*;
use vstd::string::*;

verus! {

/// The tag that every log record carries: the service's version.
pub const VERSION: &'static str = "version:0.1.0";

/// Key of the Datadog API key; startup cannot go on without it.
pub const API_KEY_NAME: &'static str = "DD_API_KEY";

/// Key of the extra Datadog tags.
pub const TAGS_NAME: &'static str = "DD_TAGS";

/// Key of the log level filter.
pub const LOG_LEVEL_NAME: &'static str = "LOG_LEVEL";

/// The level used when none is configured.
pub const DEFAULT_LOG_LEVEL: &'static str = "INFO";

pub open spec fn version_tag() -> Seq<char> {
    VERSION@
}

pub open spec fn default_level() -> Seq<char> {
    DEFAULT_LOG_LEVEL@
}

/// The tag string sent with the logs: the configured tags followed by the
/// version tag, or the version tag alone.
pub open spec fn tags_with_version(tags: Option<Seq<char>>) -> Seq<char> {
    match tags {
        Some(t) => t + seq![','] + version_tag(),
        None => version_tag(),
    }
}

/// The configuration that startup derives from the store.
#[derive(Clone, Debug)]
pub struct ResolvedConfig {
    pub log_level: String,
    pub api_key: String,
    pub tags: String,
}

/// The configuration as plain sequences.
pub struct ConfigModel {
    pub log_level: Seq<char>,
    pub api_key: Seq<char>,
    pub tags: Seq<char>,
}

impl View for ResolvedConfig {
    type V = ConfigModel;

    open spec fn view(&self) -> ConfigModel {
        ConfigModel { log_level: self.log_level@, api_key: self.api_key@, tags: self.tags@ }
    }
}

/// The configuration that a store with contents `m` gives in the given mode,
/// or `None` where the API key is absent.
pub open spec fn config_model(m: Map<Seq<char>, Seq<char>>, mode: BuildMode) -> Option<ConfigModel> {
    match lookup(m, API_KEY_NAME@, mode) {
        None => None,
        Some(k) => Some(
            ConfigModel {
                log_level: match lookup(m, LOG_LEVEL_NAME@, mode) {
                    Some(l) => l,
                    None => default_level(),
                },
                api_key: k,
                tags: tags_with_version(lookup(m, TAGS_NAME@, mode)),
            },
        ),
    }
}

/// Without the API key, under its qualified name, there is no configuration:
/// startup fails at the secrets, before anything is provisioned.
pub proof fn missing_api_key_gives_no_config(m: Map<Seq<char>, Seq<char>>, mode: BuildMode)
    requires
        !m.contains_key(qualified(API_KEY_NAME@, mode)),
    ensures
        config_model(m, mode).is_none(),
{
}

/// Appends the version tag to the configured tags, or gives it alone.
pub fn compose_tags(tags: Option<String>) -> (r: String)
    ensures
        r@ == tags_with_version(opt_view(tags)),
{
    proof {
        reveal_strlit("version:0.1.0");
        reveal_strlit(",");
    }
    match tags {
        Some(t) => {
            let mut r = t;
            r.append(",");
            r.append(VERSION);
            r
        },
        None => VERSION.to_owned(),
    }
}

/// Reads the log level, the API key and the tags from the store, each key
/// qualified for the given mode. Fails, naming the API key secret, when the
/// key is absent under its qualified name.
pub fn resolve_config(secret_store: &SecretStore, mode: BuildMode) -> (r: Result<
    ResolvedConfig,
    BootstrapError,
>)
    ensures
        match r {
            Ok(c) => config_model(secrets_of(*secret_store), mode) == Some(c@),
            Err(e) => config_model(secrets_of(*secret_store), mode).is_none() && (match e {
                BootstrapError::SecretMissing(k) => k@ == API_KEY_NAME@,
                _ => false,
            }),
        },
{
    let tags = compose_tags(get_secret(secret_store, TAGS_NAME, mode));
    let log_level = match get_secret(secret_store, LOG_LEVEL_NAME, mode) {
        Some(l) => l,
        None => DEFAULT_LOG_LEVEL.to_owned(),
    };
    match get_secret(secret_store, API_KEY_NAME, mode) {
        Some(api_key) => Ok(ResolvedConfig { log_level, api_key, tags }),
        None => Err(BootstrapError::SecretMissing(API_KEY_NAME.to_owned())),
    }
}

} // verus!
