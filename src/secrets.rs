//! Lookup of configuration values in the deployment's secret store.

use shuttle_secrets::SecretStore;
use vstd::prelude::*;
use vstd::string::*;

verus! {

#[verifier::external_type_specification]
#[verifier::external_body]
pub struct ExSecretStore(SecretStore);

/// What a secret store holds: each key with its value.
pub uninterp spec fn secrets_of(store: SecretStore) -> Map<Seq<char>, Seq<char>>;

/// Relies on `SecretStore::get`: a copy of the value stored under `key`, if any.
#[verifier::external_body]
fn store_get(store: &SecretStore, key: &str) -> (r: Option<String>)
    ensures
        r.is_some() == secrets_of(*store).contains_key(key@),
        r.is_some() ==> r.unwrap()@ == secrets_of(*store)[key@],
{
    store.get(key)
}

/// The build configuration the service runs under.
#[derive(Clone, Copy, Debug, PartialEq, Eq, Structural)]
pub enum BuildMode {
    /// Keys are looked up with the development suffix.
    Development,
    /// Keys are looked up as given.
    Production,
}

/// The suffix that development builds append to every key.
pub open spec fn dev_suffix() -> Seq<char> {
    seq!['_', 'D', 'E', 'V']
}

/// The key under which `key` is stored in the given mode.
pub open spec fn qualified(key: Seq<char>, mode: BuildMode) -> Seq<char> {
    match mode {
        BuildMode::Development => key + dev_suffix(),
        BuildMode::Production => key,
    }
}

/// What a lookup of `key` in `m` gives in the given mode.
pub open spec fn lookup(
    m: Map<Seq<char>, Seq<char>>,
    key: Seq<char>,
    mode: BuildMode,
) -> Option<Seq<char>> {
    if m.contains_key(qualified(key, mode)) {
        Some(m[qualified(key, mode)])
    } else {
        None
    }
}

/// The view of an optional string.
pub open spec fn opt_view(o: Option<String>) -> Option<Seq<char>> {
    match o {
        Some(s) => Some(s@),
        None => None,
    }
}

/// The key that is looked up for `key` in the given mode.
pub fn qualified_key(key: &str, mode: BuildMode) -> (r: String)
    ensures
        r@ == qualified(key@, mode),
{
    let mut k = String::from_str(key);
    match mode {
        BuildMode::Development => {
            k.append("_DEV");
            proof {
                reveal_strlit("_DEV");
            }
        },
        BuildMode::Production => {},
    }
    k
}

/// Looks `key` up in the store, qualified for the given mode; the other form
/// of the key is never consulted.
pub fn get_secret(secret_store: &SecretStore, key: &str, mode: BuildMode) -> (r: Option<String>)
    ensures
        opt_view(r) == lookup(secrets_of(*secret_store), key@, mode),
{
    let k = qualified_key(key, mode);
    store_get(secret_store, k.as_str())
}

/// In development mode a key is found only under its qualified form: a value
/// stored under the bare key is never returned in its place.
pub proof fn development_lookup_never_falls_back(m: Map<Seq<char>, Seq<char>>, key: Seq<char>)
    ensures
        lookup(m, key, BuildMode::Development) == (if m.contains_key(key + dev_suffix()) {
            Some(m[key + dev_suffix()])
        } else {
            None
        }),
        !m.contains_key(key + dev_suffix()) ==> lookup(m, key, BuildMode::Development).is_none(),
{
}

} // verus!
