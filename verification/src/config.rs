//! The settings of a run. All of them are required, and they are resolved
//! once, before anything is asked of the network.

use vstd::prelude::*;
use vstd::string::*;
use crate::error::SyncError;

verus! {

/// Name of the setting that holds the network address of the search service.
pub const SEARCH_HOST_SETTING: &'static str = "MEILISEARCH_URL";

/// Name of the setting that holds the API key of the search service.
pub const SEARCH_API_KEY_SETTING: &'static str = "MEILISEARCH_API_KEY";

/// Name of the setting that holds the connection string of the document store.
pub const STORE_URL_SETTING: &'static str = "MONGODB_URL";

/// Name of the database that holds the three collections.
pub const DATABASE_NAME: &'static str = "MopRs";

/// Name under which the run announces itself to the document store.
pub const APPLICATION_NAME: &'static str = "MopRs_sync";

/// The settings of a run.
#[derive(Clone, Debug, PartialEq, Eq)]
pub struct Config {
    /// Base address of the search service.
    pub search_address: String,
    /// API key of the search service.
    pub search_api_key: String,
    /// Connection string of the document store.
    pub store_url: String,
}

/// Name of the first setting that is missing, in the order in which the
/// settings are read.
pub open spec fn first_missing(
    search_host: Option<String>,
    search_api_key: Option<String>,
    store_url: Option<String>,
) -> Option<Seq<char>> {
    if search_host is None {
        Some(SEARCH_HOST_SETTING@)
    } else if search_api_key is None {
        Some(SEARCH_API_KEY_SETTING@)
    } else if store_url is None {
        Some(STORE_URL_SETTING@)
    } else {
        None
    }
}

/// The base address of the search service at `host`.
pub open spec fn spec_search_address(host: Seq<char>) -> Seq<char> {
    "http://"@ + host
}

/// The base address of the search service at `host`.
pub fn search_address(host: &str) -> (address: String)
    ensures
        address@ == spec_search_address(host@),
{
    "http://".to_owned().concat(host)
}

impl Config {
    /// Resolves the settings from the values found for them.
    ///
    /// With all three present the run is configured: the search service is
    /// addressed over HTTP at the given host, and the key and the connection
    /// string are taken as they are. With one missing the run cannot start:
    /// the failure names the first setting that is missing.
    pub fn resolve(
        search_host: Option<String>,
        search_api_key: Option<String>,
        store_url: Option<String>,
    ) -> (resolved: Result<Config, SyncError>)
        ensures
            (match resolved {
                Ok(config) => {
                    &&& first_missing(search_host, search_api_key, store_url) is None
                    &&& config.search_address@ == spec_search_address(search_host->0@)
                    &&& config.search_api_key == search_api_key->0
                    &&& config.store_url == store_url->0
                },
                Err(error) => {
                    &&& error matches SyncError::Configuration(name)
                    &&& first_missing(search_host, search_api_key, store_url) == Some(name@)
                },
            }),
    {
        let host = match search_host {
            Some(host) => host,
            None => {
                return Err(SyncError::Configuration(SEARCH_HOST_SETTING.to_owned()));
            },
        };
        let key = match search_api_key {
            Some(key) => key,
            None => {
                return Err(SyncError::Configuration(SEARCH_API_KEY_SETTING.to_owned()));
            },
        };
        let url = match store_url {
            Some(url) => url,
            None => {
                return Err(SyncError::Configuration(STORE_URL_SETTING.to_owned()));
            },
        };
        Ok(
            Config {
                search_address: search_address(host.as_str()),
                search_api_key: key,
                store_url: url,
            },
        )
    }
}

} // verus!
