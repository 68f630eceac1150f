//! How the servers are set up by their environment.

use vstd::prelude::*;

use crate::text::same_text;

verus! {

/// Where tables are stored.
pub enum Store {
    /// In the memory of the server, and lost with it.
    Memory,
    /// In a bucket of S3. What is not given here is found in the environment.
    S3(Bucket),
}

/// A bucket of S3 and how to reach it.
pub struct Bucket {
    pub name: String,
    pub credentials: Option<Credentials>,
    pub endpoint: Option<String>,
    pub allow_http: bool,
}

/// A key of S3.
pub struct Credentials {
    pub access_key_id: String,
    pub secret_access_key: String,
}

/// What the environment says to a server with a REST catalog.
pub struct RestEnvironment {
    pub catalog_url: Option<String>,
    pub bearer_token: Option<String>,
    pub oauth_token: Option<String>,
    pub username: Option<String>,
    pub password: Option<String>,
    pub bucket: Option<String>,
    pub access_key_id: Option<String>,
    pub secret_access_key: Option<String>,
    pub endpoint: Option<String>,
    pub allow_http: Option<String>,
    pub tls_domain: Option<String>,
}

/// How a server with a REST catalog is set up.
pub struct RestSettings {
    pub catalog_url: String,
    pub basic_auth: Option<BasicAuth>,
    pub oauth_access_token: Option<String>,
    pub bearer_access_token: Option<String>,
    pub store: Store,
    pub tls_domain: Option<String>,
}

/// A user of the catalog.
pub struct BasicAuth {
    pub username: String,
    pub password: Option<String>,
}

/// What the environment says to a server with a SQL catalog.
pub struct SqlEnvironment {
    pub catalog_url: Option<String>,
    pub bucket: Option<String>,
    pub tls_domain: Option<String>,
}

/// How a server with a SQL catalog is set up.
pub struct SqlSettings {
    pub catalog_url: String,
    pub store: Store,
    pub tls_domain: Option<String>,
}

/// Whether plain HTTP is asked for: by this word, and by no other.
pub open spec fn is_true(text: Option<String>) -> bool {
    text matches Some(word) && word@ == "TRUE"@
}

/// The store of a server with a REST catalog: a bucket, where its name and a whole key are
/// given, and otherwise memory.
pub open spec fn rest_store(environment: RestEnvironment, store: Store) -> bool {
    match (environment.bucket, environment.access_key_id, environment.secret_access_key) {
        (Some(name), Some(id), Some(secret)) => {
            &&& store matches Store::S3(bucket)
            &&& bucket.name == name
            &&& bucket.credentials matches Some(key)
            &&& key.access_key_id == id
            &&& key.secret_access_key == secret
            &&& bucket.endpoint == environment.endpoint
            &&& bucket.allow_http == is_true(environment.allow_http)
        },
        _ => store is Memory,
    }
}

/// Sets up a server with a REST catalog, where the environment says which catalog that is.
pub fn rest_settings(environment: RestEnvironment) -> (r: Option<RestSettings>)
    ensures
        match environment.catalog_url {
            None => r is None,
            Some(url) => {
                &&& r matches Some(settings)
                &&& settings.catalog_url == url
                &&& match environment.username {
                    None => settings.basic_auth is None,
                    Some(username) => settings.basic_auth matches Some(auth) && auth.username
                        == username && auth.password == environment.password,
                }
                &&& settings.oauth_access_token == environment.oauth_token
                &&& settings.bearer_access_token == environment.bearer_token
                &&& rest_store(environment, settings.store)
                &&& settings.tls_domain == environment.tls_domain
            },
        },
{
    let catalog_url = match environment.catalog_url {
        None => {
            return None;
        },
        Some(catalog_url) => catalog_url,
    };
    let basic_auth = match environment.username {
        None => None,
        Some(username) => Some(BasicAuth { username, password: environment.password }),
    };
    let allow_http = match &environment.allow_http {
        None => false,
        Some(word) => same_text(word.as_str(), "TRUE"),
    };
    let store = match (environment.bucket, environment.access_key_id, environment.secret_access_key) {
        (Some(name), Some(access_key_id), Some(secret_access_key)) => {
            let credentials = Some(Credentials { access_key_id, secret_access_key });
            Store::S3(Bucket { name, credentials, endpoint: environment.endpoint, allow_http })
        },
        _ => Store::Memory,
    };
    Some(
        RestSettings {
            catalog_url,
            basic_auth,
            oauth_access_token: environment.oauth_token,
            bearer_access_token: environment.bearer_token,
            store,
            tls_domain: environment.tls_domain,
        },
    )
}

/// Sets up a server with a SQL catalog, where the environment says which catalog that is.
pub fn sql_settings(environment: SqlEnvironment) -> (r: Option<SqlSettings>)
    ensures
        match environment.catalog_url {
            None => r is None,
            Some(url) => {
                &&& r matches Some(settings)
                &&& settings.catalog_url == url
                &&& match environment.bucket {
                    None => settings.store is Memory,
                    Some(name) => settings.store matches Store::S3(bucket) && bucket.name == name
                        && bucket.credentials is None && bucket.endpoint is None
                        && !bucket.allow_http,
                }
                &&& settings.tls_domain == environment.tls_domain
            },
        },
{
    match environment.catalog_url {
        None => None,
        Some(catalog_url) => {
            let store = match environment.bucket {
                None => Store::Memory,
                Some(name) => Store::S3(
                    Bucket { name, credentials: None, endpoint: None, allow_http: false },
                ),
            };
            Some(SqlSettings { catalog_url, store, tls_domain: environment.tls_domain })
        },
    }
}

/// What a session is given: a catalog and a schema to begin with, and views of what there is.
pub struct SessionSettings {
    pub create_default_catalog_and_schema: bool,
    pub information_schema: bool,
}

/// How every session is set up.
pub fn session_settings() -> (r: SessionSettings)
    ensures
        r.create_default_catalog_and_schema,
        r.information_schema,
{
    SessionSettings { create_default_catalog_and_schema: true, information_schema: true }
}

} // verus!
