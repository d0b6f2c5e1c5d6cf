//! A thin API client: a validated configuration and the requests started
//! from it.

use vstd::prelude::*;

verus! {

/// Configuration for a [`Client`]: an optional base URL that every request
/// path is resolved against, and default headers sent with every request.
pub struct Config {
    /// The base URL that request paths are joined onto, if any.
    pub base_url: Option<url::Url>,
    /// Header pairs sent with every request.
    pub headers: Vec<(String, String)>,
}

/// Why a [`Config`] was rejected.
#[derive(Copy, Clone, Debug, PartialEq, Eq, Structural)]
pub enum ConfigError {
    /// The configured base URL cannot be used as a base for relative paths.
    UrlCannotBeABase,
}

/// Decides validity from what the `url` crate reports about the base URL:
/// a URL that cannot be a base is rejected.
pub fn classify_base_url(cannot_be_a_base: bool) -> (r: Result<(), ConfigError>)
    ensures
        r is Err <==> cannot_be_a_base,
        r is Err ==> r == Err::<(), ConfigError>(ConfigError::UrlCannotBeABase),
{
    if cannot_be_a_base {
        Err(ConfigError::UrlCannotBeABase)
    } else {
        Ok(())
    }
}

impl Config {
    /// Checks that the configured base URL, if any, can serve as a base for
    /// request paths. A configuration without a base URL is always valid;
    /// one with a base URL is rejected exactly when the `url` crate reports
    /// that it cannot be a base.
    pub fn validate(&self) -> (r: Result<(), ConfigError>)
        ensures
            self.base_url is None ==> r is Ok,
            r is Err ==> self.base_url is Some && r == Err::<(), ConfigError>(
                ConfigError::UrlCannotBeABase,
            ),
    {
        match &self.base_url {
            Some(base_url) => classify_base_url(base_url.cannot_be_a_base()),
            None => Ok(()),
        }
    }
}

/// An API client holding a validated configuration; requests are started
/// from it with [`Client::get`] and its siblings.
pub struct Client {
    config: Config,
}

/// The HTTP method of a [`Request`].
#[derive(Copy, Clone, Debug, PartialEq, Eq, Structural)]
pub enum RequestMethod {
    /// A HEAD request.
    Head,
    /// A GET request.
    Get,
    /// A PUT request.
    Put,
    /// A POST request.
    Post,
    /// A DELETE request.
    Delete,
}

/// A request being prepared against a [`Client`]: the client it belongs to,
/// its method, its headers, and its body, if any.
pub struct Request<'c> {
    /// The client the request was started from.
    pub client: &'c Client,
    /// The request's method.
    pub method: RequestMethod,
    /// The request's header pairs.
    pub headers: Vec<(String, String)>,
    /// The request's body, for the methods that carry one.
    pub body: Option<Vec<u8>>,
}

impl Client {
    /// The client's configuration.
    pub closed spec fn config_spec(&self) -> Config {
        self.config
    }

    /// Wraps a configuration after validating it; a configuration whose
    /// base URL cannot be a base is rejected with that error.
    pub fn new(config: Config) -> (r: Result<Client, ConfigError>)
        ensures
            config.base_url is None ==> r is Ok,
            r matches Ok(client) ==> client.config_spec() == config,
            r matches Err(e) ==> config.base_url is Some && e == ConfigError::UrlCannotBeABase,
    {
        match config.validate() {
            Ok(()) => Ok(Client { config }),
            Err(error) => Err(error),
        }
    }

    /// Borrow the client's configuration.
    pub fn config(&self) -> (r: &Config)
        ensures
            *r == self.config_spec(),
    {
        &self.config
    }

    /// Starts a HEAD request for the given path.
    pub fn head<'c>(&'c self, _path: &str) -> (r: Request<'c>)
        ensures
            r.method == RequestMethod::Head,
            r.headers@.len() == 0,
            r.body is None,
    {
        Request { client: self, method: RequestMethod::Head, headers: Vec::new(), body: None }
    }

    /// Starts a GET request for the given path.
    pub fn get<'c>(&'c self, _path: &str) -> (r: Request<'c>)
        ensures
            r.method == RequestMethod::Get,
            r.headers@.len() == 0,
            r.body is None,
    {
        Request { client: self, method: RequestMethod::Get, headers: Vec::new(), body: None }
    }

    /// Starts a PUT request for the given path, carrying the given body.
    pub fn put<'c>(&'c self, _path: &str, body: Vec<u8>) -> (r: Request<'c>)
        ensures
            r.method == RequestMethod::Put,
            r.headers@.len() == 0,
            r.body matches Some(b) && b@ == body@,
    {
        Request {
            client: self,
            method: RequestMethod::Put,
            headers: Vec::new(),
            body: Some(body),
        }
    }

    /// Starts a POST request for the given path, carrying the given body.
    pub fn post<'c>(&'c self, _path: &str, body: Vec<u8>) -> (r: Request<'c>)
        ensures
            r.method == RequestMethod::Post,
            r.headers@.len() == 0,
            r.body matches Some(b) && b@ == body@,
    {
        Request {
            client: self,
            method: RequestMethod::Post,
            headers: Vec::new(),
            body: Some(body),
        }
    }

    /// Starts a DELETE request for the given path.
    pub fn delete<'c>(&'c self, _path: &str) -> (r: Request<'c>)
        ensures
            r.method == RequestMethod::Delete,
            r.headers@.len() == 0,
            r.body is None,
    {
        Request { client: self, method: RequestMethod::Delete, headers: Vec::new(), body: None }
    }
}

} // verus!
