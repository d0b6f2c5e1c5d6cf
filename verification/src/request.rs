//! A chainable builder for HTTP requests: method, URL, query string, body
//! and headers are collected step by step, and `done` either produces the
//! finished request or reports the first thing that went wrong.

use vstd::prelude::*;

use crate::client::Client;

verus! {

/// Why a [`RequestBuilder`] could not produce a [`Request`].
#[derive(Copy, Clone, Debug, PartialEq, Eq, Structural)]
pub enum BuildError {
    /// The URL given to the builder cannot be used as a base for relative
    /// paths.
    UrlCannotBeABase,
    /// A URL string did not parse, on its own or against the current base.
    InvalidUrl,
    /// No method was ever given to the builder.
    MissingMethod,
    /// No URL was ever given to the builder.
    MissingUrl,
}

/// The HTTP method of a built [`Request`].
#[derive(Copy, Clone, Debug, PartialEq, Eq, Structural)]
pub enum Method {
    /// A GET request.
    Get,
    /// A PUT request.
    Put,
    /// A POST request.
    Post,
    /// A PATCH request.
    Patch,
    /// A DELETE request.
    Delete,
}

/// A finished request, as produced by [`RequestBuilder::done`].
#[derive(Debug)]
pub struct Request {
    method: Method,
    url: String,
    body: String,
    headers: Vec<(String, String)>,
}

impl Request {
    /// The request's method.
    pub closed spec fn method_spec(&self) -> Method {
        self.method
    }

    /// The request's serialized URL, query string included.
    pub closed spec fn url_spec(&self) -> Seq<char> {
        self.url@
    }

    /// The request's body.
    pub closed spec fn body_spec(&self) -> Seq<char> {
        self.body@
    }

    /// The request's header pairs.
    pub closed spec fn headers_spec(&self) -> Seq<(String, String)> {
        self.headers@
    }

    /// The request's method.
    pub fn method(&self) -> (r: Method)
        ensures
            r == self.method_spec(),
    {
        self.method
    }

    /// The request's serialized URL, query string included.
    pub fn uri(&self) -> (r: &str)
        ensures
            r@ == self.url_spec(),
    {
        self.url.as_str()
    }

    /// The request's body.
    pub fn body(&self) -> (r: &str)
        ensures
            r@ == self.body_spec(),
    {
        self.body.as_str()
    }

    /// The request's header pairs.
    pub fn headers(&self) -> (r: &Vec<(String, String)>)
        ensures
            r@ == self.headers_spec(),
    {
        &self.headers
    }
}

/// Collects the parts of a [`Request`]. Each step hands the builder back;
/// the first failure is remembered and reported by [`RequestBuilder::done`],
/// so the chain never stops midway.
#[derive(Debug, Default)]
pub struct RequestBuilder {
    method: Option<Method>,
    url: Option<url::Url>,
    query: Option<String>,
    body: Option<String>,
    headers: Option<Vec<(String, String)>>,
    error: Option<BuildError>,
}

/// Clones header pairs, value for value.
fn clone_headers(headers: &Vec<(String, String)>) -> (r: Vec<(String, String)>)
    ensures
        r@ == headers@,
{
    let mut cloned: Vec<(String, String)> = Vec::new();
    let mut index: usize = 0;
    while index < headers.len()
        invariant
            index <= headers@.len(),
            cloned@ =~= headers@.take(index as int),
        decreases headers@.len() - index,
    {
        let (name, value) = &headers[index];
        cloned.push((name.clone(), value.clone()));
        index = index + 1;
        proof {
            assert(cloned@ =~= headers@.take(index as int));
        }
    }
    proof {
        assert(headers@.take(headers@.len() as int) =~= headers@);
    }
    cloned
}

impl RequestBuilder {
    /// The method collected so far.
    pub closed spec fn method_spec(&self) -> Option<Method> {
        self.method
    }

    /// The URL collected so far.
    pub closed spec fn url_spec(&self) -> Option<url::Url> {
        self.url
    }

    /// The query string collected so far.
    pub closed spec fn query_spec(&self) -> Option<String> {
        self.query
    }

    /// The body collected so far.
    pub closed spec fn body_spec(&self) -> Option<String> {
        self.body
    }

    /// The header pairs collected so far.
    pub closed spec fn headers_spec(&self) -> Option<Vec<(String, String)>> {
        self.headers
    }

    /// The first failure recorded so far, if any.
    pub closed spec fn error_spec(&self) -> Option<BuildError> {
        self.error
    }

    /// Starts a builder with nothing but a method.
    pub fn new(method: Method) -> (r: Self)
        ensures
            r.method_spec() == Some(method),
            r.url_spec() is None,
            r.query_spec() is None,
            r.body_spec() is None,
            r.headers_spec() is None,
            r.error_spec() is None,
    {
        Self { method: Some(method), url: None, query: None, body: None, headers: None, error: None }
    }

    /// Starts a builder from a client: the client's base URL and default
    /// headers are taken over, together with the given method.
    pub fn from_client(client: &Client, method: Method) -> (r: Self)
        ensures
            r.method_spec() == Some(method),
            r.url_spec() is Some <==> client.config_spec().base_url is Some,
            r.headers_spec() matches Some(headers) && headers@
                == client.config_spec().headers@,
            r.query_spec() is None,
            r.body_spec() is None,
            r.error_spec() is None,
    {
        let config = client.config();
        let base = match &config.base_url {
            Some(base_url) => Some(base_url.clone()),
            None => None,
        };
        Self {
            method: Some(method),
            url: base,
            query: None,
            body: None,
            headers: Some(clone_headers(&config.headers)),
            error: None,
        }
    }

    /// Replaces the method.
    pub fn method(self, method: Method) -> (r: Self)
        ensures
            r.method_spec() == Some(method),
            r.url_spec() == self.url_spec(),
            r.query_spec() == self.query_spec(),
            r.body_spec() == self.body_spec(),
            r.headers_spec() == self.headers_spec(),
            r.error_spec() == self.error_spec(),
    {
        Self { method: Some(method), ..self }
    }

    /// Takes a URL string: the first one must parse on its own and be
    /// usable as a base; later ones are joined onto the current URL. The
    /// first failure is recorded and reported by [`RequestBuilder::done`].
    pub fn uri(self, input: &str) -> (r: Self)
        ensures
            r.method_spec() == self.method_spec(),
            r.query_spec() == self.query_spec(),
            r.body_spec() == self.body_spec(),
            r.headers_spec() == self.headers_spec(),
            self.error_spec() is Some ==> r.error_spec() == self.error_spec() && r.url_spec()
                == self.url_spec(),
            self.error_spec() is None ==> (r.error_spec() is None ==> r.url_spec() is Some),
            self.error_spec() is None ==> (r.error_spec() is Some ==> (r.error_spec()
                == Some(BuildError::InvalidUrl) || (r.error_spec() == Some(
                BuildError::UrlCannotBeABase,
            ) && self.url_spec() is None))),
    {
        if self.error.is_some() {
            return self;
        }
        match &self.url {
            Some(current) => match current.join(input) {
                Ok(joined) => Self { url: Some(joined), ..self },
                Err(_) => Self { error: Some(BuildError::InvalidUrl), ..self },
            },
            None => match url::Url::parse(input) {
                Ok(parsed) => {
                    if parsed.cannot_be_a_base() {
                        Self { error: Some(BuildError::UrlCannotBeABase), ..self }
                    } else {
                        Self { url: Some(parsed), ..self }
                    }
                },
                Err(_) => Self { error: Some(BuildError::InvalidUrl), ..self },
            },
        }
    }

    /// Replaces the query string; the serialization into key-value form is
    /// its caller's concern.
    pub fn query(self, query: &str) -> (r: Self)
        ensures
            r.method_spec() == self.method_spec(),
            r.url_spec() == self.url_spec(),
            r.query_spec() matches Some(q) && q@ == query@,
            r.body_spec() == self.body_spec(),
            r.headers_spec() == self.headers_spec(),
            r.error_spec() == self.error_spec(),
    {
        Self { query: Some(query.to_owned()), ..self }
    }

    /// Replaces the body.
    pub fn body(self, body: &str) -> (r: Self)
        ensures
            r.method_spec() == self.method_spec(),
            r.url_spec() == self.url_spec(),
            r.query_spec() == self.query_spec(),
            r.body_spec() matches Some(b) && b@ == body@,
            r.headers_spec() == self.headers_spec(),
            r.error_spec() == self.error_spec(),
    {
        Self { body: Some(body.to_owned()), ..self }
    }

    /// Appends header pairs to the ones collected so far.
    pub fn headers(self, headers: Vec<(String, String)>) -> (r: Self)
        ensures
            r.method_spec() == self.method_spec(),
            r.url_spec() == self.url_spec(),
            r.query_spec() == self.query_spec(),
            r.body_spec() == self.body_spec(),
            r.headers_spec() matches Some(all) && all@ == (match self.headers_spec() {
                Some(current) => current@,
                None => Seq::<(String, String)>::empty(),
            }) + headers@,
            r.error_spec() == self.error_spec(),
    {
        let mut more = headers;
        let combined = match self.headers {
            Some(mut current) => {
                current.append(&mut more);
                current
            },
            None => {
                let mut current: Vec<(String, String)> = Vec::new();
                current.append(&mut more);
                proof {
                    assert(current@ =~= Seq::<(String, String)>::empty() + current@);
                }
                current
            },
        };
        Self {
            method: self.method,
            url: self.url,
            query: self.query,
            body: self.body,
            headers: Some(combined),
            error: self.error,
        }
    }

    /// Finishes the builder: the first recorded failure, a missing method
    /// or a missing URL is reported as the error; otherwise the finished
    /// request carries the method, the URL serialized with the query string
    /// appended after `?`, the body, and the headers, empty where nothing
    /// was collected.
    pub fn done(self) -> (r: Result<Request, BuildError>)
        ensures
            r is Ok <==> self.error_spec() is None && self.method_spec() is Some
                && self.url_spec() is Some,
            self.error_spec() matches Some(e) ==> r == Err::<Request, BuildError>(e),
            self.error_spec() is None && self.method_spec() is None ==> r == Err::<
                Request,
                BuildError,
            >(BuildError::MissingMethod),
            self.error_spec() is None && self.method_spec() is Some && self.url_spec() is None
                ==> r == Err::<Request, BuildError>(BuildError::MissingUrl),
            r matches Ok(request) ==> {
                &&& Some(request.method_spec()) == self.method_spec()
                &&& request.body_spec() == (match self.body_spec() {
                    Some(body) => body@,
                    None => Seq::<char>::empty(),
                })
                &&& request.headers_spec() == (match self.headers_spec() {
                    Some(headers) => headers@,
                    None => Seq::<(String, String)>::empty(),
                })
                &&& (self.query_spec() matches Some(query) ==> exists|base: Seq<char>|
                    request.url_spec() == base + "?"@ + query@)
            },
    {
        if let Some(error) = self.error {
            return Err(error);
        }
        let method = match self.method {
            Some(method) => method,
            None => {
                return Err(BuildError::MissingMethod);
            },
        };
        let base = match self.url {
            Some(base) => base,
            None => {
                return Err(BuildError::MissingUrl);
            },
        };
        let mut serialized = base.as_str().to_owned();
        if let Some(query) = &self.query {
            serialized.append("?");
            serialized.append(query.as_str());
        }
        let body = match self.body {
            Some(body) => body,
            None => String::new(),
        };
        let headers = match self.headers {
            Some(headers) => headers,
            None => Vec::new(),
        };
        Ok(Request { method, url: serialized, body, headers })
    }
}

} // verus!
