//! Endpoints and the client configuration, and the check that every endpoint
//! address is a well-formed URI before a connection is built from them.

use vstd::prelude::*;
use crate::error::Error;
use crate::session::{Credentials, Session};

verus! {

/// What parsing a string as a URI reports: `None` if it is well formed, the
/// text of the parse error otherwise.
pub uninterp spec fn uri_parse_error(url: Seq<char>) -> Option<Seq<char>>;

/// Parses `url` with `tonic::transport::Channel::from_shared`, which reads
/// it as a URI and builds an endpoint description from it without
/// connecting. The outcome depends on the characters of `url` alone; an
/// error is reported by what it displays.
#[verifier::external_body]
fn parse_uri(url: &str) -> (r: Result<(), String>)
    ensures
        match r {
            Ok(_) => uri_parse_error(url@) is None,
            Err(msg) => uri_parse_error(url@) == Some(msg@),
        },
{
    match tonic::transport::Channel::from_shared(url.to_owned()) {
        Ok(_) => Ok(()),
        Err(e) => Err(e.to_string()),
    }
}

/// Transport-security material of one endpoint, as raw content.
#[derive(Clone, Debug)]
pub struct TlsMaterial {
    pub domain_name: String,
    pub ca_cert: Vec<u8>,
    pub client_cert: Vec<u8>,
    pub client_key: Vec<u8>,
}

/// The mathematical content of `TlsMaterial`.
pub struct TlsView {
    pub domain_name: Seq<char>,
    pub ca_cert: Seq<u8>,
    pub client_cert: Seq<u8>,
    pub client_key: Seq<u8>,
}

impl View for TlsMaterial {
    type V = TlsView;

    open spec fn view(&self) -> TlsView {
        TlsView {
            domain_name: self.domain_name@,
            ca_cert: self.ca_cert@,
            client_cert: self.client_cert@,
            client_key: self.client_key@,
        }
    }
}

/// A cluster member's address, with transport security if configured.
#[derive(Clone, Debug)]
pub struct Endpoint {
    url: String,
    tls_opt: Option<TlsMaterial>,
}

impl Endpoint {
    /// The address.
    pub closed spec fn spec_url(&self) -> Seq<char> {
        self.url@
    }

    /// The transport-security material, if any.
    pub closed spec fn spec_tls(&self) -> Option<TlsView> {
        match self.tls_opt {
            Some(m) => Some(m@),
            None => None,
        }
    }

    /// An endpoint without transport security.
    pub fn new(url: &str) -> (e: Endpoint)
        ensures
            e.spec_url() == url@,
            e.spec_tls() is None,
    {
        Endpoint { url: url.to_owned(), tls_opt: None }
    }

    /// The endpoint with transport security from raw certificate content.
    pub fn tls_raw(
        self,
        domain_name: &str,
        ca_cert: Vec<u8>,
        client_cert: Vec<u8>,
        client_key: Vec<u8>,
    ) -> (e: Endpoint)
        ensures
            e.spec_url() == self.spec_url(),
            e.spec_tls() == Some(
                TlsView {
                    domain_name: domain_name@,
                    ca_cert: ca_cert@,
                    client_cert: client_cert@,
                    client_key: client_key@,
                },
            ),
    {
        Endpoint {
            url: self.url,
            tls_opt: Some(
                TlsMaterial { domain_name: domain_name.to_owned(), ca_cert, client_cert, client_key },
            ),
        }
    }

    pub fn url(&self) -> (u: &String)
        ensures
            u@ == self.spec_url(),
    {
        &self.url
    }

    pub fn tls_material(&self) -> (m: Option<&TlsMaterial>)
        ensures
            match m {
                Some(t) => self.spec_tls() == Some(t@),
                None => self.spec_tls() is None,
            },
    {
        self.tls_opt.as_ref()
    }

    /// Checks the address. It fails exactly when the address is not a
    /// well-formed URI, with the parser's words.
    pub fn check(&self) -> (r: Result<(), Error>)
        ensures
            match r {
                Ok(_) => uri_parse_error(self.spec_url()) is None,
                Err(e) => e matches Error::InvalidURI(msg) && uri_parse_error(self.spec_url())
                    == Some(msg@),
            },
    {
        match parse_uri(self.url.as_str()) {
            Ok(_) => Ok(()),
            Err(msg) => Err(Error::InvalidURI(msg)),
        }
    }
}

impl<'a> From<&'a str> for Endpoint {
    /// An endpoint without transport security, from its address.
    fn from(url: &'a str) -> (e: Endpoint)
        ensures
            e.spec_url() == url@,
            e.spec_tls() is None,
    {
        Endpoint::new(url)
    }
}

impl<'a> vstd::std_specs::convert::FromSpecImpl<&'a str> for Endpoint {
    open spec fn obeys_from_spec() -> bool {
        false
    }

    open spec fn from_spec(v: &'a str) -> Endpoint {
        arbitrary()
    }
}

/// A length of time in whole seconds and the nanoseconds beyond them.
#[derive(Clone, Copy, Debug, PartialEq, Eq, Structural)]
pub struct TimeSpan {
    pub secs: u64,
    pub nanos: u32,
}

impl TimeSpan {
    pub fn from_secs(secs: u64) -> (t: TimeSpan)
        ensures
            t == (TimeSpan { secs, nanos: 0 }),
    {
        TimeSpan { secs, nanos: 0 }
    }
}

/// Whether `k` is the index of the first address that is not a URI.
pub open spec fn is_first_invalid(endpoints: Seq<Endpoint>, k: int) -> bool {
    &&& 0 <= k < endpoints.len()
    &&& uri_parse_error(endpoints[k].spec_url()) is Some
    &&& forall|j: int| 0 <= j < k ==> uri_parse_error(#[trigger] endpoints[j].spec_url()) is None
}

/// Whether every address is a well-formed URI.
pub open spec fn all_well_formed(endpoints: Seq<Endpoint>) -> bool {
    forall|j: int|
        0 <= j < endpoints.len() ==> uri_parse_error(#[trigger] endpoints[j].spec_url()) is None
}

/// Checks the addresses in order, for a pool without transport security.
/// The pool can be built exactly when all of them are well-formed URIs;
/// otherwise the first malformed one is reported.
pub fn check_endpoints(endpoints: &Vec<Endpoint>) -> (r: Result<(), Error>)
    ensures
        r is Ok <==> all_well_formed(endpoints@),
        r matches Err(e) ==> exists|k: int|
            is_first_invalid(endpoints@, k) && (e matches Error::InvalidURI(msg)
                && uri_parse_error(#[trigger] endpoints@[k].spec_url()) == Some(msg@)),
{
    let no_faults: Vec<Option<String>> = Vec::new();
    let r = check_pool(endpoints, &no_faults);
    proof {
        assert forall|j: int| 0 <= j < endpoints@.len() implies (endpoint_fails(
            endpoints@,
            no_faults@,
            j,
        ) <==> uri_parse_error(#[trigger] endpoints@[j].spec_url()) is Some) by {}
        if r is Err {
            let k = choose|k: int| #[trigger] is_first_failing(endpoints@, no_faults@, k);
            assert forall|j: int| 0 <= j < k implies uri_parse_error(
                #[trigger] endpoints@[j].spec_url(),
            ) is None by {
                assert(!endpoint_fails(endpoints@, no_faults@, j));
            }
            assert(is_first_invalid(endpoints@, k));
        } else {
            assert forall|j: int| 0 <= j < endpoints@.len() implies uri_parse_error(
                #[trigger] endpoints@[j].spec_url(),
            ) is None by {
                assert(!endpoint_fails(endpoints@, no_faults@, j));
            }
        }
    }
    r
}

/// What went wrong when transport security was applied to endpoint `k`, if
/// anything did. An endpoint without an entry has no fault.
pub open spec fn tls_fault_at(tls_faults: Seq<Option<String>>, k: int) -> Option<Seq<char>> {
    if 0 <= k < tls_faults.len() {
        match tls_faults[k] {
            Some(text) => Some(text@),
            None => None,
        }
    } else {
        None
    }
}

/// Whether endpoint `k` keeps the pool from being built: its address is
/// malformed, or its transport-security material is.
pub open spec fn endpoint_fails(
    endpoints: Seq<Endpoint>,
    tls_faults: Seq<Option<String>>,
    k: int,
) -> bool {
    uri_parse_error(endpoints[k].spec_url()) is Some || tls_fault_at(tls_faults, k) is Some
}

/// Whether `k` is the first endpoint that keeps the pool from being built.
pub open spec fn is_first_failing(
    endpoints: Seq<Endpoint>,
    tls_faults: Seq<Option<String>>,
    k: int,
) -> bool {
    &&& 0 <= k < endpoints.len()
    &&& endpoint_fails(endpoints, tls_faults, k)
    &&& forall|j: int| 0 <= j < k ==> !#[trigger] endpoint_fails(endpoints, tls_faults, j)
}

/// Decides whether the pool can be built, given for each endpoint what
/// applying its transport-security material reported. The endpoints are
/// judged in order and the first one that fails decides the error: a
/// malformed address before malformed material of the same endpoint, and
/// either before anything about a later endpoint.
pub fn check_pool(endpoints: &Vec<Endpoint>, tls_faults: &Vec<Option<String>>) -> (r: Result<
    (),
    Error,
>)
    ensures
        r is Ok <==> forall|j: int|
            0 <= j < endpoints@.len() ==> !#[trigger] endpoint_fails(endpoints@, tls_faults@, j),
        r matches Err(e) ==> exists|k: int| #[trigger]
            is_first_failing(endpoints@, tls_faults@, k) && (match uri_parse_error(
                endpoints@[k].spec_url(),
            ) {
                Some(text) => e matches Error::InvalidURI(msg) && msg@ == text,
                None => e matches Error::Transport(msg) && Some(msg@) == tls_fault_at(
                    tls_faults@,
                    k,
                ),
            }),
{
    let mut i: usize = 0;
    while i < endpoints.len()
        invariant
            i <= endpoints.len(),
            forall|j: int| 0 <= j < i ==> !#[trigger] endpoint_fails(endpoints@, tls_faults@, j),
        decreases endpoints.len() - i,
    {
        match endpoints[i].check() {
            Ok(_) => {},
            Err(e) => {
                assert(is_first_failing(endpoints@, tls_faults@, i as int));
                return Err(e);
            },
        }
        if i < tls_faults.len() {
            match &tls_faults[i] {
                Some(text) => {
                    let msg = text.clone();
                    assert(is_first_failing(endpoints@, tls_faults@, i as int));
                    return Err(Error::Transport(msg));
                },
                None => {},
            }
        }
        i = i + 1;
    }
    Ok(())
}

/// Everything a client is built from.
#[derive(Clone, Debug)]
pub struct ClientConfig {
    pub endpoints: Vec<Endpoint>,
    pub auth: Option<(String, String)>,
    pub connect_timeout: TimeSpan,
    pub http2_keep_alive_interval: TimeSpan,
}

impl ClientConfig {
    /// A configuration without credentials, with a connect timeout of thirty
    /// seconds and a keep-alive interval of five.
    pub fn new(endpoints: Vec<Endpoint>) -> (cfg: ClientConfig)
        ensures
            cfg.endpoints == endpoints,
            cfg.auth is None,
            cfg.connect_timeout == (TimeSpan { secs: 30, nanos: 0 }),
            cfg.http2_keep_alive_interval == (TimeSpan { secs: 5, nanos: 0 }),
    {
        ClientConfig {
            endpoints,
            auth: None,
            connect_timeout: TimeSpan::from_secs(30),
            http2_keep_alive_interval: TimeSpan::from_secs(5),
        }
    }

    /// The configuration with credentials.
    pub fn auth(self, name: &str, password: &str) -> (cfg: ClientConfig)
        ensures
            cfg.endpoints == self.endpoints,
            cfg.auth matches Some(pair) && pair.0@ == name@ && pair.1@ == password@,
            cfg.connect_timeout == self.connect_timeout,
            cfg.http2_keep_alive_interval == self.http2_keep_alive_interval,
    {
        ClientConfig {
            endpoints: self.endpoints,
            auth: Some((name.to_owned(), password.to_owned())),
            connect_timeout: self.connect_timeout,
            http2_keep_alive_interval: self.http2_keep_alive_interval,
        }
    }

    /// The configuration with another connect timeout.
    pub fn connect_timeout(self, timeout: TimeSpan) -> (cfg: ClientConfig)
        ensures
            cfg.endpoints == self.endpoints,
            cfg.auth == self.auth,
            cfg.connect_timeout == timeout,
            cfg.http2_keep_alive_interval == self.http2_keep_alive_interval,
    {
        ClientConfig {
            endpoints: self.endpoints,
            auth: self.auth,
            connect_timeout: timeout,
            http2_keep_alive_interval: self.http2_keep_alive_interval,
        }
    }

    /// The configuration with another keep-alive interval.
    pub fn http2_keep_alive_interval(self, interval: TimeSpan) -> (cfg: ClientConfig)
        ensures
            cfg.endpoints == self.endpoints,
            cfg.auth == self.auth,
            cfg.connect_timeout == self.connect_timeout,
            cfg.http2_keep_alive_interval == interval,
    {
        ClientConfig {
            endpoints: self.endpoints,
            auth: self.auth,
            connect_timeout: self.connect_timeout,
            http2_keep_alive_interval: interval,
        }
    }

    /// The session that a client built from this configuration starts with:
    /// the configured credentials and no token.
    pub fn session(&self) -> (s: Session)
        ensures
            s.wf(),
            s@.token is None,
            s@.credentials == match self.auth {
                Some(pair) => Some((pair.0@, pair.1@)),
                None => None,
            },
    {
        match &self.auth {
            Some(pair) => Session::new(
                Some(Credentials { username: pair.0.clone(), password: pair.1.clone() }),
            ),
            None => Session::new(None),
        }
    }
}

} // verus!
