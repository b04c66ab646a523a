//! The client: it holds the API key, builds the request URLs and turns a
//! decoded response into a record or an error.

use crate::ip::IpAddress;
use crate::ua::UserAgent;
use vstd::prelude::*;

verus! {

/// The scheme and host of every request.
pub open spec fn api_base() -> Seq<char> {
    "https://api.ipgeolocation.io"@
}

/// The GET URL that looks up `ip` with `key`.
pub open spec fn ipgeo_url_spec(key: Seq<char>, ip: Seq<char>) -> Seq<char> {
    api_base() + "/ipgeo?apiKey="@ + key + "&ip="@ + ip
}

/// The POST URL that parses a user agent with `key`.
pub open spec fn uaparse_url_spec(key: Seq<char>) -> Seq<char> {
    api_base() + "/user-agent?apiKey="@ + key
}

/// The client. Its only state is the API key, which never changes.
pub struct IpGeoClient {
    api_key: String,
}

impl Clone for IpGeoClient {
    fn clone(&self) -> (r: Self)
        ensures
            r.key() == self.key(),
    {
        IpGeoClient { api_key: self.api_key.clone() }
    }
}

impl IpGeoClient {
    /// The API key that this client sends with each request.
    pub closed spec fn key(&self) -> Seq<char> {
        self.api_key@
    }

    /// A client that sends `api_key` with every request.
    pub fn new(api_key: &str) -> (r: Self)
        ensures
            r.key() == api_key@,
    {
        IpGeoClient { api_key: String::from_str(api_key) }
    }

    /// The URL to GET for the lookup of `ip_address`.
    pub fn ipgeo_url(&self, ip_address: &str) -> (r: String)
        ensures
            r@ == ipgeo_url_spec(self.key(), ip_address@),
    {
        let mut url = String::from_str("https://api.ipgeolocation.io");
        url.append("/ipgeo?apiKey=");
        url.append(self.api_key.as_str());
        url.append("&ip=");
        url.append(ip_address);
        url
    }

    /// The URL to POST a user agent to.
    pub fn uaparse_url(&self) -> (r: String)
        ensures
            r@ == uaparse_url_spec(self.key()),
    {
        let mut url = String::from_str("https://api.ipgeolocation.io");
        url.append("/user-agent?apiKey=");
        url.append(self.api_key.as_str());
        url
    }
}

/// Declares `reqwest::Error`, the error of the HTTP transport: a failed
/// connection, a time-out, or a body that decodes as neither answer of the
/// service. It is carried through unopened; nothing is assumed of it.
#[verifier::external_type_specification]
#[verifier::external_body]
pub struct ExReqwestError(reqwest::Error);

/// The error message that the service sends when it refuses a request, e.g.
/// for an API key that is not valid, or for user agent parsing on a free
/// subscription. Its text is passed on as it is.
#[derive(Debug, Clone, PartialEq, Eq)]
pub struct ErrorMessage {
    /// The text of the message.
    pub message: String,
}

impl ErrorMessage {
    /// The text of the message.
    pub fn description(&self) -> (r: &str)
        ensures
            r@ == self.message@,
    {
        self.message.as_str()
    }
}

/// An answer of the IP geolocation service: the record, or an error message.
pub enum ResultIP {
    Succ(IpAddress),
    ErrMsg(ErrorMessage),
}

/// An answer of the user agent service: the record, or an error message.
pub enum ResultUA {
    Succ(UserAgent),
    ErrMsg(ErrorMessage),
}

/// Why a request failed: the transport failed, or the service refused it.
#[derive(Debug)]
pub enum IpGeoError {
    HTTP(reqwest::Error),
    Auth(ErrorMessage),
}

impl From<reqwest::Error> for IpGeoError {
    fn from(e: reqwest::Error) -> (r: Self) {
        IpGeoError::HTTP(e)
    }
}

impl vstd::std_specs::convert::FromSpecImpl<reqwest::Error> for IpGeoError {
    open spec fn obeys_from_spec() -> bool {
        true
    }

    open spec fn from_spec(e: reqwest::Error) -> IpGeoError {
        IpGeoError::HTTP(e)
    }
}

impl From<ErrorMessage> for IpGeoError {
    fn from(e: ErrorMessage) -> (r: Self) {
        IpGeoError::Auth(e)
    }
}

impl vstd::std_specs::convert::FromSpecImpl<ErrorMessage> for IpGeoError {
    open spec fn obeys_from_spec() -> bool {
        true
    }

    open spec fn from_spec(e: ErrorMessage) -> IpGeoError {
        IpGeoError::Auth(e)
    }
}

/// What a lookup of an IP address returns, given what the transport made of
/// the response: the record of a success answer, the service's message as an
/// `Auth` error, or the transport's error as an `HTTP` error.
pub open spec fn ip_outcome_spec(resp: Result<ResultIP, reqwest::Error>) -> Result<IpAddress, IpGeoError> {
    match resp {
        Ok(ResultIP::Succ(a)) => Ok(a),
        Ok(ResultIP::ErrMsg(m)) => Err(IpGeoError::Auth(m)),
        Err(e) => Err(IpGeoError::HTTP(e)),
    }
}

/// What a user agent parse returns, given what the transport made of the
/// response, as for an IP lookup.
pub open spec fn ua_outcome_spec(resp: Result<ResultUA, reqwest::Error>) -> Result<UserAgent, IpGeoError> {
    match resp {
        Ok(ResultUA::Succ(u)) => Ok(u),
        Ok(ResultUA::ErrMsg(m)) => Err(IpGeoError::Auth(m)),
        Err(e) => Err(IpGeoError::HTTP(e)),
    }
}

/// The result of an IP lookup whose response the transport delivered as `resp`.
pub fn ip_outcome(resp: Result<ResultIP, reqwest::Error>) -> (r: Result<IpAddress, IpGeoError>)
    ensures
        r == ip_outcome_spec(resp),
{
    match resp {
        Ok(ResultIP::Succ(a)) => Ok(a),
        Ok(ResultIP::ErrMsg(m)) => Err(IpGeoError::from(m)),
        Err(e) => Err(IpGeoError::from(e)),
    }
}

/// The result of a user agent parse whose response the transport delivered
/// as `resp`.
pub fn ua_outcome(resp: Result<ResultUA, reqwest::Error>) -> (r: Result<UserAgent, IpGeoError>)
    ensures
        r == ua_outcome_spec(resp),
{
    match resp {
        Ok(ResultUA::Succ(u)) => Ok(u),
        Ok(ResultUA::ErrMsg(m)) => Err(IpGeoError::from(m)),
        Err(e) => Err(IpGeoError::from(e)),
    }
}

/// A success answer comes back as the record itself, every field as the
/// answer gave it, from either service.
pub proof fn success_answer_is_returned(a: IpAddress, u: UserAgent)
    ensures
        ip_outcome_spec(Ok(ResultIP::Succ(a))) == Ok::<IpAddress, IpGeoError>(a),
        ua_outcome_spec(Ok(ResultUA::Succ(u))) == Ok::<UserAgent, IpGeoError>(u),
{
}

/// An error answer comes back, from either service, as an `Auth` error that
/// carries the message unchanged, never as a record.
pub proof fn error_answer_is_auth_error(m: ErrorMessage)
    ensures
        ip_outcome_spec(Ok(ResultIP::ErrMsg(m))) == Err::<IpAddress, IpGeoError>(IpGeoError::Auth(m)),
        ua_outcome_spec(Ok(ResultUA::ErrMsg(m))) == Err::<UserAgent, IpGeoError>(IpGeoError::Auth(m)),
{
}

/// A failure of the transport comes back, from either service, as an `HTTP`
/// error that carries the transport's error.
pub proof fn transport_failure_is_http_error(e: reqwest::Error)
    ensures
        ip_outcome_spec(Err(e)) == Err::<IpAddress, IpGeoError>(IpGeoError::HTTP(e)),
        ua_outcome_spec(Err(e)) == Err::<UserAgent, IpGeoError>(IpGeoError::HTTP(e)),
{
}

} // verus!
