//! The requests that a node makes of a block builder, and what their answers mean. This module
//! says what is asked, at which address, and for how long to wait; sending the request is left
//! to the caller.

use crate::primitives::{ExecutionBlockHash, PublicKeyBytes};
use crate::text::{
    decimal, decimal_text, hex_string, hex_text, lemma_decimal_len, lemma_hex_digits_len, pow10,
};
use reqwest::{Client, Url};
use sensitive_url::SensitiveUrl;
use std::time::Duration;
use vstd::prelude::*;

verus! {

/// How long, in milliseconds, the builder is given to answer any request but one for a header.
pub const DEFAULT_TIMEOUT_MILLIS: u64 = 15000;

/// The builder is expected to answer a request for a header within a second.
pub const DEFAULT_GET_HEADER_TIMEOUT_MILLIS: u64 = 1000;

/// Default user agent for HTTP requests.
pub const DEFAULT_USER_AGENT: &'static str = "Lighthouse";

/// The header that names the fork of a submitted block.
pub const CONSENSUS_VERSION_HEADER: &'static str = "Eth-Consensus-Version";

/// The HTTP status of an answer without content.
pub const NO_CONTENT: u16 = 204;

/// The greatest length, in bytes, that the text of a URL can have: URLs keep the places of
/// their parts as 32-bit numbers.
pub const MAX_URL_LEN: usize = 4294967295;

/// No request of a client has more segments in its path than this.
pub const MAX_PATH_SEGMENTS: usize = 8;

/// No segment in the path of a request has more characters than this.
pub const MAX_SEGMENT_LEN: usize = 128;

/// The room, in bytes, that the path of a request takes in a URL at most: for each of its
/// segments a slash, and twelve bytes for each character (four bytes, each written as a
/// percent sign and two digits).
pub const PATH_ROOM: usize = 12296;

/// `url::Url`, as `reqwest` offers it. Nothing of its inside is known here.
#[verifier::external_type_specification]
#[verifier::external_body]
pub struct ExUrl(Url);

/// `sensitive_url::SensitiveUrl`. Nothing of its inside is known here.
#[verifier::external_type_specification]
#[verifier::external_body]
pub struct ExSensitiveUrl(SensitiveUrl);

/// `reqwest::Client`. Nothing of its inside is known here.
#[verifier::external_type_specification]
#[verifier::external_body]
pub struct ExClient(Client);

/// The duration of `millis` milliseconds.
pub uninterp spec fn millis_duration(millis: u64) -> Duration;

/// `std::time::Duration::from_millis`: the duration of that many milliseconds.
pub assume_specification[ Duration::from_millis ](millis: u64) -> (duration: Duration)
    ensures
        duration == millis_duration(millis),
;

/// How long to wait for the builder's answer, by the kind of request.
#[derive(Copy, Clone)]
pub struct Timeouts {
    get_header: Duration,
    post_validators: Duration,
    post_blinded_blocks: Duration,
    get_builder_status: Duration,
}

impl Timeouts {
    /// How long to wait for a header.
    pub closed spec fn spec_get_header(&self) -> Duration {
        self.get_header
    }

    /// How long to wait when validators are registered.
    pub closed spec fn spec_post_validators(&self) -> Duration {
        self.post_validators
    }

    /// How long to wait when a blinded block is handed in.
    pub closed spec fn spec_post_blinded_blocks(&self) -> Duration {
        self.post_blinded_blocks
    }

    /// How long to wait for the builder's status.
    pub closed spec fn spec_get_builder_status(&self) -> Duration {
        self.get_builder_status
    }

    /// The timeouts of a client: the given one, or else a second, for the request for a header,
    /// and fifteen seconds for every other request.
    pub fn new(get_header_timeout: Option<Duration>) -> (timeouts: Timeouts)
        ensures
            timeouts.spec_get_header() == match get_header_timeout {
                Some(timeout) => timeout,
                None => millis_duration(DEFAULT_GET_HEADER_TIMEOUT_MILLIS),
            },
            timeouts.spec_post_validators() == millis_duration(DEFAULT_TIMEOUT_MILLIS),
            timeouts.spec_post_blinded_blocks() == millis_duration(DEFAULT_TIMEOUT_MILLIS),
            timeouts.spec_get_builder_status() == millis_duration(DEFAULT_TIMEOUT_MILLIS),
    {
        let get_header = match get_header_timeout {
            Some(timeout) => timeout,
            None => Duration::from_millis(DEFAULT_GET_HEADER_TIMEOUT_MILLIS),
        };

        Timeouts {
            get_header,
            post_validators: Duration::from_millis(DEFAULT_TIMEOUT_MILLIS),
            post_blinded_blocks: Duration::from_millis(DEFAULT_TIMEOUT_MILLIS),
            get_builder_status: Duration::from_millis(DEFAULT_TIMEOUT_MILLIS),
        }
    }

    /// How long to wait for a header.
    pub fn get_header(&self) -> (timeout: Duration)
        ensures
            timeout == self.spec_get_header(),
    {
        self.get_header
    }

    /// How long to wait when validators are registered.
    pub fn post_validators(&self) -> (timeout: Duration)
        ensures
            timeout == self.spec_post_validators(),
    {
        self.post_validators
    }

    /// How long to wait when a blinded block is handed in.
    pub fn post_blinded_blocks(&self) -> (timeout: Duration)
        ensures
            timeout == self.spec_post_blinded_blocks(),
    {
        self.post_blinded_blocks
    }

    /// How long to wait for the builder's status.
    pub fn get_builder_status(&self) -> (timeout: Duration)
        ensures
            timeout == self.spec_get_builder_status(),
    {
        self.get_builder_status
    }
}

/// The forks of the consensus protocol.
#[derive(Copy, Clone, Debug, PartialEq, Eq, Structural)]
pub enum ForkName {
    Base,
    Altair,
    Bellatrix,
    Capella,
    Deneb,
    Electra,
}

impl ForkName {
    /// The fork's name as it is written in a header.
    pub open spec fn spec_name(self) -> Seq<char> {
        match self {
            ForkName::Base => "phase0"@,
            ForkName::Altair => "altair"@,
            ForkName::Bellatrix => "bellatrix"@,
            ForkName::Capella => "capella"@,
            ForkName::Deneb => "deneb"@,
            ForkName::Electra => "electra"@,
        }
    }

    /// The fork's name as it is written in a header.
    pub fn name(self) -> (name: &'static str)
        ensures
            name@ == self.spec_name(),
    {
        match self {
            ForkName::Base => "phase0",
            ForkName::Altair => "altair",
            ForkName::Bellatrix => "bellatrix",
            ForkName::Capella => "capella",
            ForkName::Deneb => "deneb",
            ForkName::Electra => "electra",
        }
    }
}

/// Why a request to the builder gave no result.
#[derive(Debug, PartialEq)]
pub enum Error {
    /// The builder answered with a status that is no success.
    StatusCode(u16),
    /// The builder's address cannot take the path of the request: it cannot carry a path at
    /// all, or it is so long that there is no room left for one.
    InvalidUrl(SensitiveUrl),
    /// The client could not be made, the request could not be sent, or the answer could not be
    /// read.
    HttpClient(String),
}

/// How a request is made.
#[derive(Copy, Clone, Debug, PartialEq, Eq, Structural)]
pub enum Method {
    Get,
    Post,
}

/// One request to the builder, ready to be sent.
#[derive(Debug)]
pub struct Request {
    pub method: Method,
    pub url: Url,
    /// The fork to name in the consensus version header, where the request carries one.
    pub consensus_version: Option<ForkName>,
    /// How long to wait for the answer.
    pub timeout: Duration,
}

/// The text of a URL, as bytes.
pub uninterp spec fn url_bytes(url: Url) -> Seq<u8>;

/// The text of the full URL that a sensitive URL stands for, as bytes.
pub uninterp spec fn server_bytes(server: SensitiveUrl) -> Seq<u8>;

/// Whether the URL with the text `url` cannot carry a path, as a `mailto:` URL cannot.
pub uninterp spec fn cannot_be_a_base(url: Seq<u8>) -> bool;

/// The text of the URL with the text `url` after `segments` were added at the end of its path,
/// in order.
pub uninterp spec fn extended(url: Seq<u8>, segments: Seq<Seq<char>>) -> Seq<u8>;

/// The texts of the given strings.
pub open spec fn texts(strings: Seq<String>) -> Seq<Seq<char>> {
    Seq::new(strings.len(), |i: int| strings[i]@)
}

/// Whether there are few enough of `segments`, and each is short enough, to be added to an
/// address at once.
pub open spec fn short_path(segments: Seq<Seq<char>>) -> bool {
    &&& segments.len() <= MAX_PATH_SEGMENTS
    &&& forall|i: int| 0 <= i < segments.len() ==> (#[trigger] segments[i]).len() <= MAX_SEGMENT_LEN
}

/// Whether `segments` can be added to a URL of `url_len` bytes without the URL growing beyond
/// what a URL can hold.
pub open spec fn addable(url_len: nat, segments: Seq<Seq<char>>) -> bool {
    url_len + PATH_ROOM <= MAX_URL_LEN && short_path(segments)
}

/// The user agent that an HTTP client names in its requests.
pub uninterp spec fn client_agent(client: Client) -> Seq<char>;

/// `Clone::clone` of `sensitive_url::SensitiveUrl`: a copy that stands for the same URL.
pub assume_specification[ <SensitiveUrl as Clone>::clone ](server: &SensitiveUrl) -> (copy:
    SensitiveUrl)
    ensures
        copy == *server,
;

/// `sensitive_url::SensitiveUrl::expose_full`, cloned: the full URL that `server` stands for.
/// It can carry a path: a sensitive URL is made of no other.
#[verifier::external_body]
fn full_url(server: &SensitiveUrl) -> (url: Url)
    ensures
        url_bytes(url) == server_bytes(*server),
        !cannot_be_a_base(url_bytes(url)),
{
    server.expose_full().clone()
}

/// `url::Url::as_str`, measured: the length of the URL's text in bytes.
#[verifier::external_body]
fn url_len(url: &Url) -> (len: usize)
    ensures
        len == url_bytes(*url).len(),
{
    url.as_str().len()
}

/// `url::Url::path_segments_mut` and `url::PathSegmentsMut::extend`: adds `segments` at the
/// end of the URL's path, in order, and says that it did; where the URL cannot carry a path,
/// the URL stays as it is, which the original reports as an error and this as `false`. The
/// URL is to leave room for the segments within the length that a URL can have.
#[verifier::external_body]
fn extend_path(url: &mut Url, segments: &Vec<String>) -> (done: bool)
    requires
        addable(url_bytes(*old(url)).len(), texts(segments@)),
    ensures
        done == !cannot_be_a_base(url_bytes(*old(url))),
        done ==> url_bytes(*final(url)) == extended(url_bytes(*old(url)), texts(segments@)),
        !done ==> url_bytes(*final(url)) == url_bytes(*old(url)),
{
    match url.path_segments_mut() {
        Ok(mut path) => {
            path.extend(segments.iter());
            true
        },
        Err(()) => false,
    }
}

/// `reqwest::ClientBuilder::user_agent` and `reqwest::ClientBuilder::build`: a client that
/// names `user_agent` in its requests, or the reason why none could be made. Whether one can
/// be made is for the HTTP library to say.
#[verifier::external_body]
fn build_client(user_agent: &str) -> (built: Result<Client, String>)
    ensures
        built is Ok ==> client_agent(built.unwrap()) == user_agent@,
{
    Client::builder().user_agent(user_agent).build().map_err(|error| error.to_string())
}

/// The path of a request to the builder: `eth/v1/builder` and the name of what is asked.
pub open spec fn builder_path(name: Seq<char>) -> Seq<Seq<char>> {
    seq!["eth"@, "v1"@, "builder"@, name]
}

/// The path of a request for a header: the slot in decimal digits, then the parent hash and the
/// public key in hexadecimal digits.
pub open spec fn header_path(slot: u64, parent_hash: ExecutionBlockHash, pubkey: PublicKeyBytes) -> Seq<
    Seq<char>,
> {
    builder_path("header"@) + seq![
        decimal(slot as nat),
        hex_text(parent_hash.0@),
        hex_text(pubkey.0@),
    ]
}

/// Whether the address `server` can take the path of a request: it can carry a path, and it
/// leaves room for one within the length that a URL can have.
pub open spec fn takes_path(server: SensitiveUrl) -> bool {
    &&& !cannot_be_a_base(server_bytes(server))
    &&& server_bytes(server).len() + PATH_ROOM <= MAX_URL_LEN
}

/// What holds of the outcome of making a request to the builder at `server`. Where the
/// server's address can take the path, the request is made: it goes to that address with `path`
/// added, and is as asked for. Where it cannot, the address is handed back as invalid.
pub open spec fn request_made(
    made: Result<Request, Error>,
    server: SensitiveUrl,
    method: Method,
    path: Seq<Seq<char>>,
    consensus_version: Option<ForkName>,
    timeout: Duration,
) -> bool {
    match made {
        Ok(request) => {
            &&& takes_path(server)
            &&& request.method == method
            &&& url_bytes(request.url) == extended(server_bytes(server), path)
            &&& request.consensus_version == consensus_version
            &&& request.timeout == timeout
        },
        Err(error) => {
            &&& !takes_path(server)
            &&& error == Error::InvalidUrl(server)
        },
    }
}

/// The user agent of a client for which `user_agent` was asked: that one, or the default.
pub open spec fn agent_or_default(user_agent: Option<String>) -> Seq<char> {
    match user_agent {
        Some(agent) => agent@,
        None => DEFAULT_USER_AGENT@,
    }
}

/// The segments `eth`, `v1`, `builder` and `name`.
fn path_to(name: &str) -> (path: Vec<String>)
    requires
        name@.len() <= MAX_SEGMENT_LEN,
    ensures
        texts(path@) == builder_path(name@),
        short_path(texts(path@)),
{
    proof {
        reveal_strlit("eth");
        reveal_strlit("v1");
        reveal_strlit("builder");
    }
    let mut path: Vec<String> = Vec::new();
    path.push("eth".to_owned());
    path.push("v1".to_owned());
    path.push("builder".to_owned());
    path.push(name.to_owned());
    assert(texts(path@) =~= builder_path(name@));
    path
}

/// A client of one block builder.
pub struct BuilderHttpClient {
    client: Client,
    server: SensitiveUrl,
    timeouts: Timeouts,
    user_agent: String,
}

impl BuilderHttpClient {
    /// The HTTP client that sends the requests.
    pub closed spec fn http_client(&self) -> Client {
        self.client
    }

    /// The builder's address.
    pub closed spec fn server(&self) -> SensitiveUrl {
        self.server
    }

    /// The timeouts that the client keeps.
    pub closed spec fn timeouts(&self) -> Timeouts {
        self.timeouts
    }

    /// The user agent under which the client makes its requests.
    pub closed spec fn user_agent(&self) -> Seq<char> {
        self.user_agent@
    }

    /// Whether this is the client of the builder at `server` that names `user_agent` and waits
    /// for a header as long as `builder_header_timeout` says, or else a second, and fifteen
    /// seconds for everything else.
    pub open spec fn is_client_of(
        &self,
        server: SensitiveUrl,
        user_agent: Seq<char>,
        builder_header_timeout: Option<Duration>,
    ) -> bool {
        &&& self.server() == server
        &&& self.user_agent() == user_agent
        &&& self.timeouts().spec_get_header() == match builder_header_timeout {
            Some(timeout) => timeout,
            None => millis_duration(DEFAULT_GET_HEADER_TIMEOUT_MILLIS),
        }
        &&& self.timeouts().spec_post_validators() == millis_duration(DEFAULT_TIMEOUT_MILLIS)
        &&& self.timeouts().spec_post_blinded_blocks() == millis_duration(DEFAULT_TIMEOUT_MILLIS)
        &&& self.timeouts().spec_get_builder_status() == millis_duration(DEFAULT_TIMEOUT_MILLIS)
    }

    /// Makes the client of the builder at `server` out of what making an HTTP client for
    /// `user_agent` gave. It fails where no HTTP client could be made, with the reason.
    pub fn with_client(
        server: SensitiveUrl,
        user_agent: String,
        builder_header_timeout: Option<Duration>,
        built: Result<Client, String>,
    ) -> (made: Result<BuilderHttpClient, Error>)
        ensures
            match built {
                Err(reason) => made == Err::<BuilderHttpClient, Error>(Error::HttpClient(reason)),
                Ok(client) => {
                    &&& made is Ok
                    &&& made.unwrap().http_client() == client
                    &&& made.unwrap().is_client_of(server, user_agent@, builder_header_timeout)
                },
            },
    {
        let client = match built {
            Ok(client) => client,
            Err(reason) => {
                return Err(Error::HttpClient(reason));
            },
        };
        Ok(
            BuilderHttpClient {
                client,
                server,
                timeouts: Timeouts::new(builder_header_timeout),
                user_agent,
            },
        )
    }

    /// A client of the builder at `server` that makes its requests under `user_agent`, or under
    /// the default one where none is given, and waits for a header as long as
    /// `builder_header_timeout` says, or for the default time.
    ///
    /// The HTTP client is asked for with that user agent. Whether it can be made is for the
    /// HTTP library to say; what follows from its answer is said by
    /// [`BuilderHttpClient::with_client`].
    pub fn new(
        server: SensitiveUrl,
        user_agent: Option<String>,
        builder_header_timeout: Option<Duration>,
    ) -> (made: Result<BuilderHttpClient, Error>)
        ensures
            match made {
                Ok(client) => {
                    &&& client.is_client_of(
                        server,
                        agent_or_default(user_agent),
                        builder_header_timeout,
                    )
                    &&& client_agent(client.http_client()) == agent_or_default(user_agent)
                },
                Err(error) => error is HttpClient,
            },
    {
        let user_agent = match user_agent {
            Some(agent) => agent,
            None => DEFAULT_USER_AGENT.to_owned(),
        };
        let built = build_client(user_agent.as_str());
        BuilderHttpClient::with_client(server, user_agent, builder_header_timeout, built)
    }

    /// The user agent under which the client makes its requests.
    pub fn get_user_agent(&self) -> (agent: &str)
        ensures
            agent@ == self.user_agent(),
    {
        self.user_agent.as_str()
    }

    /// The HTTP client that sends the requests.
    pub fn client(&self) -> (client: &Client)
        ensures
            *client == self.http_client(),
    {
        &self.client
    }

    /// Makes the request for `path` at the builder's address.
    fn request(
        &self,
        method: Method,
        path: Vec<String>,
        consensus_version: Option<ForkName>,
        timeout: Duration,
    ) -> (made: Result<Request, Error>)
        requires
            short_path(texts(path@)),
        ensures
            request_made(made, self.server(), method, texts(path@), consensus_version, timeout),
    {
        let mut url = full_url(&self.server);
        if url_len(&url) > MAX_URL_LEN - PATH_ROOM {
            return Err(Error::InvalidUrl(self.server.clone()));
        }
        if extend_path(&mut url, &path) {
            Ok(Request { method, url, consensus_version, timeout })
        } else {
            Err(Error::InvalidUrl(self.server.clone()))
        }
    }

    /// `POST /eth/v1/builder/validators`
    pub fn post_builder_validators(&self) -> (made: Result<Request, Error>)
        ensures
            request_made(
                made,
                self.server(),
                Method::Post,
                builder_path("validators"@),
                None,
                self.timeouts().spec_post_validators(),
            ),
    {
        proof {
            reveal_strlit("validators");
        }
        self.request(Method::Post, path_to("validators"), None, self.timeouts.post_validators())
    }

    /// `POST /eth/v1/builder/blinded_blocks`, for a block of the fork `fork`, which the request
    /// names in its consensus version header.
    pub fn post_builder_blinded_blocks(&self, fork: ForkName) -> (made: Result<Request, Error>)
        ensures
            request_made(
                made,
                self.server(),
                Method::Post,
                builder_path("blinded_blocks"@),
                Some(fork),
                self.timeouts().spec_post_blinded_blocks(),
            ),
    {
        proof {
            reveal_strlit("blinded_blocks");
        }
        self.request(
            Method::Post,
            path_to("blinded_blocks"),
            Some(fork),
            self.timeouts.post_blinded_blocks(),
        )
    }

    /// `GET /eth/v1/builder/header`
    pub fn get_builder_header(
        &self,
        slot: u64,
        parent_hash: ExecutionBlockHash,
        pubkey: &PublicKeyBytes,
    ) -> (made: Result<Request, Error>)
        ensures
            request_made(
                made,
                self.server(),
                Method::Get,
                header_path(slot, parent_hash, *pubkey),
                None,
                self.timeouts().spec_get_header(),
            ),
    {
        proof {
            reveal_strlit("header");
            reveal_with_fuel(pow10, 21);
            lemma_decimal_len(slot as nat, 20);
            lemma_hex_digits_len(parent_hash.0@);
            lemma_hex_digits_len(pubkey.0@);
        }
        let mut path = path_to("header");
        let ghost fixed = path@;
        path.push(decimal_text(slot));
        path.push(hex_string(parent_hash.0.as_slice()));
        path.push(hex_string(pubkey.0.as_slice()));
        proof {
            assert(texts(path@) =~= header_path(slot, parent_hash, *pubkey)) by {
                assert(texts(fixed) == builder_path("header"@));
                assert forall|i: int| 0 <= i < 4 implies texts(path@)[i] == builder_path(
                    "header"@,
                )[i] by {
                    assert(texts(fixed)[i] == fixed[i]@);
                }
            }
            assert(short_path(texts(path@))) by {
                assert forall|i: int| 0 <= i < 4 implies (#[trigger] texts(path@)[i]).len()
                    <= MAX_SEGMENT_LEN by {
                    assert(texts(fixed)[i] == fixed[i]@);
                }
            }
        }
        self.request(Method::Get, path, None, self.timeouts.get_header())
    }

    /// `GET /eth/v1/builder/status`
    pub fn get_builder_status(&self) -> (made: Result<Request, Error>)
        ensures
            request_made(
                made,
                self.server(),
                Method::Get,
                builder_path("status"@),
                None,
                self.timeouts().spec_get_builder_status(),
            ),
    {
        proof {
            reveal_strlit("status");
        }
        self.request(Method::Get, path_to("status"), None, self.timeouts.get_builder_status())
    }
}

/// Reads the answer to a request for a header: a builder that answers without content has no
/// bid to offer, which is no error. Every other answer stands as it is.
pub fn bid_or_none<T>(response: Result<T, Error>) -> (bid: Result<Option<T>, Error>)
    ensures
        bid == match response {
            Ok(signed_bid) => Ok::<Option<T>, Error>(Some(signed_bid)),
            Err(Error::StatusCode(code)) => if code == NO_CONTENT {
                Ok::<Option<T>, Error>(None)
            } else {
                Err::<Option<T>, Error>(Error::StatusCode(code))
            },
            Err(error) => Err::<Option<T>, Error>(error),
        },
{
    match response {
        Ok(signed_bid) => Ok(Some(signed_bid)),
        Err(Error::StatusCode(code)) => if code == NO_CONTENT {
            Ok(None)
        } else {
            Err(Error::StatusCode(code))
        },
        Err(error) => Err(error),
    }
}

} // verus!
