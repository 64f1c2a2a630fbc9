//! What it takes to open a session: where to connect, and with which
//! credentials. The connection itself is made by the program around the
//! library, once per call and without retries.

use vstd::prelude::*;
use vstd::string::StringExecFns;

verus! {

/// The endpoint that serves realtime sessions.
pub const OPENAI_WSS_BASE_URL: &'static str = "wss://api.openai.com/v1";

/// The header that names the protocol revision.
pub const PROTOCOL_HEADER: &'static str = "OpenAI-Beta";

/// The protocol revision that this library speaks.
pub const PROTOCOL_VERSION: &'static str = "realtime=v1";

/// What a request to connect holds.
pub struct ConnectRequestModel {
    pub url: Seq<char>,
    pub bearer: Seq<char>,
    pub header_name: Seq<char>,
    pub header_value: Seq<char>,
}

/// One request to upgrade to a duplex connection: the address, the bearer
/// credential, and the header that names the protocol revision.
#[derive(Debug, Clone, PartialEq)]
pub struct ConnectRequest {
    pub url: String,
    pub bearer: String,
    pub header_name: String,
    pub header_value: String,
}

impl View for ConnectRequest {
    type V = ConnectRequestModel;

    open spec fn view(&self) -> ConnectRequestModel {
        ConnectRequestModel {
            url: self.url@,
            bearer: self.bearer@,
            header_name: self.header_name@,
            header_value: self.header_value@,
        }
    }
}

/// What a client holds.
pub struct ClientModel {
    pub api_key: Seq<char>,
    pub base_url: Seq<char>,
}

/// The credentials and the endpoint of a caller.
#[derive(Debug, Clone, PartialEq)]
pub struct Client {
    api_key: String,
    base_url: String,
}

impl View for Client {
    type V = ClientModel;

    closed spec fn view(&self) -> ClientModel {
        ClientModel { api_key: self.api_key@, base_url: self.base_url@ }
    }
}

impl Client {
    /// A client of the standard endpoint.
    pub fn new(api_key: &str) -> (r: Self)
        ensures
            r@ == (ClientModel { api_key: api_key@, base_url: OPENAI_WSS_BASE_URL@ }),
    {
        Self::from_url(api_key, OPENAI_WSS_BASE_URL)
    }

    /// A client of the endpoint at `base_url`.
    pub fn from_url(api_key: &str, base_url: &str) -> (r: Self)
        ensures
            r@ == (ClientModel { api_key: api_key@, base_url: base_url@ }),
    {
        Self { api_key: api_key.to_owned(), base_url: base_url.to_owned() }
    }

    /// The request that opens a connection to `path` on the endpoint.
    pub fn request(&self, path: &str) -> (r: ConnectRequest)
        ensures
            r@ == (ConnectRequestModel {
                url: self@.base_url + path@,
                bearer: self@.api_key,
                header_name: PROTOCOL_HEADER@,
                header_value: PROTOCOL_VERSION@,
            }),
    {
        ConnectRequest {
            url: self.base_url.clone().concat(path),
            bearer: self.api_key.clone(),
            header_name: PROTOCOL_HEADER.to_owned(),
            header_value: PROTOCOL_VERSION.to_owned(),
        }
    }

    /// The realtime model of this name, as this client reaches it.
    pub fn realtime_client(&self, model_name: &str) -> (r: RealtimeModel)
        ensures
            r@ == (RealtimeModelModel { client: self@, model: model_name@ }),
    {
        RealtimeModel::new(self.clone_client(), model_name)
    }

    fn clone_client(&self) -> (r: Client)
        ensures
            r@ == self@,
    {
        Client { api_key: self.api_key.clone(), base_url: self.base_url.clone() }
    }
}

/// What a realtime model holds.
pub struct RealtimeModelModel {
    pub client: ClientModel,
    pub model: Seq<char>,
}

/// A model that holds realtime voice sessions, reached through a client.
#[derive(Debug, Clone, PartialEq)]
pub struct RealtimeModel {
    client: Client,
    model: String,
}

impl View for RealtimeModel {
    type V = RealtimeModelModel;

    closed spec fn view(&self) -> RealtimeModelModel {
        RealtimeModelModel { client: self.client@, model: self.model@ }
    }
}

/// The path of the sessions of a model.
pub open spec fn session_path(model: Seq<char>) -> Seq<char> {
    "/realtime?model="@ + model
}

impl RealtimeModel {
    /// The model of this name, reached through `client`.
    pub fn new(client: Client, model: &str) -> (r: Self)
        ensures
            r@ == (RealtimeModelModel { client: client@, model: model@ }),
    {
        Self { client, model: model.to_owned() }
    }

    /// The path on the endpoint under which a session of the model opens.
    pub fn path(&self) -> (r: String)
        ensures
            r@ == session_path(self@.model),
    {
        "/realtime?model=".to_owned().concat(self.model.as_str())
    }

    /// The request that opens a session of the model.
    pub fn request(&self) -> (r: ConnectRequest)
        ensures
            r@ == (ConnectRequestModel {
                url: self@.client.base_url + session_path(self@.model),
                bearer: self@.client.api_key,
                header_name: PROTOCOL_HEADER@,
                header_value: PROTOCOL_VERSION@,
            }),
    {
        let path = self.path();
        self.client.request(path.as_str())
    }
}

} // verus!
