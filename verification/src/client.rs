//! The client of the time-series store, without the wire: which request a
//! query becomes, and what the server's answer means.

use crate::text::{contains, join, occurs};
use crate::text_map::{lemma_as_map_size, TextMap};
use vstd::prelude::*;

verus! {

/// What can go wrong between a query and its answer.
#[derive(Debug, PartialEq, Eq)]
pub enum ClientError {
    /// The query could not be put into text.
    InvalidQueryError { error: String },
    /// No request could be made from the address and the parameters.
    UrlConstructionError { error: String },
    /// The request did not reach the server, or no answer came back.
    ProtocolError { error: String },
    /// The answer is not text.
    DeserializationError { error: String },
    /// The server answered with an error of its own.
    DatabaseError { error: String },
    /// The server answered 403.
    AuthenticationError,
    /// The server answered 401.
    AuthorizationError,
    /// The server could not be pinged.
    ConnectionError { error: String },
}

/// The mathematical value of a [`ClientError`].
pub enum ClientErrorView {
    InvalidQueryError { error: Seq<char> },
    UrlConstructionError { error: Seq<char> },
    ProtocolError { error: Seq<char> },
    DeserializationError { error: Seq<char> },
    DatabaseError { error: Seq<char> },
    AuthenticationError,
    AuthorizationError,
    ConnectionError { error: Seq<char> },
}

impl View for ClientError {
    type V = ClientErrorView;

    open spec fn view(&self) -> ClientErrorView {
        match self {
            ClientError::InvalidQueryError { error } => ClientErrorView::InvalidQueryError {
                error: error@,
            },
            ClientError::UrlConstructionError { error } => ClientErrorView::UrlConstructionError {
                error: error@,
            },
            ClientError::ProtocolError { error } => ClientErrorView::ProtocolError {
                error: error@,
            },
            ClientError::DeserializationError { error } => ClientErrorView::DeserializationError {
                error: error@,
            },
            ClientError::DatabaseError { error } => ClientErrorView::DatabaseError {
                error: error@,
            },
            ClientError::AuthenticationError => ClientErrorView::AuthenticationError,
            ClientError::AuthorizationError => ClientErrorView::AuthorizationError,
            ClientError::ConnectionError { error } => ClientErrorView::ConnectionError {
                error: error@,
            },
        }
    }
}

impl Clone for ClientError {
    fn clone(&self) -> (copy: Self)
        ensures
            copy == *self,
    {
        match self {
            ClientError::InvalidQueryError { error } => ClientError::InvalidQueryError {
                error: error.clone(),
            },
            ClientError::UrlConstructionError { error } => ClientError::UrlConstructionError {
                error: error.clone(),
            },
            ClientError::ProtocolError { error } => ClientError::ProtocolError {
                error: error.clone(),
            },
            ClientError::DeserializationError { error } => ClientError::DeserializationError {
                error: error.clone(),
            },
            ClientError::DatabaseError { error } => ClientError::DatabaseError {
                error: error.clone(),
            },
            ClientError::AuthenticationError => ClientError::AuthenticationError,
            ClientError::AuthorizationError => ClientError::AuthorizationError,
            ClientError::ConnectionError { error } => ClientError::ConnectionError {
                error: error.clone(),
            },
        }
    }
}

/// Whether a query reads or writes; a write names the precision of its
/// timestamps.
#[derive(Debug, PartialEq, Eq)]
pub enum QueryType {
    ReadQuery,
    WriteQuery(String),
}

/// The mathematical value of a [`QueryType`].
pub enum QueryTypeView {
    ReadQuery,
    WriteQuery(Seq<char>),
}

impl View for QueryType {
    type V = QueryTypeView;

    open spec fn view(&self) -> QueryTypeView {
        match self {
            QueryType::ReadQuery => QueryTypeView::ReadQuery,
            QueryType::WriteQuery(precision) => QueryTypeView::WriteQuery(precision@),
        }
    }
}

/// The two request methods that the store is spoken to with.
#[derive(Debug, Clone, Copy, PartialEq, Eq, Structural)]
pub enum Method {
    Get,
    Post,
}

/// A request, ready to be sent by whoever owns the connection.
pub struct Request {
    pub method: Method,
    pub url: String,
    pub parameters: TextMap<String>,
    pub body: Option<String>,
}

/// The mathematical value of a [`Request`].
pub struct RequestView {
    pub method: Method,
    pub url: Seq<char>,
    pub parameters: Map<Seq<char>, Seq<char>>,
    pub body: Option<Seq<char>>,
}

/// A parameter map with each value taken as text.
pub open spec fn parameters_view(parameters: TextMap<String>) -> Map<Seq<char>, Seq<char>> {
    parameters@.map_values(|value: String| value@)
}

impl View for Request {
    type V = RequestView;

    open spec fn view(&self) -> RequestView {
        RequestView {
            method: self.method,
            url: self.url@,
            parameters: parameters_view(self.parameters),
            body: match self.body {
                Some(body) => Some(body@),
                None => None,
            },
        }
    }
}

/// What came of sending a request.
#[derive(Debug, PartialEq, Eq)]
pub enum Exchange {
    /// The query had no text: nothing was sent.
    Unbuildable(String),
    /// The request could not be put together: nothing was sent.
    Malformed(String),
    /// The request was sent and no answer came.
    Unanswered(String),
    /// The server answered with this status, and with this body if the body
    /// is text.
    Answered { status: u16, body: Option<String> },
}

/// The mathematical value of an [`Exchange`].
pub enum ExchangeView {
    Unbuildable(Seq<char>),
    Malformed(Seq<char>),
    Unanswered(Seq<char>),
    Answered { status: u16, body: Option<Seq<char>> },
}

impl View for Exchange {
    type V = ExchangeView;

    open spec fn view(&self) -> ExchangeView {
        match self {
            Exchange::Unbuildable(detail) => ExchangeView::Unbuildable(detail@),
            Exchange::Malformed(detail) => ExchangeView::Malformed(detail@),
            Exchange::Unanswered(detail) => ExchangeView::Unanswered(detail@),
            Exchange::Answered { status, body } => ExchangeView::Answered {
                status: *status,
                body: match body {
                    Some(body) => Some(body@),
                    None => None,
                },
            },
        }
    }
}

/// What a query returns, as values.
pub open spec fn answer_view(answer: Result<String, ClientError>) -> Result<
    Seq<char>,
    ClientErrorView,
> {
    match answer {
        Ok(body) => Ok(body@),
        Err(error) => Err(error@),
    }
}

/// What a ping returns, as values.
pub open spec fn pong_view(pong: Result<(String, String), ClientError>) -> Result<
    (Seq<char>, Seq<char>),
    ClientErrorView,
> {
    match pong {
        Ok((build, version)) => Ok((build@, version@)),
        Err(error) => Err(error@),
    }
}

/// The header in which the server names its build.
pub const BUILD_HEADER: &'static str = "X-Influxdb-Build";

/// The header in which the server names its version.
pub const VERSION_HEADER: &'static str = "X-Influxdb-Version";

/// What came of a ping.
#[derive(Debug, PartialEq, Eq)]
pub enum PingReply {
    /// No answer came, for the reason given.
    Unanswered(String),
    /// The server answered; each of the two headers is there or not.
    Answered { build: Option<String>, version: Option<String> },
}

/// The mathematical value of a [`PingReply`].
pub enum PingReplyView {
    Unanswered(Seq<char>),
    Answered { build: Option<Seq<char>>, version: Option<Seq<char>> },
}

impl View for PingReply {
    type V = PingReplyView;

    open spec fn view(&self) -> PingReplyView {
        match self {
            PingReply::Unanswered(detail) => PingReplyView::Unanswered(detail@),
            PingReply::Answered { build, version } => PingReplyView::Answered {
                build: match build {
                    Some(build) => Some(build@),
                    None => None,
                },
                version: match version {
                    Some(version) => Some(version@),
                    None => None,
                },
            },
        }
    }
}

/// What a ping returns: the build and the version that the server named;
/// a connection error with the reason where no answer came; a connection
/// error that names the first missing header where the answer lacks one.
pub open spec fn ponged(reply: PingReplyView) -> Result<(Seq<char>, Seq<char>), ClientErrorView> {
    match reply {
        PingReplyView::Unanswered(detail) => Err(ClientErrorView::ConnectionError { error: detail }),
        PingReplyView::Answered { build: None, version: _ } => Err(
            ClientErrorView::ConnectionError { error: "missing header "@ + BUILD_HEADER@ },
        ),
        PingReplyView::Answered { build: Some(_), version: None } => Err(
            ClientErrorView::ConnectionError { error: "missing header "@ + VERSION_HEADER@ },
        ),
        PingReplyView::Answered { build: Some(build), version: Some(version) } => Ok(
            (build, version),
        ),
    }
}

/// The status with which the server refuses an unknown user.
pub const UNAUTHORIZED: u16 = 401;

/// The status with which the server refuses a known user.
pub const FORBIDDEN: u16 = 403;

/// The address of the store and the parameters that go with every request.
pub struct Client {
    url: String,
    parameters: TextMap<String>,
}

/// The mathematical value of a [`Client`].
pub struct ClientView {
    pub url: Seq<char>,
    pub parameters: Map<Seq<char>, Seq<char>>,
}

impl View for Client {
    type V = ClientView;

    closed spec fn view(&self) -> ClientView {
        ClientView { url: self.url@, parameters: parameters_view(self.parameters) }
    }
}

/// The request that a query becomes. A read goes to `/query` with the query
/// as parameter `q`, by GET where it selects or shows and by POST otherwise;
/// a write goes to `/write` by POST, with the query as body and the
/// precision as a parameter.
pub open spec fn planned(client: ClientView, query_type: QueryTypeView, query: Seq<char>)
    -> RequestView {
    match query_type {
        QueryTypeView::ReadQuery => RequestView {
            method: if occurs(query, "SELECT"@) || occurs(query, "SHOW"@) {
                Method::Get
            } else {
                Method::Post
            },
            url: client.url + "/query"@,
            parameters: client.parameters.insert("q"@, query),
            body: None,
        },
        QueryTypeView::WriteQuery(precision) => RequestView {
            method: Method::Post,
            url: client.url + "/write"@,
            parameters: client.parameters.insert("precision"@, precision),
            body: Some(query),
        },
    }
}

/// What an exchange means to the caller of a query. Failures before an
/// answer keep their detail; 401 and 403 are refusals whatever the body
/// says; a body that is not text cannot be read; a body that holds
/// `"error"` is the server's complaint; any other body is the result.
pub open spec fn concluded(exchange: ExchangeView) -> Result<Seq<char>, ClientErrorView> {
    match exchange {
        ExchangeView::Unbuildable(detail) => Err(
            ClientErrorView::InvalidQueryError { error: detail },
        ),
        ExchangeView::Malformed(detail) => Err(
            ClientErrorView::UrlConstructionError { error: detail },
        ),
        ExchangeView::Unanswered(detail) => Err(ClientErrorView::ProtocolError { error: detail }),
        ExchangeView::Answered { status, body } => if status == UNAUTHORIZED {
            Err(ClientErrorView::AuthorizationError)
        } else if status == FORBIDDEN {
            Err(ClientErrorView::AuthenticationError)
        } else {
            match body {
                None => Err(
                    ClientErrorView::DeserializationError {
                        error: "response could not be converted to UTF-8"@,
                    },
                ),
                Some(text) => if occurs(text, "\"error\""@) {
                    Err(
                        ClientErrorView::DatabaseError {
                            error: "influxdb error: \""@ + text + "\""@,
                        },
                    )
                } else {
                    Ok(text)
                },
            }
        },
    }
}

impl Client {
    /// A client holds its parameters without repetition, the database among
    /// them.
    pub closed spec fn wf(&self) -> bool {
        &&& self.parameters.wf()
        &&& self.parameters@.dom().contains("db"@)
    }

    /// A client for the database `database` of the store at `url`.
    pub fn new(url: &str, database: &str) -> (client: Client)
        ensures
            client.wf(),
            client@.url == url@,
            client@.parameters == Map::<Seq<char>, Seq<char>>::empty().insert("db"@, database@),
    {
        let mut parameters: TextMap<String> = TextMap::new();
        parameters.insert("db".to_owned(), database.to_owned());
        let client = Client { url: url.to_owned(), parameters };
        assert(client@.parameters =~= Map::<Seq<char>, Seq<char>>::empty().insert(
            "db"@,
            database@,
        ));
        client
    }

    /// The same client, with a user and a password added to its parameters.
    pub fn with_auth(self, username: &str, password: &str) -> (client: Client)
        requires
            self.wf(),
        ensures
            client.wf(),
            client@.url == self@.url,
            client@.parameters == self@.parameters.insert("u"@, username@).insert("p"@, password@),
    {
        let mut client = self;
        client.parameters.insert("u".to_owned(), username.to_owned());
        client.parameters.insert("p".to_owned(), password.to_owned());
        assert(client@.parameters =~= self@.parameters.insert("u"@, username@).insert(
            "p"@,
            password@,
        ));
        client
    }

    /// The name of the database that the client speaks to.
    pub fn database_name(&self) -> (name: &str)
        requires
            self.wf(),
        ensures
            name@ == self@.parameters["db"@],
    {
        match self.parameters.get("db") {
            Some(name) => name.as_str(),
            None => "",
        }
    }

    /// The address of the store.
    pub fn database_url(&self) -> (url: &str)
        ensures
            url@ == self@.url,
    {
        self.url.as_str()
    }

    /// How many parameters go with every request.
    pub fn parameter_count(&self) -> (n: usize)
        requires
            self.wf(),
        ensures
            n == self@.parameters.dom().len(),
    {
        proof {
            lemma_as_map_size(self.parameters.entries());
            assert(self@.parameters.dom() =~= self.parameters@.dom());
        }
        self.parameters.len()
    }

    /// The parameter of that name, if the client has one.
    pub fn parameter(&self, name: &str) -> (value: Option<&str>)
        requires
            self.wf(),
        ensures
            match value {
                Some(text) => self@.parameters.dom().contains(name@) && text@
                    == self@.parameters[name@],
                None => !self@.parameters.dom().contains(name@),
            },
    {
        match self.parameters.get(name) {
            Some(text) => Some(text.as_str()),
            None => None,
        }
    }

    /// Where a ping goes.
    pub fn ping_url(&self) -> (url: String)
        ensures
            url@ == self@.url + "/ping"@,
    {
        join(self.url.as_str(), "/ping")
    }

    /// What a ping returns, from what came of sending it.
    pub fn pong(reply: PingReply) -> (pong: Result<(String, String), ClientError>)
        ensures
            pong_view(pong) == ponged(reply@),
    {
        match reply {
            PingReply::Unanswered(detail) => Err(ClientError::ConnectionError { error: detail }),
            PingReply::Answered { build, version } => match build {
                None => Err(
                    ClientError::ConnectionError { error: join("missing header ", BUILD_HEADER) },
                ),
                Some(build) => match version {
                    None => Err(
                        ClientError::ConnectionError {
                            error: join("missing header ", VERSION_HEADER),
                        },
                    ),
                    Some(version) => Ok((build, version)),
                },
            },
        }
    }

    /// The request that sends `query`, a query of the given type.
    pub fn request(&self, query_type: &QueryType, query: &str) -> (request: Request)
        requires
            self.wf(),
        ensures
            request@ == planned(self@, query_type@, query@),
            request.parameters.wf(),
    {
        let mut parameters = self.parameters.clone();
        match query_type {
            QueryType::ReadQuery => {
                let method = if contains(query, "SELECT") || contains(query, "SHOW") {
                    Method::Get
                } else {
                    Method::Post
                };
                parameters.insert("q".to_owned(), query.to_owned());
                let request = Request {
                    method,
                    url: join(self.url.as_str(), "/query"),
                    parameters,
                    body: None,
                };
                assert(request@.parameters =~= self@.parameters.insert("q"@, query@));
                request
            },
            QueryType::WriteQuery(precision) => {
                parameters.insert("precision".to_owned(), precision.clone());
                let request = Request {
                    method: Method::Post,
                    url: join(self.url.as_str(), "/write"),
                    parameters,
                    body: Some(query.to_owned()),
                };
                assert(request@.parameters =~= self@.parameters.insert(
                    "precision"@,
                    precision@,
                ));
                request
            },
        }
    }

    /// The result of a query, from what came of sending its request.
    pub fn conclude(exchange: Exchange) -> (answer: Result<String, ClientError>)
        ensures
            answer_view(answer) == concluded(exchange@),
    {
        match exchange {
            Exchange::Unbuildable(detail) => Err(ClientError::InvalidQueryError { error: detail }),
            Exchange::Malformed(detail) => Err(
                ClientError::UrlConstructionError { error: detail },
            ),
            Exchange::Unanswered(detail) => Err(ClientError::ProtocolError { error: detail }),
            Exchange::Answered { status, body } => {
                if status == UNAUTHORIZED {
                    Err(ClientError::AuthorizationError)
                } else if status == FORBIDDEN {
                    Err(ClientError::AuthenticationError)
                } else {
                    match body {
                        None => Err(
                            ClientError::DeserializationError {
                                error: "response could not be converted to UTF-8".to_owned(),
                            },
                        ),
                        Some(text) => {
                            if contains(text.as_str(), "\"error\"") {
                                let mut error = join("influxdb error: \"", text.as_str());
                                error.append("\"");
                                Err(ClientError::DatabaseError { error })
                            } else {
                                Ok(text)
                            }
                        },
                    }
                }
            },
        }
    }
}

} // verus!
