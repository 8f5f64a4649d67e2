//! The API client. Each operation is split at the network: one method decides,
//! from the session and the caller's input, either the outcome or the request
//! to send; a second method takes the server's reply and says what follows
//! from it, updating the session and the cached list of movies.

use crate::config::Config;
use crate::data_types::role_name;
use crate::data_types::Movie;
use crate::data_types::Role;
use crate::data_types::NO_MOVIE;
use crate::wire::decimal;
use crate::wire::decimal_text;
use crate::wire::decode_member;
use crate::wire::encode_object;
use crate::wire::json_object_text;
use crate::wire::json_member;
use crate::wire::members_view;
use crate::wire::text_view;
use vstd::prelude::*;
use vstd::string::StringExecFns;

verus! {

/// The status with which the server refuses a session token.
pub const UNAUTHORIZED: u16 = 401;

/// A status of the 2xx class.
pub open spec fn is_success(status: u16) -> bool {
    200 <= status <= 299
}

/// Whether `status` reports success.
pub fn succeeded(status: u16) -> (r: bool)
    ensures
        r == is_success(status),
{
    200 <= status && status <= 299
}

/// The HTTP method of a request.
#[derive(Clone, Copy, Debug, PartialEq, Eq, Structural)]
pub enum Method {
    Get,
    Post,
    Delete,
}

/// The body of a request.
#[derive(Debug)]
pub enum Payload {
    Empty,
    /// JSON text, ready to send.
    Json(String),
    /// A record, sent as its JSON object.
    Movie(Movie),
}

/// A request that the caller is to send, and whose reply it hands back.
#[derive(Debug)]
pub struct Request {
    pub method: Method,
    pub url: String,
    /// The value of the `Authorization` header, if one is sent.
    pub authorization: Option<String>,
    pub payload: Payload,
}

/// What came back for a request: a status and a body, or nothing at all.
#[derive(Debug)]
pub enum Reply<B> {
    /// The server could not be reached; the text says why.
    Unreachable(String),
    Status(u16, B),
}

/// Why the server did not do what was asked.
#[derive(Debug)]
pub enum Failure {
    /// It answered with this status.
    Status(u16),
    /// It could not be reached.
    Transport(String),
}

#[derive(Debug)]
pub enum ApiError {
    /// No base URL is configured.
    Configuration,
    /// A required input is missing.
    Validation,
    /// The server refused the session token.
    Auth,
    /// Any other failure of the exchange.
    Remote(Failure),
    /// A body could not be written or read as JSON.
    Serialization,
}

impl ApiError {
    /// A human-readable description.
    pub fn message(&self) -> (r: String)
        ensures
            r@ == match self {
                ApiError::Configuration => "No base URL provided"@,
                ApiError::Validation => "No credentials provided"@,
                ApiError::Auth => "Unauthorized"@,
                ApiError::Remote(Failure::Status(code)) => "The server answered with status "@ + decimal(*code as int),
                ApiError::Remote(Failure::Transport(why)) => "The server could not be reached: "@ + why@,
                ApiError::Serialization => "Malformed JSON"@,
            },
    {
        match self {
            ApiError::Configuration => "No base URL provided".to_owned(),
            ApiError::Validation => "No credentials provided".to_owned(),
            ApiError::Auth => "Unauthorized".to_owned(),
            ApiError::Remote(Failure::Status(code)) => {
                let mut m = "The server answered with status ".to_owned();
                m.append(decimal_text(*code as i32).as_str());
                m
            },
            ApiError::Remote(Failure::Transport(why)) => {
                let mut m = "The server could not be reached: ".to_owned();
                m.append(why.as_str());
                m
            },
            ApiError::Serialization => "Malformed JSON".to_owned(),
        }
    }
}

/// The first half of an operation: its outcome, where no request is needed,
/// or the request to send.
#[derive(Debug)]
pub enum Step<T> {
    Done(Result<T, ApiError>),
    Send(Request),
}

impl<T> Step<T> {
    /// A request with this method, URL and `Authorization` header.
    pub open spec fn sends(self, method: Method, url: Seq<char>, authorization: Option<Seq<char>>) -> bool {
        match self {
            Step::Send(req) => {
                &&& req.method == method
                &&& req.url@ == url
                &&& text_view(req.authorization) == authorization
            },
            Step::Done(_) => false,
        }
    }

    /// A request without a body.
    pub open spec fn sends_nothing(self) -> bool {
        match self {
            Step::Send(req) => req.payload is Empty,
            Step::Done(_) => false,
        }
    }

    /// A request whose body is this JSON text.
    pub open spec fn sends_json(self, text: Seq<char>) -> bool {
        match self {
            Step::Send(req) => match req.payload {
                Payload::Json(t) => t@ == text,
                _ => false,
            },
            Step::Done(_) => false,
        }
    }

    /// A request whose body is this record.
    pub open spec fn sends_movie(self, movie: Movie) -> bool {
        match self {
            Step::Send(req) => match req.payload {
                Payload::Movie(m) => m == movie,
                _ => false,
            },
            Step::Done(_) => false,
        }
    }
}

/// The second half of an operation: its outcome, and whether the
/// configuration changed so that it is to be saved.
#[derive(Debug)]
pub struct Completion<T> {
    pub result: Result<T, ApiError>,
    pub save: bool,
}

/// The members of a registration body.
pub open spec fn registration_members(username: Seq<char>, password: Seq<char>, role: Role) -> Seq<(Seq<char>, Seq<char>)> {
    seq![("username"@, username), ("password"@, password), ("role"@, role_name(role))]
}

/// The members of a login body.
pub open spec fn login_members(username: Seq<char>, password: Seq<char>) -> Seq<(Seq<char>, Seq<char>)> {
    seq![("username"@, username), ("password"@, password)]
}

fn role_text(role: Role) -> (r: String)
    requires
        role != Role::Unset,
    ensures
        r@ == role_name(role),
{
    match role {
        Role::Admin => "admin".to_owned(),
        _ => "user".to_owned(),
    }
}

/// The session and the movies last listed.
#[derive(Debug)]
pub struct DataLayer {
    pub config: Config,
    /// The result of the last successful listing; for display only.
    pub movies: Vec<Movie>,
}

impl DataLayer {
    pub open spec fn base(&self) -> Seq<char> {
        self.config.base_url@
    }

    pub open spec fn token(&self) -> Seq<char> {
        self.config.creds.current_token@
    }

    /// `after` is this client with its token cleared and nothing else changed.
    pub open spec fn token_cleared(self, after: DataLayer) -> bool {
        &&& after.config.base_url == self.config.base_url
        &&& after.config.creds.username == self.config.creds.username
        &&& after.config.creds.password == self.config.creds.password
        &&& after.config.creds.current_token@.len() == 0
        &&& after.movies == self.movies
    }

    /// What taking `token` from a login reply gives: `after` is the client
    /// afterwards and `c` the completion.
    pub open spec fn token_taken(
        self,
        after: DataLayer,
        c: Completion<()>,
        username: Seq<char>,
        password: Seq<char>,
        token: Option<Seq<char>>,
    ) -> bool {
        match token {
            Some(t) => {
                &&& c.result == Ok::<(), ApiError>(())
                &&& c.save
                &&& after.config.base_url == self.config.base_url
                &&& after.config.creds.username@ == username
                &&& after.config.creds.password@ == password
                &&& after.config.creds.current_token@ == t
                &&& after.movies == self.movies
            },
            None => {
                &&& c.result == Err::<(), ApiError>(ApiError::Serialization)
                &&& !c.save
                &&& after == self
            },
        }
    }

    /// A failed exchange that changes nothing: `c` carries the failure.
    pub open spec fn failed<T, B>(self, after: DataLayer, c: Completion<T>, reply: Reply<B>) -> bool {
        &&& !c.save
        &&& after == self
        &&& match reply {
            Reply::Unreachable(why) => c.result == Err::<T, ApiError>(ApiError::Remote(Failure::Transport(why))),
            Reply::Status(code, _) => c.result == Err::<T, ApiError>(ApiError::Remote(Failure::Status(code))),
        }
    }

    /// A client with this configuration and no movies listed yet.
    pub fn new(config: Config) -> (r: Self)
        ensures
            r.config == config,
            r.movies@.len() == 0,
    {
        DataLayer { config, movies: Vec::new() }
    }

    fn url(&self, path: &str) -> (r: String)
        ensures
            r@ == self.base() + path@,
    {
        let mut url = self.config.base_url.clone();
        url.append(path);
        url
    }

    fn url_with_id(&self, path: &str, id: i32) -> (r: String)
        ensures
            r@ == self.base() + path@ + decimal(id as int),
    {
        let mut url = self.url(path);
        url.append(decimal_text(id).as_str());
        url
    }

    fn authorization(&self) -> (r: Option<String>)
        ensures
            text_view(r) == Some(self.token()),
    {
        Some(self.config.creds.current_token.clone())
    }

    /// Asks the server to create an account; this does not log in.
    pub fn register(&self, username: String, password: String, role: Role) -> (r: Step<()>)
        ensures
            self.base().len() == 0 ==> r == Step::<()>::Done(Err(ApiError::Configuration)),
            self.base().len() > 0 && (username@.len() == 0 || password@.len() == 0 || role == Role::Unset)
                ==> r == Step::<()>::Done(Err(ApiError::Validation)),
            self.base().len() > 0 && username@.len() > 0 && password@.len() > 0 && role != Role::Unset
                ==> match json_object_text(registration_members(username@, password@, role)) {
                    Some(body) => r.sends(Method::Post, self.base() + "/register"@, None) && r.sends_json(body),
                    None => r == Step::<()>::Done(Err(ApiError::Serialization)),
                },
    {
        if self.config.base_url.as_str().is_empty() {
            return Step::Done(Err(ApiError::Configuration));
        }
        if username.as_str().is_empty() || password.as_str().is_empty() || role == Role::Unset {
            return Step::Done(Err(ApiError::Validation));
        }
        let ghost (u, p) = (username@, password@);
        let members = vec![
            ("username".to_owned(), username),
            ("password".to_owned(), password),
            ("role".to_owned(), role_text(role)),
        ];
        assert(members_view(members@) =~= registration_members(u, p, role));
        match encode_object(&members) {
            Some(body) => Step::Send(
                Request {
                    method: Method::Post,
                    url: self.url("/register"),
                    authorization: None,
                    payload: Payload::Json(body),
                },
            ),
            None => Step::Done(Err(ApiError::Serialization)),
        }
    }

    /// What a reply to a registration means; nothing is changed.
    pub fn finish_register(&self, reply: Reply<()>) -> (r: Result<(), ApiError>)
        ensures
            match reply {
                Reply::Unreachable(why) => r == Err::<(), ApiError>(ApiError::Remote(Failure::Transport(why))),
                Reply::Status(code, _) => if is_success(code) {
                    r == Ok::<(), ApiError>(())
                } else {
                    r == Err::<(), ApiError>(ApiError::Remote(Failure::Status(code)))
                },
            },
    {
        match reply {
            Reply::Unreachable(why) => Err(ApiError::Remote(Failure::Transport(why))),
            Reply::Status(code, _) => if succeeded(code) {
                Ok(())
            } else {
                Err(ApiError::Remote(Failure::Status(code)))
            },
        }
    }

    /// Asks the server for a session token.
    pub fn login(&self, username: String, password: String) -> (r: Step<()>)
        ensures
            self.base().len() == 0 ==> r == Step::<()>::Done(Err(ApiError::Configuration)),
            self.base().len() > 0 && (username@.len() == 0 || password@.len() == 0)
                ==> r == Step::<()>::Done(Err(ApiError::Validation)),
            self.base().len() > 0 && username@.len() > 0 && password@.len() > 0
                ==> match json_object_text(login_members(username@, password@)) {
                    Some(body) => r.sends(Method::Post, self.base() + "/login"@, None) && r.sends_json(body),
                    None => r == Step::<()>::Done(Err(ApiError::Serialization)),
                },
    {
        if self.config.base_url.as_str().is_empty() {
            return Step::Done(Err(ApiError::Configuration));
        }
        if username.as_str().is_empty() || password.as_str().is_empty() {
            return Step::Done(Err(ApiError::Validation));
        }
        let ghost (u, p) = (username@, password@);
        let members = vec![("username".to_owned(), username), ("password".to_owned(), password)];
        assert(members_view(members@) =~= login_members(u, p));
        match encode_object(&members) {
            Some(body) => Step::Send(
                Request {
                    method: Method::Post,
                    url: self.url("/login"),
                    authorization: None,
                    payload: Payload::Json(body),
                },
            ),
            None => Step::Done(Err(ApiError::Serialization)),
        }
    }

    /// Takes the token that a successful login returned (`None` where the
    /// reply held none): the credentials become these, and are to be saved.
    pub fn accept_token(&mut self, username: String, password: String, token: Option<String>) -> (c: Completion<()>)
        ensures
            old(self).token_taken(*final(self), c, username@, password@, text_view(token)),
    {
        match token {
            Some(t) => {
                self.config.creds.username = username;
                self.config.creds.password = password;
                self.config.creds.current_token = t;
                Completion { result: Ok(()), save: true }
            },
            None => Completion { result: Err(ApiError::Serialization), save: false },
        }
    }

    /// What a reply to a login means. On success the body's token is taken,
    /// with the user name and password that were sent.
    pub fn finish_login(&mut self, username: String, password: String, reply: Reply<String>) -> (c: Completion<()>)
        ensures
            match reply {
                Reply::Status(code, body) if is_success(code) =>
                    old(self).token_taken(*final(self), c, username@, password@, json_member(body@, "token"@)),
                _ => old(self).failed(*final(self), c, reply),
            },
    {
        match reply {
            Reply::Unreachable(why) => Completion { result: Err(ApiError::Remote(Failure::Transport(why))), save: false },
            Reply::Status(code, body) => if succeeded(code) {
                let token = decode_member(body.as_str(), "token");
                self.accept_token(username, password, token)
            } else {
                Completion { result: Err(ApiError::Remote(Failure::Status(code))), save: false }
            },
        }
    }

    /// Asks the server to end the session.
    pub fn logout(&self) -> (r: Step<()>)
        ensures
            self.base().len() == 0 ==> r == Step::<()>::Done(Err(ApiError::Configuration)),
            self.base().len() > 0 ==> r.sends(Method::Post, self.base() + "/logout"@, Some(self.token()))
                && r.sends_nothing(),
    {
        if self.config.base_url.as_str().is_empty() {
            return Step::Done(Err(ApiError::Configuration));
        }
        Step::Send(
            Request {
                method: Method::Post,
                url: self.url("/logout"),
                authorization: self.authorization(),
                payload: Payload::Empty,
            },
        )
    }

    fn clear_token(&mut self)
        ensures
            old(self).token_cleared(*final(self)),
    {
        self.config.creds.current_token = String::new();
    }

    /// What a reply to a logout means: on success the token is cleared and
    /// the configuration is to be saved; otherwise nothing changes.
    pub fn finish_logout(&mut self, reply: Reply<()>) -> (c: Completion<()>)
        ensures
            match reply {
                Reply::Status(code, _) if is_success(code) => {
                    &&& c.result == Ok::<(), ApiError>(())
                    &&& c.save
                    &&& old(self).token_cleared(*final(self))
                },
                _ => old(self).failed(*final(self), c, reply),
            },
    {
        match reply {
            Reply::Unreachable(why) => Completion { result: Err(ApiError::Remote(Failure::Transport(why))), save: false },
            Reply::Status(code, _) => if succeeded(code) {
                self.clear_token();
                Completion { result: Ok(()), save: true }
            } else {
                Completion { result: Err(ApiError::Remote(Failure::Status(code))), save: false }
            },
        }
    }

    /// What a reply to a protected change (create, update, delete) means:
    /// a refused token is cleared, and the configuration is then to be saved.
    pub fn finish_change(&mut self, reply: Reply<()>) -> (c: Completion<()>)
        ensures
            match reply {
                Reply::Status(code, _) if is_success(code) => {
                    &&& c.result == Ok::<(), ApiError>(())
                    &&& !c.save
                    &&& *final(self) == *old(self)
                },
                Reply::Status(code, _) if code == UNAUTHORIZED => {
                    &&& c.result == Err::<(), ApiError>(ApiError::Auth)
                    &&& c.save
                    &&& old(self).token_cleared(*final(self))
                },
                _ => old(self).failed(*final(self), c, reply),
            },
    {
        match reply {
            Reply::Unreachable(why) => Completion { result: Err(ApiError::Remote(Failure::Transport(why))), save: false },
            Reply::Status(code, _) => if succeeded(code) {
                Completion { result: Ok(()), save: false }
            } else if code == UNAUTHORIZED {
                self.clear_token();
                Completion { result: Err(ApiError::Auth), save: true }
            } else {
                Completion { result: Err(ApiError::Remote(Failure::Status(code))), save: false }
            },
        }
    }

    /// Asks the server to add a record; nothing is sent for the id -1 or for
    /// the default record.
    pub fn create_movie(&self, movie: Movie) -> (r: Step<()>)
        ensures
            self.base().len() == 0 ==> r == Step::<()>::Done(Err(ApiError::Configuration)),
            self.base().len() > 0 && (movie.id == NO_MOVIE || movie.spec_is_default())
                ==> r == Step::<()>::Done(Ok(())),
            self.base().len() > 0 && movie.id != NO_MOVIE && !movie.spec_is_default()
                ==> r.sends(Method::Post, self.base() + "/movie/create"@, Some(self.token())) && r.sends_movie(movie),
    {
        if self.config.base_url.as_str().is_empty() {
            return Step::Done(Err(ApiError::Configuration));
        }
        if movie.id == NO_MOVIE || movie.is_default() {
            return Step::Done(Ok(()));
        }
        Step::Send(
            Request {
                method: Method::Post,
                url: self.url("/movie/create"),
                authorization: self.authorization(),
                payload: Payload::Movie(movie),
            },
        )
    }

    /// Asks the server for one record (`Some(id)`) or for all of them
    /// (`None`); for the id -1 the listing is empty and nothing is sent.
    pub fn list_movies(&self, id: Option<i32>) -> (r: Step<Vec<Movie>>)
        ensures
            self.base().len() == 0 ==> r == Step::<Vec<Movie>>::Done(Err(ApiError::Configuration)),
            self.base().len() > 0 ==> match id {
                Some(n) if n == NO_MOVIE => r matches Step::Done(Ok(v)) && v@.len() == 0,
                Some(n) => r.sends(Method::Get, self.base() + "/movie/list/"@ + decimal(n as int), Some(self.token()))
                    && r.sends_nothing(),
                None => r.sends(Method::Get, self.base() + "/movie/list"@, Some(self.token())) && r.sends_nothing(),
            },
    {
        if self.config.base_url.as_str().is_empty() {
            return Step::Done(Err(ApiError::Configuration));
        }
        let url = match id {
            Some(n) => {
                if n == NO_MOVIE {
                    return Step::Done(Ok(Vec::new()));
                }
                self.url_with_id("/movie/list/", n)
            },
            None => self.url("/movie/list"),
        };
        Step::Send(Request { method: Method::Get, url, authorization: self.authorization(), payload: Payload::Empty })
    }

    /// What a reply to a listing means. The body comes decoded: `None` where
    /// it was not the JSON of the records asked for (one record counts as a
    /// listing of one). A listing replaces the cached one and is returned; a
    /// refused token is cleared (to be saved) and the cache kept; any other
    /// failure empties the cache.
    pub fn finish_list(&mut self, reply: Reply<Option<Vec<Movie>>>) -> (c: Completion<Vec<Movie>>)
        ensures
            !(reply matches Reply::Status(code, _) && code == UNAUTHORIZED) ==> {
                &&& !c.save
                &&& final(self).config == old(self).config
            },
            match reply {
                Reply::Status(code, Some(movies)) if is_success(code) => {
                    &&& c.result matches Ok(v) && v@ == movies@
                    &&& final(self).movies@ == movies@
                },
                Reply::Status(code, None) if is_success(code) => {
                    &&& c.result matches Err(ApiError::Serialization)
                    &&& final(self).movies@.len() == 0
                },
                Reply::Status(code, _) if code == UNAUTHORIZED => {
                    &&& c.result matches Err(ApiError::Auth)
                    &&& c.save
                    &&& old(self).token_cleared(*final(self))
                },
                Reply::Status(code, _) => {
                    &&& c.result == Err::<Vec<Movie>, ApiError>(ApiError::Remote(Failure::Status(code)))
                    &&& final(self).movies@.len() == 0
                },
                Reply::Unreachable(why) => {
                    &&& c.result == Err::<Vec<Movie>, ApiError>(ApiError::Remote(Failure::Transport(why)))
                    &&& final(self).movies@.len() == 0
                },
            },
    {
        match reply {
            Reply::Status(code, body) => if succeeded(code) {
                match body {
                    Some(movies) => {
                        self.movies = movies;
                        let listed = self.movies.clone();
                        assert(listed@ =~= self.movies@);
                        Completion { result: Ok(listed), save: false }
                    },
                    None => {
                        self.movies.clear();
                        Completion { result: Err(ApiError::Serialization), save: false }
                    },
                }
            } else if code == UNAUTHORIZED {
                self.clear_token();
                Completion { result: Err(ApiError::Auth), save: true }
            } else {
                self.movies.clear();
                Completion { result: Err(ApiError::Remote(Failure::Status(code))), save: false }
            },
            Reply::Unreachable(why) => {
                self.movies.clear();
                Completion { result: Err(ApiError::Remote(Failure::Transport(why))), save: false }
            },
        }
    }

    /// Asks the server to replace a record; nothing is sent for the id -1 or
    /// for the default record.
    pub fn update_movie(&self, movie: Movie) -> (r: Step<()>)
        ensures
            self.base().len() == 0 ==> r == Step::<()>::Done(Err(ApiError::Configuration)),
            self.base().len() > 0 && (movie.id == NO_MOVIE || movie.spec_is_default())
                ==> r == Step::<()>::Done(Ok(())),
            self.base().len() > 0 && movie.id != NO_MOVIE && !movie.spec_is_default()
                ==> r.sends(Method::Post, self.base() + "/movie/update/"@ + decimal(movie.id as int), Some(self.token()))
                && r.sends_movie(movie),
    {
        if self.config.base_url.as_str().is_empty() {
            return Step::Done(Err(ApiError::Configuration));
        }
        if movie.id == NO_MOVIE || movie.is_default() {
            return Step::Done(Ok(()));
        }
        Step::Send(
            Request {
                method: Method::Post,
                url: self.url_with_id("/movie/update/", movie.id),
                authorization: self.authorization(),
                payload: Payload::Movie(movie),
            },
        )
    }

    /// Asks the server to remove a record; nothing is sent for the id -1.
    pub fn delete_movie(&self, id: i32) -> (r: Step<()>)
        ensures
            self.base().len() == 0 ==> r == Step::<()>::Done(Err(ApiError::Configuration)),
            self.base().len() > 0 && id == NO_MOVIE ==> r == Step::<()>::Done(Ok(())),
            self.base().len() > 0 && id != NO_MOVIE
                ==> r.sends(Method::Delete, self.base() + "/movie/delete/"@ + decimal(id as int), Some(self.token()))
                && r.sends_nothing(),
    {
        if self.config.base_url.as_str().is_empty() {
            return Step::Done(Err(ApiError::Configuration));
        }
        if id == NO_MOVIE {
            return Step::Done(Ok(()));
        }
        Step::Send(
            Request {
                method: Method::Delete,
                url: self.url_with_id("/movie/delete/", id),
                authorization: self.authorization(),
                payload: Payload::Empty,
            },
        )
    }

    /// The first cached movie with this id, if there is one.
    pub fn cached_movie(&self, id: i32) -> (r: Option<Movie>)
        ensures
            match r {
                Some(m) => exists|i: int|
                    0 <= i < self.movies@.len() && self.movies@[i] == m && m.id == id
                    && forall|j: int| 0 <= j < i ==> self.movies@[j].id != id,
                None => forall|i: int| 0 <= i < self.movies@.len() ==> self.movies@[i].id != id,
            },
    {
        let mut i: usize = 0;
        while i < self.movies.len()
            invariant
                0 <= i <= self.movies@.len(),
                forall|j: int| 0 <= j < i ==> self.movies@[j].id != id,
            decreases self.movies@.len() - i,
        {
            if self.movies[i].id == id {
                let found = self.movies[i].clone();
                assert(self.movies@[i as int] == found);
                return Some(found);
            }
            i += 1;
        }
        None
    }
}

} // verus!
