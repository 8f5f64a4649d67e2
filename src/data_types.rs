use vstd::prelude::*;

verus! {

/// The id that stands for "no movie": never sent to the server.
pub const NO_MOVIE: i32 = -1;

/// A user's name and password, and the token of the current session
/// (empty when there is none).
#[derive(Debug)]
pub struct Credentials {
    pub username: String,
    pub password: String,
    pub current_token: String,
}

impl Clone for Credentials {
    fn clone(&self) -> (r: Self)
        ensures
            r == *self,
    {
        Credentials {
            username: self.username.clone(),
            password: self.password.clone(),
            current_token: self.current_token.clone(),
        }
    }
}

impl Default for Credentials {
    fn default() -> (r: Self)
        ensures
            r.username@ == Seq::<char>::empty(),
            r.password@ == Seq::<char>::empty(),
            r.current_token@ == Seq::<char>::empty(),
    {
        Credentials { username: String::new(), password: String::new(), current_token: String::new() }
    }
}

/// One record of the catalog. The server assigns `id`.
#[derive(Debug)]
pub struct Movie {
    pub id: i32,
    pub title: String,
    pub description: String,
    pub release_year: i32,
}

impl Movie {
    /// Whether every field holds its default value (the record a form starts from).
    pub open spec fn spec_is_default(&self) -> bool {
        &&& self.id == 0
        &&& self.title@.len() == 0
        &&& self.description@.len() == 0
        &&& self.release_year == 0
    }

    pub fn is_default(&self) -> (r: bool)
        ensures
            r == self.spec_is_default(),
    {
        self.id == 0 && self.title.as_str().is_empty() && self.description.as_str().is_empty() && self.release_year == 0
    }
}

impl Clone for Movie {
    fn clone(&self) -> (r: Self)
        ensures
            r == *self,
    {
        Movie {
            id: self.id,
            title: self.title.clone(),
            description: self.description.clone(),
            release_year: self.release_year,
        }
    }
}

impl Default for Movie {
    fn default() -> (r: Self)
        ensures
            r.spec_is_default(),
    {
        Movie { id: 0, title: String::new(), description: String::new(), release_year: 0 }
    }
}

impl PartialEq for Movie {
    fn eq(&self, other: &Movie) -> (r: bool) {
        self.id == other.id && self.title == other.title && self.description == other.description
            && self.release_year == other.release_year
    }
}

impl vstd::std_specs::cmp::PartialEqSpecImpl for Movie {
    open spec fn obeys_eq_spec() -> bool {
        true
    }

    open spec fn eq_spec(&self, other: &Movie) -> bool {
        &&& self.id == other.id
        &&& self.title@ == other.title@
        &&& self.description@ == other.description@
        &&& self.release_year == other.release_year
    }
}

/// The privilege class asked for at registration.
#[derive(Clone, Copy, Debug, PartialEq, Eq, Structural)]
pub enum Role {
    Unset,
    Admin,
    User,
}

impl Default for Role {
    fn default() -> (r: Self)
        ensures
            r == Role::Unset,
    {
        Role::Unset
    }
}

/// What a role is called on the wire.
pub open spec fn role_name(role: Role) -> Seq<char> {
    match role {
        Role::Admin => "admin"@,
        Role::User => "user"@,
        Role::Unset => Seq::empty(),
    }
}

impl From<String> for Role {
    /// "User" names the user role; any other text names the admin role.
    fn from(role: String) -> (r: Role) {
        if role == "User".to_owned() {
            Role::User
        } else {
            Role::Admin
        }
    }
}

impl vstd::std_specs::convert::FromSpecImpl<String> for Role {
    open spec fn obeys_from_spec() -> bool {
        true
    }

    open spec fn from_spec(role: String) -> Role {
        if role@ == "User"@ {
            Role::User
        } else {
            Role::Admin
        }
    }
}

/// Whether a session token is held.
#[derive(Clone, Copy, Debug, PartialEq, Eq, Structural)]
pub enum SessionState {
    Unauthenticated,
    Authenticated,
}

impl Default for SessionState {
    fn default() -> (r: Self)
        ensures
            r == SessionState::Unauthenticated,
    {
        SessionState::Unauthenticated
    }
}

/// The session state that a token gives: authenticated exactly when it is not empty.
pub open spec fn session_state_of(token: Seq<char>) -> SessionState {
    if token.len() == 0 {
        SessionState::Unauthenticated
    } else {
        SessionState::Authenticated
    }
}

} // verus!
