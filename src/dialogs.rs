//! The state behind the application's dialogs: what each form holds, when it
//! may be submitted and what it hands over. Drawing them is left to the
//! user interface.

use crate::data_types::Credentials;
use crate::data_types::Movie;
use vstd::prelude::*;

verus! {

/// A message box; it is showing while its message is not empty.
#[derive(Debug)]
pub struct Alert {
    pub title: String,
    pub message: String,
}

impl Alert {
    pub fn new(title: String) -> (r: Self)
        ensures
            r.title == title,
            r.message@.len() == 0,
    {
        Alert { title, message: String::new() }
    }

    /// Dismisses the message.
    pub fn reset(&mut self)
        ensures
            final(self).title == old(self).title,
            final(self).message@.len() == 0,
    {
        self.message = String::new();
    }

    /// Whether there is a message to show.
    pub fn changed(&self) -> (r: (bool, &'static str))
        ensures
            r.0 == (self.message@.len() > 0),
            r.1@.len() == 0,
    {
        proof {
            reveal_strlit("");
        }
        (!self.message.as_str().is_empty(), "")
    }
}

/// The form that creates a record, or edits one in update mode.
#[derive(Debug)]
pub struct CreateMovieDialog {
    pub movie: Movie,
    pub update_mode: bool,
    /// Set once the form was submitted while valid.
    pub changed: bool,
}

impl Clone for CreateMovieDialog {
    fn clone(&self) -> (r: Self)
        ensures
            r == *self,
    {
        CreateMovieDialog { movie: self.movie.clone(), update_mode: self.update_mode, changed: self.changed }
    }
}

impl CreateMovieDialog {
    /// A title, a description and a year that is not negative.
    pub open spec fn spec_valid(&self) -> bool {
        &&& self.movie.title@.len() > 0
        &&& self.movie.description@.len() > 0
        &&& self.movie.release_year > -1
    }

    /// A form for `Some(movie)` edits it; a form for `None` starts from the
    /// default record.
    pub fn new(movie: Option<Movie>) -> (r: Self)
        ensures
            !r.changed,
            match movie {
                Some(m) => r.movie == m && r.update_mode,
                None => r.movie.spec_is_default() && !r.update_mode,
            },
    {
        match movie {
            Some(m) => CreateMovieDialog { movie: m, update_mode: true, changed: false },
            None => CreateMovieDialog { movie: Movie::default(), update_mode: false, changed: false },
        }
    }

    /// The record, if the form is valid.
    pub fn get_movie(&self) -> (r: Option<Movie>)
        ensures
            r == (if self.spec_valid() { Some(self.movie) } else { None::<Movie> }),
    {
        if self.valid() {
            Some(self.movie.clone())
        } else {
            None
        }
    }

    pub fn valid(&self) -> (r: bool)
        ensures
            r == self.spec_valid(),
    {
        !self.movie.title.as_str().is_empty() && !self.movie.description.as_str().is_empty()
            && self.movie.release_year > -1
    }

    /// Submits the form: it counts as changed if it is valid.
    pub fn confirm(&mut self)
        ensures
            final(self).movie == old(self).movie,
            final(self).update_mode == old(self).update_mode,
            final(self).changed == (old(self).changed || old(self).spec_valid()),
    {
        if self.valid() {
            self.changed = true;
        }
    }

    /// Whether the form was submitted, and the action it stands for.
    pub fn changed(&self) -> (r: (bool, &'static str))
        ensures
            r.0 == self.changed,
            r.1@ == (if self.update_mode { "Update Movie"@ } else { "Create Movie"@ }),
    {
        if self.update_mode {
            (self.changed, "Update Movie")
        } else {
            (self.changed, "Create Movie")
        }
    }
}

/// The login form.
#[derive(Debug)]
pub struct LoginDialog {
    pub creds: Credentials,
    /// Set once the form was submitted while valid.
    pub changed: bool,
}

impl Clone for LoginDialog {
    fn clone(&self) -> (r: Self)
        ensures
            r == *self,
    {
        LoginDialog { creds: self.creds.clone(), changed: self.changed }
    }
}

impl LoginDialog {
    /// A user name and a password.
    pub open spec fn spec_valid(&self) -> bool {
        self.creds.username@.len() > 0 && self.creds.password@.len() > 0
    }

    /// A form that starts from the given credentials.
    pub fn new(creds: Credentials) -> (r: Self)
        ensures
            r.creds == creds,
            !r.changed,
    {
        LoginDialog { creds, changed: false }
    }

    /// The credentials, if the form is valid.
    pub fn get_credentials(&self) -> (r: Option<Credentials>)
        ensures
            r == (if self.spec_valid() { Some(self.creds) } else { None::<Credentials> }),
    {
        if self.valid() {
            Some(self.creds.clone())
        } else {
            None
        }
    }

    pub fn valid(&self) -> (r: bool)
        ensures
            r == self.spec_valid(),
    {
        !self.creds.username.as_str().is_empty() && !self.creds.password.as_str().is_empty()
    }

    /// Submits the form: it counts as changed if it is valid.
    pub fn confirm(&mut self)
        ensures
            final(self).creds == old(self).creds,
            final(self).changed == (old(self).changed || old(self).spec_valid()),
    {
        if self.valid() {
            self.changed = true;
        }
    }

    /// Whether the form was submitted, and the action it stands for.
    pub fn changed(&self) -> (r: (bool, &'static str))
        ensures
            r.0 == self.changed,
            r.1@ == "Login"@,
    {
        (self.changed, "Login")
    }
}

/// The registration form; the role is held as the text chosen.
#[derive(Debug)]
pub struct RegisterDialog {
    pub username: String,
    pub password: String,
    pub role: String,
    /// Set once the form was submitted while valid.
    pub changed: bool,
}

impl Clone for RegisterDialog {
    fn clone(&self) -> (r: Self)
        ensures
            r == *self,
    {
        RegisterDialog {
            username: self.username.clone(),
            password: self.password.clone(),
            role: self.role.clone(),
            changed: self.changed,
        }
    }
}

impl RegisterDialog {
    /// A user name, a password and a role.
    pub open spec fn spec_valid(&self) -> bool {
        &&& self.username@.len() > 0
        &&& self.password@.len() > 0
        &&& self.role@.len() > 0
    }

    /// An empty form.
    pub fn new() -> (r: Self)
        ensures
            r.username@.len() == 0,
            r.password@.len() == 0,
            r.role@.len() == 0,
            !r.changed,
    {
        RegisterDialog { username: String::new(), password: String::new(), role: String::new(), changed: false }
    }

    /// The user name, password and role, if the form is valid.
    pub fn get_data(&self) -> (r: Option<(String, String, String)>)
        ensures
            r == (if self.spec_valid() {
                Some((self.username, self.password, self.role))
            } else {
                None::<(String, String, String)>
            }),
    {
        if self.valid() {
            Some((self.username.clone(), self.password.clone(), self.role.clone()))
        } else {
            None
        }
    }

    pub fn valid(&self) -> (r: bool)
        ensures
            r == self.spec_valid(),
    {
        !self.username.as_str().is_empty() && !self.password.as_str().is_empty() && !self.role.as_str().is_empty()
    }

    /// Submits the form: it counts as changed if it is valid.
    pub fn confirm(&mut self)
        ensures
            final(self).username == old(self).username,
            final(self).password == old(self).password,
            final(self).role == old(self).role,
            final(self).changed == (old(self).changed || old(self).spec_valid()),
    {
        if self.valid() {
            self.changed = true;
        }
    }

    /// Whether the form was submitted, and the action it stands for.
    pub fn changed(&self) -> (r: (bool, &'static str))
        ensures
            r.0 == self.changed,
            r.1@ == "Register"@,
    {
        (self.changed, "Register")
    }
}

/// What the table of movies shows.
#[derive(Debug)]
pub struct Delegate {
    pub movies: Vec<Movie>,
}

impl Delegate {
    pub fn new() -> (r: Self)
        ensures
            r.movies@.len() == 0,
    {
        Delegate { movies: Vec::new() }
    }
}

} // verus!
