use movie_client::dialogs::{Alert, CreateMovieDialog, Delegate, LoginDialog, RegisterDialog};
use movie_client::data_types::{Credentials, Movie, Role, SessionState};

fn movie(id: i32, title: &str, description: &str, release_year: i32) -> Movie {
    Movie { id, title: title.to_string(), description: description.to_string(), release_year }
}

#[test]
fn role_from_text() {
    assert_eq!(Role::from("User".to_string()), Role::User);
    assert_eq!(Role::from("Admin".to_string()), Role::Admin);
    assert_eq!(Role::from("".to_string()), Role::Admin);
    assert_eq!(Role::default(), Role::Unset);
    assert_eq!(SessionState::default(), SessionState::Unauthenticated);
}

#[test]
fn default_movie() {
    let m = Movie::default();
    assert!(m.is_default());
    assert_eq!(m, movie(0, "", "", 0));
    assert!(!movie(0, "", "", 1).is_default());
    assert_ne!(movie(1, "A", "d", 1999), movie(1, "A", "d", 2000));
}

#[test]
fn alert_shows_until_reset() {
    let mut alert = Alert::new("Error".to_string());
    assert_eq!(alert.title, "Error");
    assert_eq!(alert.changed(), (false, ""));
    alert.message = "Failed to log in".to_string();
    assert_eq!(alert.changed(), (true, ""));
    alert.reset();
    assert!(alert.message.is_empty());
    assert_eq!(alert.title, "Error");
}

#[test]
fn movie_form() {
    let mut form = CreateMovieDialog::new(None);
    assert!(form.movie.is_default());
    assert_eq!(form.get_movie(), None);
    assert_eq!(form.changed(), (false, "Create Movie"));
    form.confirm();
    assert!(!form.changed);
    form.movie.title = "A".to_string();
    form.movie.description = "d".to_string();
    assert!(form.valid());
    form.movie.release_year = -1;
    assert!(!form.valid());
    form.movie.release_year = 1999;
    form.confirm();
    assert_eq!(form.changed(), (true, "Create Movie"));
    assert_eq!(form.get_movie(), Some(movie(0, "A", "d", 1999)));

    let edit = CreateMovieDialog::new(Some(movie(3, "B", "e", 2001)));
    assert!(edit.update_mode);
    assert_eq!(edit.changed(), (false, "Update Movie"));
    assert_eq!(edit.get_movie(), Some(movie(3, "B", "e", 2001)));
}

#[test]
fn login_form() {
    let mut form = LoginDialog::new(Credentials::default());
    assert!(form.get_credentials().is_none());
    form.confirm();
    assert_eq!(form.changed(), (false, "Login"));
    form.creds.username = "u".to_string();
    assert!(!form.valid());
    form.creds.password = "p".to_string();
    form.confirm();
    assert_eq!(form.changed(), (true, "Login"));
    let creds = form.get_credentials().expect("valid form");
    assert_eq!(creds.username, "u");
    assert_eq!(creds.password, "p");
}

#[test]
fn register_form() {
    let mut form = RegisterDialog::new();
    assert_eq!(form.get_data(), None);
    form.username = "u".to_string();
    form.password = "p".to_string();
    assert!(!form.valid());
    form.role = "User".to_string();
    form.confirm();
    assert_eq!(form.changed(), (true, "Register"));
    assert_eq!(form.get_data(), Some(("u".to_string(), "p".to_string(), "User".to_string())));
}

#[test]
fn table_starts_empty() {
    assert!(Delegate::new().movies.is_empty());
}
