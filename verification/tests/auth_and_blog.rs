use file_server::auth::{
    hash_password, hash_result, HashError, login, login_page, logout, new_user_with_password, routes, user_index,
    UserGuard,
};
use file_server::blog;
use file_server::http::{FlashKind, Handler, Method, Page};
use file_server::models::{Column, NewPost, NewUser, Post, User};

fn is_random_uuid(id: u128) -> bool {
    id & 0xF000_C000_0000_0000_0000u128 == 0x4000_8000_0000_0000_0000u128
}

fn user(name: &str, password_hash: String) -> User {
    User { id: 7, name: name.to_string(), privileges: 0, password: password_hash }
}

#[test]
fn login_with_the_right_password() {
    let h = hash_password("test123").expect("hashing works");
    assert_eq!(h.len(), 60);
    assert!(h.starts_with("$2b$12$"), "hashed with the default cost: {}", h);
    let ok = login(Some(user("Anton", h)), "test123").ok().expect("login succeeds");
    assert_eq!(ok.guard.id(), 7);
    assert_eq!(ok.guard.name(), "Anton");
    assert_eq!(ok.redirect.to, "/");
    assert_eq!(ok.redirect.kind, FlashKind::Success);
    assert_eq!(ok.redirect.message, "Successfully logged in");
}

#[test]
fn login_with_a_wrong_password() {
    let h = hash_password("test123").unwrap();
    let err = login(Some(user("Anton", h)), "test124").err().expect("login fails");
    assert_eq!(err.failure.status, 401);
    assert_eq!(err.failure.reason, "Invalid username/password");
    assert_eq!(err.flash_kind, FlashKind::Error);
    assert_eq!(err.flash_message, "Invalid username/password");
}

#[test]
fn login_of_an_unknown_user() {
    let err = login(None, "test123").err().expect("login fails");
    assert_eq!(err.failure.status, 401);
    assert_eq!(err.failure.reason, "Invalid username/password");
    assert_eq!(err.flash_kind, FlashKind::Error);
    assert_eq!(err.flash_message, "Invalid username/password");
}

#[test]
fn login_with_a_malformed_stored_hash() {
    let err = login(Some(user("Anton", "test123".to_string())), "test123").err().unwrap();
    assert_eq!(err.failure.status, 401);
}

#[test]
fn login_against_a_known_bcrypt_hash() {
    // a hash of the password "password", as the bcrypt crate's own tests use it
    let h = "$2a$04$UuTkLRZZ6QofpDOlMz32MuuxEHA43WOemOYHPz6.SjsVsyO1tDU96".to_string();
    assert!(login(Some(user("u", h.clone())), "password").is_ok());
    assert!(login(Some(user("u", h)), "passwore").is_err());
}

#[test]
fn seeded_user_can_log_in() {
    let u = new_user_with_password("Anton".to_string(), "test123").expect("hashing works");
    assert_eq!(u.name, "Anton");
    assert!(is_random_uuid(u.id));
    let stored = User { id: u.id, name: u.name.clone(), privileges: 0, password: u.password.clone() };
    assert!(login(Some(stored), "test123").is_ok());
}

#[test]
fn new_users_get_random_uuids() {
    let a = NewUser::new("a".to_string(), "p".to_string());
    let b = NewUser::new("b".to_string(), "q".to_string());
    assert!(is_random_uuid(a.id) && is_random_uuid(b.id));
    assert_ne!(a.id, b.id);
    assert_eq!(uuid::Uuid::from_u128(a.id).get_version_num(), 4);
    assert_eq!(a.name, "a");
    assert_eq!(a.password, "p");
}

#[test]
fn logout_redirects_to_login() {
    let r = logout();
    assert_eq!(r.to, "/login");
    assert_eq!(r.kind, FlashKind::Success);
    assert_eq!(r.message, "Successfully logged out.");
}

#[test]
fn login_page_for_visitors_and_users() {
    match login_page(Some("Invalid username/password".to_string()), None) {
        Ok(Page::Login { flash }) => assert_eq!(flash.as_deref(), Some("Invalid username/password")),
        _ => panic!("expected the login page"),
    }
    match login_page(None, None) {
        Ok(Page::Login { flash }) => assert!(flash.is_none()),
        _ => panic!("expected the login page"),
    }
    let g = UserGuard::new(3, "x".to_string());
    match login_page(None, Some(g)) {
        Err(r) => assert_eq!(r.to, "/"),
        _ => panic!("expected a redirect"),
    }
}

#[test]
fn guard_from_cookie() {
    let g = UserGuard::new(3, "x".to_string());
    let back = UserGuard::from_cookie(Some(g)).ok().unwrap();
    assert_eq!(back.id(), 3);
    assert_eq!(back.name(), "x");
    assert_eq!(UserGuard::from_cookie(None).err(), Some(401));
}

#[test]
fn user_index_shows_the_user() {
    let g = UserGuard::new(99, "x".to_string());
    let p = user_index(&g);
    assert_eq!(p.template(), "index");
    match p {
        Page::Index { user_id } => assert_eq!(user_id, 99),
        _ => panic!("expected the index page"),
    }
}

#[test]
fn auth_routes() {
    let r = routes();
    let got: Vec<(Method, &str, Option<isize>, Handler)> =
        r.iter().map(|s| (s.method, s.path, s.rank, s.handler)).collect();
    assert_eq!(got, vec![
        (Method::Post, "/login", None, Handler::Login),
        (Method::Post, "/logout", None, Handler::Logout),
        (Method::Get, "/login", Some(2), Handler::LoginPage),
        (Method::Get, "/", Some(0), Handler::UserIndex),
    ]);
}

#[test]
fn lookups_by_name_and_title() {
    let q = User::with_name("Anton");
    assert_eq!(q.column, Column::UserName);
    assert_eq!(q.value, "Anton");
    let q = Post::with_title("Hello");
    assert_eq!(q.column, Column::PostTitle);
    assert_eq!(q.value, "Hello");
}

fn sample_post(title: &str) -> Post {
    let t = chrono::NaiveDate::from_ymd_opt(2018, 5, 1).unwrap().and_hms_opt(12, 0, 0).unwrap();
    Post::from_row(5, title.to_string(), "text".to_string(), 7, t)
}

#[test]
fn post_getters() {
    let p = sample_post("Hello");
    assert_eq!(p.get_uuid(), 5);
    assert_eq!(p.get_datetime().to_string(), "2018-05-01 12:00:00");
}

#[test]
fn blog_routes() {
    let got: Vec<(Method, &str, Option<isize>, Handler)> =
        blog::routes().iter().map(|s| (s.method, s.path, s.rank, s.handler)).collect();
    assert_eq!(got, vec![
        (Method::Get, "/<title>", Some(1), Handler::GetPost),
        (Method::Post, "/", None, Handler::CreatePost),
        (Method::Get, "/new", None, Handler::NewPost),
    ]);
}

#[test]
fn get_post_found_and_missing() {
    match blog::get_post(Some(sample_post("Hello"))) {
        Some(p) => {
            assert_eq!(p.template(), "single_post");
            match p {
                Page::SinglePost { post } => assert_eq!(post.title, "Hello"),
                _ => panic!(),
            }
        },
        None => panic!("expected a page"),
    }
    assert!(blog::get_post(None).is_none());
}

#[test]
fn create_post_by_the_logged_in_user() {
    let g = UserGuard::new(42, "x".to_string());
    let p: NewPost = blog::create_post("T".to_string(), "C".to_string(), &g);
    assert_eq!(p.title, "T");
    assert_eq!(p.text, "C");
    assert_eq!(p.author, 42);
    assert!(is_random_uuid(p.id));
}

#[test]
fn create_post_responses() {
    let ok = blog::create_post_response(Some(sample_post("My first post")));
    assert_eq!(ok.to, "/blog/My first post");
    assert_eq!(ok.kind, FlashKind::Success);
    assert_eq!(ok.message, "Successfully created new blog entry: My first post");
    let err = blog::create_post_response(None);
    assert_eq!(err.to, "/blog/new");
    assert_eq!(err.kind, FlashKind::Error);
    assert_eq!(err.message, "error creating post");
}

#[test]
fn new_post_form() {
    let g = UserGuard::new(1, "x".to_string());
    assert_eq!(blog::new_post(&g).template(), "new_blog");
}

#[test]
fn hashing_results() {
    assert_eq!(hash_result(Ok("h".to_string())), Ok("h".to_string()));
    let refused = bcrypt::hash("pw", 3);
    assert!(refused.is_err());
    assert_eq!(hash_result(refused), Err(HashError::Bcrypt));
    let u = new_user_with_password("n".to_string(), "pw").unwrap();
    assert_eq!(u.password.len(), 60);
    assert!(u.password.is_ascii());
}

#[test]
fn failed_login_message_shows_on_the_form() {
    let failed = login(None, "test123").err().unwrap();
    match login_page(Some(failed.flash_message), None) {
        Ok(Page::Login { flash }) => assert_eq!(flash.as_deref(), Some("Invalid username/password")),
        _ => panic!("expected the login form"),
    }
}

#[test]
fn hashes_use_the_default_cost() {
    let u = new_user_with_password("n".to_string(), "pw").unwrap();
    assert!(u.password.starts_with("$2b$12$"));
}
