//! Logging in and out, and the guard that marks a request as coming from a
//! logged-in user. Passwords are checked with bcrypt.
use vstd::prelude::*;
use vstd::utf8::is_ascii_chars;
use crate::decimal::digit_char;
use crate::http::{
    owned, Failure, FlashKind, FlashRedirect, Handler, Method, Page, Redirect, RouteSpec,
    UNAUTHORIZED,
};
use crate::models::{NewUser, User};

verus! {

#[verifier::external_type_specification]
#[verifier::external_body]
pub struct ExBcryptError(bcrypt::BcryptError);

/// What `bcrypt::verify(password, hash)` gives: `Some(b)` for `Ok(b)`, and
/// `None` for an error.
pub uninterp spec fn bcrypt_verify_outcome(password: Seq<char>, hash: Seq<char>) -> Option<bool>;

/// Calls `bcrypt::verify`, which reads the cost and salt out of `hash`,
/// hashes `password` with them and compares. The result depends on the two
/// arguments alone and is named `bcrypt_verify_outcome`; the contract also
/// states what the crate's `split_hash` shows: a hash that is not 60 ASCII
/// characters is refused with an error.
#[verifier::external_body]
fn bcrypt_verify(password: &str, hash: &str) -> (r: Result<bool, bcrypt::BcryptError>)
    ensures
        match r {
            Ok(b) => bcrypt_verify_outcome(password@, hash@) == Some(b),
            Err(_) => bcrypt_verify_outcome(password@, hash@) is None,
        },
        !(hash@.len() == 60 && is_ascii_chars(hash@)) ==> r is Err,
{
    bcrypt::verify(password, hash)
}

/// Calls `bcrypt::hash`, which hashes `password` with a fresh random salt.
/// The hash is random and gets no name; the contract states what holds of
/// every outcome by the crate's source: a cost outside 4..=31 is refused, and
/// a hash that is returned is 60 ASCII characters that `bcrypt::verify`
/// accepts for the same password, and it begins with `$2b$`, the cost in two
/// decimal digits and `$` (`HashParts::write_for_version` with version 2b).
#[verifier::external_body]
fn bcrypt_hash(password: &str, cost: u32) -> (r: Result<String, bcrypt::BcryptError>)
    ensures
        !(4 <= cost <= 31) ==> r is Err,
        r matches Ok(h) ==> h@.len() == 60 && is_ascii_chars(h@) && bcrypt_verify_outcome(
            password@,
            h@,
        ) == Some(true),
        r matches Ok(h) ==> h@.subrange(0, 7) == seq![
            '$',
            '2',
            'b',
            '$',
            digit_char((cost / 10) as int),
            digit_char((cost % 10) as int),
            '$',
        ],
{
    bcrypt::hash(password, cost)
}

/// Gives `bcrypt::DEFAULT_COST`, which the crate sets to 12.
#[verifier::external_body]
fn bcrypt_default_cost() -> (c: u32)
    ensures
        c == 12,
{
    bcrypt::DEFAULT_COST
}

/// The logged-in user that a request comes from: the user's id and name.
/// Only a successful login, or a session cookie that the application read
/// back, makes one.
#[derive(Clone, Debug)]
pub struct UserGuard {
    id: u128,
    name: String,
}

impl View for UserGuard {
    type V = (u128, Seq<char>);

    closed spec fn view(&self) -> (u128, Seq<char>) {
        (self.id, self.name@)
    }
}

impl UserGuard {
    /// The guard of the user `id` called `name`, as read back from the
    /// session cookie.
    pub fn new(id: u128, name: String) -> (g: UserGuard)
        ensures
            g@ == (id, name@),
    {
        UserGuard { id, name }
    }

    pub fn id(&self) -> (id: u128)
        ensures
            id == self@.0,
    {
        self.id
    }

    pub fn name(&self) -> (name: &str)
        ensures
            name@ == self@.1,
    {
        self.name.as_str()
    }

    /// Lets a request through when its session cookie held a user, and
    /// answers it with "401 Unauthorized" otherwise.
    pub fn from_cookie(parsed: Option<UserGuard>) -> (r: Result<UserGuard, u16>)
        ensures
            match parsed {
                Some(u) => r == Ok::<UserGuard, u16>(u),
                None => r == Err::<UserGuard, u16>(UNAUTHORIZED),
            },
    {
        match parsed {
            Some(u) => Ok(u),
            None => Err(UNAUTHORIZED),
        }
    }
}

/// The routes of this module, as (method, path, rank, handler), in mounting order.
pub open spec fn route_table() -> Seq<(Method, Seq<char>, Option<isize>, Handler)> {
    seq![
        (Method::Post, "/login"@, None::<isize>, Handler::Login),
        (Method::Post, "/logout"@, None::<isize>, Handler::Logout),
        (Method::Get, "/login"@, Some(2isize), Handler::LoginPage),
        (Method::Get, "/"@, Some(0isize), Handler::UserIndex),
    ]
}

/// The routes of this module, in the order they are mounted.
pub fn routes() -> (r: Vec<RouteSpec>)
    ensures
        r@.map_values(|s: RouteSpec| s@) == route_table(),
{
    let r = vec![
        RouteSpec { method: Method::Post, path: "/login", rank: None, handler: Handler::Login },
        RouteSpec { method: Method::Post, path: "/logout", rank: None, handler: Handler::Logout },
        RouteSpec { method: Method::Get, path: "/login", rank: Some(2), handler: Handler::LoginPage },
        RouteSpec { method: Method::Get, path: "/", rank: Some(0), handler: Handler::UserIndex },
    ];
    assert(r@.map_values(|s: RouteSpec| s@) =~= route_table());
    r
}

/// Whether a login with `password` succeeds for the user that the lookup by
/// name found: there is one, and bcrypt accepts the password for its hash.
pub open spec fn login_accepted(found: Option<User>, password: Seq<char>) -> bool {
    found matches Some(u) && bcrypt_verify_outcome(password, u.password@) == Some(true)
}

/// Whether a login succeeds is decided by bcrypt alone: it succeeds exactly
/// when a user was found and bcrypt accepts the password for that user's
/// stored hash, so two users with the same stored hash are accepted for the
/// same passwords, whatever their ids, names or privileges; and no login
/// succeeds when no user was found.
pub proof fn lemma_login_decided_by_stored_hash(u: User, v: User, password: Seq<char>)
    requires
        u.password@ == v.password@,
    ensures
        login_accepted(Some(u), password) <==> bcrypt_verify_outcome(password, u.password@)
            == Some(true),
        login_accepted(Some(u), password) == login_accepted(Some(v), password),
        !login_accepted(None, password),
{
}

/// What a successful login hands back: the guard to store in the session
/// cookie, and the redirect to the start page.
#[derive(Clone, Debug)]
pub struct LoginSuccess {
    pub guard: UserGuard,
    pub redirect: FlashRedirect,
}

/// What a failed login answers: the refusal, and the error flash message
/// that the login form shows on the next request for it.
#[derive(Clone, Debug)]
pub struct LoginFailure {
    pub failure: Failure,
    pub flash_kind: FlashKind,
    pub flash_message: String,
}

/// Handles a submitted login form, given the user that the lookup by the
/// submitted name found (if any) and the submitted password.
pub fn login(found: Option<User>, password: &str) -> (r: Result<LoginSuccess, LoginFailure>)
    ensures
        r is Ok <==> login_accepted(found, password@),
        r is Ok <==> (found is Some && bcrypt_verify_outcome(password@, found->0.password@) == Some(
            true,
        )),
        r matches Ok(s) ==> {
            &&& s.guard@ == (found->0.id, found->0.name@)
            &&& s.redirect.to@ == "/"@
            &&& s.redirect.kind == FlashKind::Success
            &&& s.redirect.message@ == "Successfully logged in"@
        },
        r matches Err(f) ==> {
            &&& f.failure.status == UNAUTHORIZED
            &&& f.failure.reason@ == "Invalid username/password"@
            &&& f.flash_kind == FlashKind::Error
            &&& f.flash_message@ == "Invalid username/password"@
        },
        found matches Some(u) && !(u.password@.len() == 60 && is_ascii_chars(u.password@))
            ==> r is Err,
{
    let user = match found {
        Some(user) => user,
        None => return Err(login_failure()),
    };
    match bcrypt_verify(password, user.password.as_str()) {
        Ok(true) => {
            let guard = UserGuard { id: user.id, name: user.name };
            let redirect = FlashRedirect {
                to: owned("/"),
                kind: FlashKind::Success,
                message: owned("Successfully logged in"),
            };
            Ok(LoginSuccess { guard, redirect })
        },
        _ => Err(login_failure()),
    }
}

fn login_failure() -> (f: LoginFailure)
    ensures
        f.failure.status == UNAUTHORIZED,
        f.failure.reason@ == "Invalid username/password"@,
        f.flash_kind == FlashKind::Error,
        f.flash_message@ == "Invalid username/password"@,
{
    LoginFailure {
        failure: Failure { status: UNAUTHORIZED, reason: "Invalid username/password" },
        flash_kind: FlashKind::Error,
        flash_message: owned("Invalid username/password"),
    }
}

/// Handles a logout: the application drops the session cookie (if there is
/// one) and answers with this redirect to the login page.
pub fn logout() -> (r: FlashRedirect)
    ensures
        r.to@ == "/login"@,
        r.kind == FlashKind::Success,
        r.message@ == "Successfully logged out."@,
{
    FlashRedirect {
        to: owned("/login"),
        kind: FlashKind::Success,
        message: owned("Successfully logged out."),
    }
}

/// The login form, showing the flash message of the last attempt if any; a
/// user who is already logged in is sent to the start page instead.
pub fn login_page(flash: Option<String>, user: Option<UserGuard>) -> (r: Result<Page, Redirect>)
    ensures
        user is Some ==> (r matches Err(red) && red.to@ == "/"@),
        user is None ==> (r matches Ok(Page::Login { flash: f }) && f == flash),
{
    match user {
        Some(_) => Err(Redirect { to: owned("/") }),
        None => Ok(Page::Login { flash }),
    }
}

/// The start page of a logged-in user.
pub fn user_index(user: &UserGuard) -> (p: Page)
    ensures
        p matches Page::Index { user_id } && user_id == user@.0,
{
    Page::Index { user_id: user.id() }
}

/// Why no password hash could be made: bcrypt reported an error (it refuses
/// a bad cost, and fails when it cannot get randomness for the salt).
#[derive(PartialEq, Eq, Structural, Clone, Copy, Debug)]
pub enum HashError {
    Bcrypt,
}

/// What `hash_password` answers for each result of bcrypt's hashing: the
/// hash itself, or `HashError::Bcrypt` for any error of bcrypt's.
pub fn hash_result(hashed: Result<String, bcrypt::BcryptError>) -> (r: Result<String, HashError>)
    ensures
        match hashed {
            Ok(h) => r == Ok::<String, HashError>(h),
            Err(_) => r == Err::<String, HashError>(HashError::Bcrypt),
        },
{
    match hashed {
        Ok(h) => Ok(h),
        Err(_) => Err(HashError::Bcrypt),
    }
}

/// Hashes `password` with bcrypt's default cost (12), for storing as a
/// user's password. Whether bcrypt succeeds rests on the system's randomness
/// for the salt; what is answered for its result is `hash_result`.
pub fn hash_password(password: &str) -> (r: Result<String, HashError>)
    ensures
        r matches Ok(h) ==> h@.len() == 60 && is_ascii_chars(h@) && bcrypt_verify_outcome(
            password@,
            h@,
        ) == Some(true),
        r matches Ok(h) ==> h@.subrange(0, 7) == "$2b$12$"@,
        r matches Err(e) ==> e == HashError::Bcrypt,
{
    proof {
        reveal_strlit("$2b$12$");
    }
    let cost = bcrypt_default_cost();
    let r = hash_result(bcrypt_hash(password, cost));
    assert(r matches Ok(h) ==> h@.subrange(0, 7) =~= "$2b$12$"@);
    r
}

/// A new user called `name` whose password is `password`, stored hashed.
/// Such a user can log in with that password.
pub fn new_user_with_password(name: String, password: &str) -> (r: Result<NewUser, HashError>)
    ensures
        r matches Ok(u) ==> u.name == name && login_accepted(
            Some(User { id: u.id, name: u.name, privileges: 0, password: u.password }),
            password@,
        ),
        r matches Ok(u) ==> crate::models::is_random_uuid(u.id) && u.password@.len() == 60
            && is_ascii_chars(u.password@) && u.password@.subrange(0, 7) == "$2b$12$"@,
        r matches Err(e) ==> e == HashError::Bcrypt,
{
    let hashed = hash_password(password)?;
    Ok(NewUser::new(name, hashed))
}

} // verus!
