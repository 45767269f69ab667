//! The shapes of what the server answers: routes, statuses, redirects with a
//! flash message, and the pages it renders. The web framework in the
//! application turns these values into responses.
use vstd::prelude::*;
use vstd::string::*;
use crate::models::{Post, User};

verus! {

/// The HTTP method of a route.
#[derive(PartialEq, Eq, Structural, Clone, Copy, Debug)]
pub enum Method {
    Get,
    Post,
}

/// The request handlers of the server, one for each route.
#[derive(PartialEq, Eq, Structural, Clone, Copy, Debug)]
pub enum Handler {
    Login,
    Logout,
    LoginPage,
    UserIndex,
    GetPost,
    CreatePost,
    NewPost,
    Files,
    Index,
    GetBrightness,
    SetBrightness,
    GetConnection,
}

/// A route: the method and path pattern that select `handler`, and the rank
/// that orders routes which match the same request (`None`: the default).
#[derive(Clone, Copy, Debug)]
pub struct RouteSpec {
    pub method: Method,
    pub path: &'static str,
    pub rank: Option<isize>,
    pub handler: Handler,
}

impl View for RouteSpec {
    type V = (Method, Seq<char>, Option<isize>, Handler);

    open spec fn view(&self) -> (Method, Seq<char>, Option<isize>, Handler) {
        (self.method, self.path@, self.rank, self.handler)
    }
}

/// The error handlers of the server.
#[derive(PartialEq, Eq, Structural, Clone, Copy, Debug)]
pub enum Catcher {
    NotFound,
    Blocked,
}

/// An error handler and the status code that it answers.
#[derive(PartialEq, Eq, Structural, Clone, Copy, Debug)]
pub struct CatcherSpec {
    pub code: u16,
    pub catcher: Catcher,
}

/// A set of routes mounted under the path `base`.
#[derive(Clone, Debug)]
pub struct Mount {
    pub base: &'static str,
    pub routes: Vec<RouteSpec>,
}

pub const UNAUTHORIZED: u16 = 401;

pub const NOT_FOUND: u16 = 404;

pub const SERVICE_UNAVAILABLE: u16 = 503;

/// Whether a flash message reports a success or an error.
#[derive(PartialEq, Eq, Structural, Clone, Copy, Debug)]
pub enum FlashKind {
    Success,
    Error,
}

/// A redirect to `to` that carries a flash message for the next page.
#[derive(Clone, Debug)]
pub struct FlashRedirect {
    pub to: String,
    pub kind: FlashKind,
    pub message: String,
}

/// A plain redirect to `to`.
#[derive(Clone, Debug)]
pub struct Redirect {
    pub to: String,
}

/// A refusal: a status code and the text sent with it.
#[derive(Clone, Copy, Debug)]
pub struct Failure {
    pub status: u16,
    pub reason: &'static str,
}

/// The pages that the server renders from templates, with what they show.
#[derive(Debug)]
pub enum Page {
    /// The login form, with the flash message of the last attempt if any.
    Login { flash: Option<String> },
    /// The start page of a logged-in user.
    Index { user_id: u128 },
    /// One blog post.
    SinglePost { post: Post },
    /// The form for a new blog post.
    NewBlog,
    /// All posts and all users.
    Overview { posts: Vec<Post>, users: Vec<User> },
}

pub open spec fn template_of(page: Page) -> Seq<char> {
    match page {
        Page::Login { .. } => "login"@,
        Page::Index { .. } => "index"@,
        Page::SinglePost { .. } => "single_post"@,
        Page::NewBlog => "new_blog"@,
        Page::Overview { .. } => "test"@,
    }
}

/// Which kind of page `page` is, as a number.
pub open spec fn page_kind(page: Page) -> int {
    match page {
        Page::Login { .. } => 0,
        Page::Index { .. } => 1,
        Page::SinglePost { .. } => 2,
        Page::NewBlog => 3,
        Page::Overview { .. } => 4,
    }
}

/// Each kind of page has a template of its own: pages of different kinds are
/// rendered with different templates, and the login form with the template
/// `login`.
pub proof fn lemma_templates_of_kinds_differ(p: Page, q: Page)
    ensures
        page_kind(p) != page_kind(q) ==> template_of(p) != template_of(q),
        p is Login ==> template_of(p) == seq!['l', 'o', 'g', 'i', 'n'],
{
    reveal_strlit("login");
    reveal_strlit("index");
    reveal_strlit("single_post");
    reveal_strlit("new_blog");
    reveal_strlit("test");
    if page_kind(p) != page_kind(q) {
        let a = template_of(p);
        let b = template_of(q);
        if a.len() == b.len() {
            assert(a[0] != b[0]);
        }
    }
    if p is Login {
        assert(template_of(p) =~= seq!['l', 'o', 'g', 'i', 'n']);
    }
}

impl Page {
    /// The name of the template that renders this page.
    pub fn template(&self) -> (name: &'static str)
        ensures
            name@ == template_of(*self),
            *self is Login ==> name@ == "login"@,
    {
        match self {
            Page::Login { .. } => "login",
            Page::Index { .. } => "index",
            Page::SinglePost { .. } => "single_post",
            Page::NewBlog => "new_blog",
            Page::Overview { .. } => "test",
        }
    }
}

/// A text that a contract speaks of, as an owned string.
pub(crate) fn owned(s: &str) -> (r: String)
    ensures
        r@ == s@,
{
    String::from_str(s)
}

} // verus!
