//! The blog: showing a post by its title, and creating posts.
use vstd::prelude::*;
use vstd::string::*;
use crate::auth::UserGuard;
use crate::http::{owned, FlashKind, FlashRedirect, Handler, Method, Page, RouteSpec};
use crate::models::{NewPost, Post};

verus! {

/// The routes of this module, as (method, path, rank, handler), in mounting order.
pub open spec fn route_table() -> Seq<(Method, Seq<char>, Option<isize>, Handler)> {
    seq![
        (Method::Get, "/<title>"@, Some(1isize), Handler::GetPost),
        (Method::Post, "/"@, None::<isize>, Handler::CreatePost),
        (Method::Get, "/new"@, None::<isize>, Handler::NewPost),
    ]
}

/// The routes of this module, in the order they are mounted.
pub fn routes() -> (r: Vec<RouteSpec>)
    ensures
        r@.map_values(|s: RouteSpec| s@) == route_table(),
{
    let r = vec![
        RouteSpec { method: Method::Get, path: "/<title>", rank: Some(1), handler: Handler::GetPost },
        RouteSpec { method: Method::Post, path: "/", rank: None, handler: Handler::CreatePost },
        RouteSpec { method: Method::Get, path: "/new", rank: None, handler: Handler::NewPost },
    ];
    assert(r@.map_values(|s: RouteSpec| s@) =~= route_table());
    r
}

/// The page of the post that the lookup by title found; no page (404) when
/// there is none.
pub fn get_post(found: Option<Post>) -> (r: Option<Page>)
    ensures
        match found {
            Some(p) => r == Some(Page::SinglePost { post: p }),
            None => r is None,
        },
{
    match found {
        Some(post) => Some(Page::SinglePost { post }),
        None => None,
    }
}

/// The post to insert for a submitted new-post form: its title and content,
/// by the logged-in user.
pub fn create_post(title: String, content: String, user: &UserGuard) -> (p: NewPost)
    ensures
        p.title == title,
        p.text == content,
        p.author == user@.0,
        crate::models::is_random_uuid(p.id),
{
    NewPost::new(title, content, user.id())
}

/// The answer to a new-post form, given the post that the insert stored, or
/// `None` when the insert failed: a redirect to the new post with a success
/// message, or back to the form with an error message.
pub fn create_post_response(inserted: Option<Post>) -> (r: FlashRedirect)
    ensures
        match inserted {
            Some(p) => {
                &&& r.to@ == "/blog/"@ + p.title@
                &&& r.kind == FlashKind::Success
                &&& r.message@ == "Successfully created new blog entry: "@ + p.title@
            },
            None => {
                &&& r.to@ == "/blog/new"@
                &&& r.kind == FlashKind::Error
                &&& r.message@ == "error creating post"@
            },
        },
{
    match inserted {
        Some(post) => {
            let title = post.title;
            let mut to = owned("/blog/");
            to.append(title.as_str());
            let mut message = owned("Successfully created new blog entry: ");
            message.append(title.as_str());
            FlashRedirect { to, kind: FlashKind::Success, message }
        },
        None => FlashRedirect {
            to: owned("/blog/new"),
            kind: FlashKind::Error,
            message: owned("error creating post"),
        },
    }
}

/// The form for a new post; only a logged-in user gets it.
pub fn new_post(_user: &UserGuard) -> (p: Page)
    ensures
        p is NewBlog,
{
    Page::NewBlog
}

} // verus!
