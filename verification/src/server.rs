//! How the server is put together: which routes are mounted where, the
//! overview page, and the database connection that handlers ask for.
use vstd::prelude::*;
use crate::http::{Handler, Method, Mount, Page, RouteSpec, SERVICE_UNAVAILABLE};
use crate::models::{Post, User};

verus! {

/// The overview route of the server itself.
pub open spec fn index_route_table() -> Seq<(Method, Seq<char>, Option<isize>, Handler)> {
    seq![(Method::Get, "/"@, None::<isize>, Handler::Index)]
}

/// The overview page and a logged-in user's start page answer the same
/// request, GET `/`: the start page has the explicit rank 0, the overview
/// page the default rank; both are mounted at the root.
pub proof fn lemma_overview_and_start_page_share_get_root()
    ensures
        index_route_table().len() == 1,
        index_route_table()[0].0 == Method::Get,
        index_route_table()[0].0 == crate::auth::route_table()[3].0,
        index_route_table()[0].1 == crate::auth::route_table()[3].1,
        index_route_table()[0].1 == seq!['/'],
        crate::auth::route_table()[3].2 == Some(0isize),
        index_route_table()[0].2 is None,
        index_route_table()[0].3 == Handler::Index,
        crate::auth::route_table()[3].3 == Handler::UserIndex,
{
    reveal_strlit("/");
    assert("/"@ =~= seq!['/']);
}

/// The routes of the server and the path each set is mounted under, in
/// mounting order: the login routes and the static files at the root, the
/// blog under `/blog`.
pub fn mounts() -> (m: Vec<Mount>)
    ensures
        m@.len() == 4,
        m@[0].base@ == "/"@,
        m@[0].routes@.map_values(|s: RouteSpec| s@) == crate::auth::route_table(),
        m@[1].base@ == "/blog"@,
        m@[1].routes@.map_values(|s: RouteSpec| s@) == crate::blog::route_table(),
        m@[2].base@ == "/"@,
        m@[2].routes@.map_values(|s: RouteSpec| s@) == index_route_table(),
        m@[2].routes@.len() == 1 && m@[2].routes@[0].method == Method::Get
            && m@[2].routes@[0].path@ == "/"@ && m@[2].routes@[0].rank is None
            && m@[2].routes@[0].handler == Handler::Index,
        m@[3].base@ == "/"@,
        m@[3].routes@.map_values(|s: RouteSpec| s@) == crate::static_files::route_table(),
{
    let index = vec![
        RouteSpec { method: Method::Get, path: "/", rank: None, handler: Handler::Index },
    ];
    assert(index@.map_values(|s: RouteSpec| s@) =~= index_route_table());
    let mut m: Vec<Mount> = Vec::new();
    m.push(Mount { base: "/", routes: crate::auth::routes() });
    m.push(Mount { base: "/blog", routes: crate::blog::routes() });
    m.push(Mount { base: "/", routes: index });
    m.push(Mount { base: "/", routes: crate::static_files::routes() });
    m
}

/// The overview page: all posts and all users.
pub fn index(posts: Vec<Post>, users: Vec<User>) -> (p: Page)
    ensures
        p == (Page::Overview { posts, users }),
{
    Page::Overview { posts, users }
}

/// What a handler that needs the database gets, given the attempt to take a
/// connection from the pool: the connection, or "503 Service Unavailable".
pub fn pooled_connection<C, E>(got: Result<C, E>) -> (r: Result<C, u16>)
    ensures
        match got {
            Ok(c) => r == Ok::<C, u16>(c),
            Err(_) => r == Err::<C, u16>(SERVICE_UNAVAILABLE),
        },
{
    match got {
        Ok(c) => Ok(c),
        Err(_) => Err(SERVICE_UNAVAILABLE),
    }
}

} // verus!
