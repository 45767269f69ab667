//! The records that the server keeps in its database: users and blog posts,
//! and the rows that create them. Ids are UUIDs, held as their 128-bit value.
use vstd::prelude::*;

verus! {

#[verifier::external_type_specification]
#[verifier::external_body]
pub struct ExNaiveDateTime(chrono::NaiveDateTime);

/// Whether `id` carries the version (4, random) and variant (RFC 4122) bits
/// of a randomly generated UUID.
pub open spec fn is_random_uuid(id: u128) -> bool {
    id & 0xF000_C000_0000_0000_0000u128 == 0x4000_8000_0000_0000_0000u128
}

/// Calls `uuid::Uuid::new_v4` and gives the UUID's 128-bit value
/// (`Uuid::as_u128`). The value is random; the contract claims only what the
/// crate's source sets in every outcome: the version and variant bits.
#[verifier::external_body]
fn new_random_uuid() -> (id: u128)
    ensures
        is_random_uuid(id),
{
    uuid::Uuid::new_v4().as_u128()
}

/// The column that a lookup compares.
#[derive(PartialEq, Eq, Structural, Clone, Copy, Debug)]
pub enum Column {
    /// `users.name`
    UserName,
    /// `posts.title`
    PostTitle,
}

/// A lookup of the rows whose `column` equals `value`; the application runs
/// it against the database and takes the first row it finds.
#[derive(Clone, Debug)]
pub struct FindBy {
    pub column: Column,
    pub value: String,
}

/// A registered user, as stored.
#[derive(Clone, Debug)]
pub struct User {
    pub id: u128,
    pub name: String,
    pub privileges: i16,
    /// The bcrypt hash of the user's password.
    pub password: String,
}

impl User {
    /// The lookup of the users called `name`.
    pub fn with_name(name: &str) -> (q: FindBy)
        ensures
            q.column == Column::UserName,
            q.value@ == name@,
    {
        FindBy { column: Column::UserName, value: crate::http::owned(name) }
    }
}

/// A user to be inserted.
#[derive(Clone, Debug)]
pub struct NewUser {
    pub id: u128,
    pub name: String,
    pub password: String,
}

impl NewUser {
    /// A new user with a fresh random id. Like `uuid::Uuid::new_v4`, it
    /// panics when the system gives no randomness.
    pub fn new(name: String, password: String) -> (u: NewUser)
        ensures
            u.name == name,
            u.password == password,
            is_random_uuid(u.id),
    {
        NewUser { id: new_random_uuid(), name, password }
    }
}

/// A blog post, as stored.
#[derive(Debug)]
pub struct Post {
    pub id: u128,
    pub title: String,
    pub text: String,
    pub author: u128,
    pub datetime: chrono::NaiveDateTime,
}

impl Post {
    /// A post as read from the database.
    pub fn from_row(
        id: u128,
        title: String,
        text: String,
        author: u128,
        datetime: chrono::NaiveDateTime,
    ) -> (p: Post)
        ensures
            p.id == id,
            p.title == title,
            p.text == text,
            p.author == author,
            p.datetime == datetime,
    {
        Post { id, title, text, author, datetime }
    }

    /// The lookup of the posts titled `title`.
    pub fn with_title(title: &str) -> (q: FindBy)
        ensures
            q.column == Column::PostTitle,
            q.value@ == title@,
    {
        FindBy { column: Column::PostTitle, value: crate::http::owned(title) }
    }

    pub fn get_uuid(&self) -> (id: u128)
        ensures
            id == self.id,
    {
        self.id
    }

    pub fn get_datetime(&self) -> (t: chrono::NaiveDateTime)
        ensures
            t == self.datetime,
    {
        self.datetime
    }
}

/// A blog post to be inserted; the database sets its time.
#[derive(Clone, Debug)]
pub struct NewPost {
    pub id: u128,
    pub title: String,
    pub text: String,
    pub author: u128,
}

impl NewPost {
    /// A new post by `author`, with a fresh random id. Like
    /// `uuid::Uuid::new_v4`, it panics when the system gives no randomness.
    pub fn new(title: String, text: String, author: u128) -> (p: NewPost)
        ensures
            p.title == title,
            p.text == text,
            p.author == author,
            is_random_uuid(p.id),
    {
        NewPost { id: new_random_uuid(), title, text, author }
    }

}

} // verus!
