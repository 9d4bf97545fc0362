//! The records exchanged with the remote backend.

use vstd::prelude::*;

verus! {

/// How the backend names a user.
pub type UserIdT = String;

/// A news article as the backend stores and analyses it.
#[derive(Debug)]
pub struct NewsContent {
    pub id: Option<UserIdT>,
    pub title: String,
    pub content: Option<String>,
    pub authors: String,
    pub publication_date: Option<String>,
    pub url: String,
    pub summary: Option<String>,
}

impl NewsContent {
    /// An article with nothing filled in: the body of a request that asks
    /// the backend to fetch and analyse an address.
    pub fn blank() -> (news: Self)
        ensures
            news.id is None,
            news.title@ == Seq::<char>::empty(),
            news.content is None,
            news.authors@ == Seq::<char>::empty(),
            news.publication_date is None,
            news.url@ == Seq::<char>::empty(),
            news.summary is None,
    {
        NewsContent {
            id: None,
            title: String::new(),
            authors: String::new(),
            publication_date: None,
            content: None,
            url: String::new(),
            summary: None,
        }
    }
}

/// The articles a user has analysed so far, if the backend reported any.
#[derive(Debug)]
pub struct UserHistoryT(pub Option<Vec<NewsContent>>);

impl Default for UserHistoryT {
    fn default() -> (history: Self)
        ensures
            history.0 is None,
    {
        UserHistoryT(None)
    }
}

/// A user account.
#[derive(Debug)]
pub struct User {
    pub id: String,
    pub email: String,
    pub password: Option<String>,
}

impl Default for User {
    fn default() -> (user: Self)
        ensures
            user.id@ == Seq::<char>::empty(),
            user.email@ == Seq::<char>::empty(),
            user.password is None,
    {
        User { id: String::new(), email: String::new(), password: None }
    }
}

/// A user as the backend returns it after a login or a registration.
#[derive(Debug)]
pub struct PublicUserWithId {
    pub id: String,
    pub email: String,
    pub password: Option<String>,
}

impl Default for PublicUserWithId {
    fn default() -> (user: Self)
        ensures
            user.id@ == Seq::<char>::empty(),
            user.email@ == Seq::<char>::empty(),
            user.password is None,
    {
        PublicUserWithId { id: String::new(), email: String::new(), password: None }
    }
}

/// The credentials a user types into the login or registration form.
#[derive(Debug)]
pub struct PublicUserCred {
    pub email: String,
    pub password: String,
}

} // verus!
