//! Users and where they are kept.

use vstd::prelude::*;
use crate::auth::errors::AuthResult;
use crate::text::same_text;

verus! {

/// A user. Identifiers are the 128-bit values of UUIDs; times are
/// milliseconds since the epoch.
#[derive(Debug, Clone, PartialEq, Eq)]
pub struct User {
    pub id: u128,
    pub email: String,
    pub email_verified: bool,
    /// The hash of the password; empty for a user without one.
    pub password_hash: String,
    /// The name shown for the user, if known.
    pub name: Option<String>,
    /// The address of the user's picture, if known.
    pub avatar_url: Option<String>,
    pub created_at_ms: i64,
    pub updated_at_ms: i64,
}

impl User {
    /// An equal user.
    pub fn duplicate(&self) -> (r: Self)
        ensures
            r == *self,
    {
        User {
            id: self.id,
            email: self.email.clone(),
            email_verified: self.email_verified,
            password_hash: self.password_hash.clone(),
            name: match &self.name {
                Some(s) => Some(s.clone()),
                None => None,
            },
            avatar_url: match &self.avatar_url {
                Some(s) => Some(s.clone()),
                None => None,
            },
            created_at_ms: self.created_at_ms,
            updated_at_ms: self.updated_at_ms,
        }
    }
}

/// Where users are kept. The contracts say what a call that succeeds gives
/// or does; whether a call succeeds is the repository's own matter.
pub trait UserRepository {
    /// The users that the repository keeps, in the order in which they were
    /// created.
    spec fn kept(&self) -> Seq<User>;

    /// The user with the identifier given, if there is one: the first such
    /// user among those kept.
    fn find_by_id(&self, id: u128) -> (r: AuthResult<Option<User>>)
        ensures
            r is Ok ==> r->Ok_0 == first_with_id(self.kept(), id),
    ;

    /// The user with the address given, if there is one: the first such
    /// user among those kept.
    fn find_by_email(&self, email: &str) -> (r: AuthResult<Option<User>>)
        ensures
            r is Ok ==> r->Ok_0 == first_with_email(self.kept(), email@),
    ;

    /// Keeps a new user, after those that are kept.
    fn create(&mut self, user: &User) -> (r: AuthResult<()>)
        ensures
            r is Ok ==> final(self).kept() == old(self).kept().push(*user),
    ;
}

/// The first user among `users` with the identifier given.
pub open spec fn first_with_id(users: Seq<User>, id: u128) -> Option<User>
    decreases users.len(),
{
    if users.len() == 0 {
        None
    } else if users[0].id == id {
        Some(users[0])
    } else {
        first_with_id(users.drop_first(), id)
    }
}

/// The first user among `users` with the address given.
pub open spec fn first_with_email(users: Seq<User>, email: Seq<char>) -> Option<User>
    decreases users.len(),
{
    if users.len() == 0 {
        None
    } else if users[0].email@ == email {
        Some(users[0])
    } else {
        first_with_email(users.drop_first(), email)
    }
}

/// Users kept in memory, in the order they were created.
#[derive(Debug)]
pub struct InMemoryUserRepository {
    users: Vec<User>,
}

impl InMemoryUserRepository {
    /// An empty repository.
    pub fn new() -> (r: Self)
        ensures
            r.kept() == Seq::<User>::empty(),
    {
        InMemoryUserRepository { users: Vec::new() }
    }
}

impl UserRepository for InMemoryUserRepository {
    closed spec fn kept(&self) -> Seq<User> {
        self.users@
    }

    fn find_by_id(&self, id: u128) -> (r: AuthResult<Option<User>>)
        ensures
            r == Ok::<Option<User>, crate::auth::errors::AuthError>(
                first_with_id(self.kept(), id),
            ),
    {
        let mut i: usize = 0;
        assert(self.users@.skip(0) =~= self.users@);
        while i < self.users.len()
            invariant
                i <= self.users@.len(),
                first_with_id(self.users@, id) == first_with_id(self.users@.skip(i as int), id),
            decreases self.users@.len() - i,
        {
            proof {
                let rest = self.users@.skip(i as int);
                assert(rest[0] == self.users@[i as int]);
                assert(rest.drop_first() =~= self.users@.skip(i + 1));
            }
            if self.users[i].id == id {
                return Ok(Some(self.users[i].duplicate()));
            }
            i = i + 1;
        }
        Ok(None)
    }

    fn find_by_email(&self, email: &str) -> (r: AuthResult<Option<User>>)
        ensures
            r == Ok::<Option<User>, crate::auth::errors::AuthError>(
                first_with_email(self.kept(), email@),
            ),
    {
        let mut i: usize = 0;
        assert(self.users@.skip(0) =~= self.users@);
        while i < self.users.len()
            invariant
                i <= self.users@.len(),
                first_with_email(self.users@, email@) == first_with_email(
                    self.users@.skip(i as int),
                    email@,
                ),
            decreases self.users@.len() - i,
        {
            proof {
                let rest = self.users@.skip(i as int);
                assert(rest[0] == self.users@[i as int]);
                assert(rest.drop_first() =~= self.users@.skip(i + 1));
            }
            if same_text(self.users[i].email.as_str(), email) {
                return Ok(Some(self.users[i].duplicate()));
            }
            i = i + 1;
        }
        Ok(None)
    }

    fn create(&mut self, user: &User) -> (r: AuthResult<()>)
        ensures
            r is Ok,
            final(self).kept() == old(self).kept().push(*user),
    {
        self.users.push(user.duplicate());
        Ok(())
    }
}

} // verus!
