//! The credential store: one password hash under each username.

use vstd::prelude::*;
use crate::error::AuthError;
use crate::model::text_of;
use crate::password::{hash_password, password_accepted, verify_password};

verus! {

/// A registered user: the username and the hash of the password, never the
/// password itself.
struct UserRecord {
    username: String,
    password_hash: String,
}

/// The accounts that a list of users holds: the password hash under each
/// username.
spec fn accounts(rows: Seq<UserRecord>) -> Map<Seq<char>, Seq<char>>
    decreases rows.len(),
{
    if rows.len() == 0 {
        Map::empty()
    } else {
        accounts(rows.drop_last()).insert(rows.last().username@, rows.last().password_hash@)
    }
}

/// Whether no username is held by two users.
spec fn names_distinct(rows: Seq<UserRecord>) -> bool {
    forall|i: int, j: int|
        0 <= i < rows.len() && 0 <= j < rows.len() && i != j ==> (#[trigger] rows[i]).username@
            != (#[trigger] rows[j]).username@
}

/// The accounts hold exactly the usernames of the list, each with the hash
/// of its user.
proof fn lemma_accounts(rows: Seq<UserRecord>)
    requires
        names_distinct(rows),
    ensures
        forall|name: Seq<char>| #[trigger]
            accounts(rows).contains_key(name) ==> exists|i: int|
                0 <= i < rows.len() && (#[trigger] rows[i]).username@ == name,
        forall|i: int|
            0 <= i < rows.len() ==> accounts(rows).contains_key((#[trigger] rows[i]).username@)
                && accounts(rows)[rows[i].username@] == rows[i].password_hash@,
    decreases rows.len(),
{
    if rows.len() > 0 {
        let front = rows.drop_last();
        let last = rows.last();
        assert(names_distinct(front)) by {
            assert forall|i: int, j: int|
                0 <= i < front.len() && 0 <= j < front.len() && i != j implies (
            #[trigger] front[i]).username@ != (#[trigger] front[j]).username@ by {
                assert(front[i] == rows[i]);
                assert(front[j] == rows[j]);
            }
        }
        lemma_accounts(front);
        assert forall|name: Seq<char>| #[trigger] accounts(rows).contains_key(name) implies exists|
            i: int,
        |
            0 <= i < rows.len() && (#[trigger] rows[i]).username@ == name by {
            if name == last.username@ {
                assert(rows[rows.len() - 1].username@ == name);
            } else {
                assert(accounts(front).contains_key(name));
                let i = choose|i: int|
                    0 <= i < front.len() && (#[trigger] front[i]).username@ == name;
                assert(rows[i].username@ == name);
            }
        }
        assert forall|i: int| 0 <= i < rows.len() implies accounts(rows).contains_key(
            (#[trigger] rows[i]).username@,
        ) && accounts(rows)[rows[i].username@] == rows[i].password_hash@ by {
            if i < rows.len() - 1 {
                assert(front[i] == rows[i]);
                assert(rows[i].username@ != rows[rows.len() - 1].username@);
            }
        }
    }
}

/// Users by username.
pub struct CredentialStore {
    rows: Vec<UserRecord>,
}

impl View for CredentialStore {
    type V = Map<Seq<char>, Seq<char>>;

    /// The password hash under each registered username.
    closed spec fn view(&self) -> Map<Seq<char>, Seq<char>> {
        accounts(self.rows@)
    }
}

/// What a login answers, given the hash stored for the username, if any:
/// a refusal that tells an unknown account from a wrong password.
pub open spec fn login_outcome(stored: Option<Seq<char>>, password: Seq<char>) -> Result<
    (),
    AuthError,
> {
    match stored {
        None => Err(AuthError::AccountNotFound),
        Some(hash) => if password_accepted(password, hash) {
            Ok(())
        } else {
            Err(AuthError::InvalidCredentials)
        },
    }
}

/// The hash stored under a username, if the username is registered.
pub open spec fn stored_hash(accounts: Map<Seq<char>, Seq<char>>, username: Seq<char>) -> Option<
    Seq<char>,
> {
    if accounts.contains_key(username) {
        Some(accounts[username])
    } else {
        None
    }
}

/// What storing a user under a username answers: a registered username is
/// refused.
pub open spec fn registration_outcome(
    accounts: Map<Seq<char>, Seq<char>>,
    username: Seq<char>,
) -> Result<(), AuthError> {
    if accounts.contains_key(username) {
        Err(AuthError::DuplicateUsername)
    } else {
        Ok(())
    }
}

/// The accounts after a user is stored under a username: unchanged where
/// the username is registered, so that a stored hash is never overwritten.
pub open spec fn with_user(
    accounts: Map<Seq<char>, Seq<char>>,
    username: Seq<char>,
    password_hash: Seq<char>,
) -> Map<Seq<char>, Seq<char>> {
    if accounts.contains_key(username) {
        accounts
    } else {
        accounts.insert(username, password_hash)
    }
}

/// Decides a login from the hash that the lookup of the username gave.
pub fn verify_login(stored: Option<String>, password: &str) -> (r: Result<(), AuthError>)
    ensures
        r == login_outcome(text_of(stored), password@),
{
    match stored {
        None => Err(AuthError::AccountNotFound),
        Some(hash) => {
            if verify_password(password, hash.as_str()) {
                Ok(())
            } else {
                Err(AuthError::InvalidCredentials)
            }
        },
    }
}

impl CredentialStore {
    /// The store's invariant: no username is held twice.
    pub closed spec fn wf(&self) -> bool {
        names_distinct(self.rows@)
    }

    /// An empty store.
    pub fn new() -> (store: Self)
        ensures
            store.wf(),
            store@ == Map::<Seq<char>, Seq<char>>::empty(),
    {
        CredentialStore { rows: Vec::new() }
    }

    /// The number of registered users.
    pub fn len(&self) -> (n: usize)
        requires
            self.wf(),
        ensures
            n == self@.len(),
            self@.dom().finite(),
    {
        proof {
            lemma_accounts_len(self.rows@);
        }
        self.rows.len()
    }

    /// The hash stored under the username, if the username is registered.
    pub fn lookup(&self, username: &str) -> (stored: Option<String>)
        requires
            self.wf(),
        ensures
            text_of(stored) == stored_hash(self@, username@),
    {
        let wanted: String = username.to_owned();
        proof {
            lemma_accounts(self.rows@);
        }
        let mut i: usize = 0;
        while i < self.rows.len()
            invariant
                i <= self.rows.len(),
                wanted@ == username@,
                forall|j: int| 0 <= j < i ==> (#[trigger] self.rows@[j]).username@ != username@,
                forall|k: int|
                    0 <= k < self.rows.len() ==> self@.contains_key(
                        (#[trigger] self.rows@[k]).username@,
                    ) && self@[self.rows@[k].username@] == self.rows@[k].password_hash@,
            decreases self.rows.len() - i,
        {
            if self.rows[i].username == wanted {
                return Some(self.rows[i].password_hash.clone());
            }
            i += 1;
        }
        None
    }

    /// Stores a user with an already computed password hash. A username
    /// that is registered is refused and its stored hash is left as it is.
    pub fn insert_user(&mut self, username: String, password_hash: String) -> (r: Result<
        (),
        AuthError,
    >)
        requires
            old(self).wf(),
        ensures
            final(self).wf(),
            r == registration_outcome(old(self)@, username@),
            final(self)@ == with_user(old(self)@, username@, password_hash@),
    {
        if self.lookup(username.as_str()).is_some() {
            return Err(AuthError::DuplicateUsername);
        }
        proof {
            lemma_accounts(self.rows@);
        }
        let ghost before = self.rows@;
        let record = UserRecord { username, password_hash };
        self.rows.push(record);
        proof {
            assert(self.rows@.drop_last() =~= before);
            assert forall|i: int, j: int|
                0 <= i < self.rows@.len() && 0 <= j < self.rows@.len() && i != j implies (
            #[trigger] self.rows@[i]).username@ != (#[trigger] self.rows@[j]).username@ by {
                if i < before.len() {
                    assert(self.rows@[i] == before[i]);
                }
                if j < before.len() {
                    assert(self.rows@[j] == before[j]);
                }
            }
        }
        Ok(())
    }

    /// Registers a user: hashes the password with a fresh salt and stores
    /// the hash under the username. A username that is registered is
    /// refused and keeps its hash. For a new username, whether hashing
    /// succeeds rests with the source of randomness; after a success the
    /// password is accepted for the stored hash.
    pub fn register(&mut self, username: &str, password: &str) -> (r: Result<(), AuthError>)
        requires
            old(self).wf(),
        ensures
            final(self).wf(),
            old(self)@.contains_key(username@) ==> r == Err::<(), AuthError>(
                AuthError::DuplicateUsername,
            ),
            r is Ok ==> {
                &&& !old(self)@.contains_key(username@)
                &&& final(self)@.contains_key(username@)
                &&& final(self)@ == old(self)@.insert(username@, final(self)@[username@])
                &&& password_accepted(password@, final(self)@[username@])
            },
            r matches Err(e) ==> {
                &&& final(self)@ == old(self)@
                &&& (e is HashingFailed || e == AuthError::DuplicateUsername)
                &&& (e == AuthError::DuplicateUsername <==> old(self)@.contains_key(username@))
            },
    {
        if self.lookup(username).is_some() {
            return Err(AuthError::DuplicateUsername);
        }
        match hash_password(password) {
            Ok(hash) => self.insert_user(username.to_owned(), hash),
            Err(e) => Err(e),
        }
    }

    /// Verifies a login: the username must be registered and the password
    /// must be accepted for the stored hash. Nothing is issued on success.
    pub fn login(&self, username: &str, password: &str) -> (r: Result<(), AuthError>)
        requires
            self.wf(),
        ensures
            r == login_outcome(stored_hash(self@, username@), password@),
    {
        verify_login(self.lookup(username), password)
    }
}

/// A list of users without a repeated username holds as many accounts as
/// users.
proof fn lemma_accounts_len(rows: Seq<UserRecord>)
    requires
        names_distinct(rows),
    ensures
        accounts(rows).dom().finite(),
        accounts(rows).len() == rows.len(),
    decreases rows.len(),
{
    if rows.len() > 0 {
        let front = rows.drop_last();
        assert forall|i: int, j: int|
            0 <= i < front.len() && 0 <= j < front.len() && i != j implies (
        #[trigger] front[i]).username@ != (#[trigger] front[j]).username@ by {
            assert(front[i] == rows[i]);
            assert(front[j] == rows[j]);
        }
        lemma_accounts_len(front);
        lemma_accounts(front);
        if accounts(front).contains_key(rows.last().username@) {
            let i = choose|i: int|
                0 <= i < front.len() && (#[trigger] front[i]).username@ == rows.last().username@;
            assert(rows[i] == front[i]);
            assert(rows[rows.len() - 1].username@ == rows[i].username@);
        }
    }
}

} // verus!
