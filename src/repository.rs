//! The user repository: a storage capability, the mapping of its failures,
//! and an in-memory store.

use vstd::prelude::*;
use crate::account::Account;
use crate::error::CustomError;
use crate::model::User;

verus! {

/// How a storage operation failed.
#[derive(PartialEq, Eq, Structural, Clone, Copy, Debug)]
pub enum StoreError {
    /// The query matched no row.
    RowNotFound,
    /// A unique constraint refused the write.
    UniqueViolation,
    /// Any other failure (connection, query).
    Other,
}

/// A backing store for users and their accounts.
pub trait DbConnection {
    /// The user stored under `username`.
    fn fetch_user(&self, username: &str) -> (r: Result<User, StoreError>)
        ensures
            r is Ok ==> r->Ok_0.username@ == username@,
    ;

    /// Stores `user` and returns the id assigned to it.
    fn insert_user(&mut self, user: &User) -> (r: Result<i32, StoreError>);

    /// Stores `account` and returns the id assigned to it.
    fn insert_account(&mut self, account: &Account) -> (r: Result<i32, StoreError>);
}

/// Connection counts of a pool, for diagnostics only.
#[derive(PartialEq, Eq, Structural, Clone, Copy, Debug)]
pub struct PoolStats {
    pub size: u32,
    pub idle: u32,
}

impl PoolStats {
    /// Connections in use: those of the pool that are not idle.
    pub fn active(&self) -> (r: u32)
        ensures
            r == (if self.idle <= self.size {
                self.size - self.idle
            } else {
                0
            }),
    {
        if self.idle <= self.size {
            self.size - self.idle
        } else {
            0
        }
    }
}

/// The error a failed lookup reports: a missing row is an unknown user.
pub open spec fn lookup_error(e: StoreError) -> CustomError {
    match e {
        StoreError::RowNotFound => CustomError::UserNotFound,
        _ => CustomError::DBError,
    }
}

/// The error a failed user insertion reports: a unique violation is a taken name.
pub open spec fn user_insert_error(e: StoreError) -> CustomError {
    match e {
        StoreError::UniqueViolation => CustomError::UsernameExists,
        _ => CustomError::DBError,
    }
}

/// The error a failed account insertion reports.
pub open spec fn account_insert_error(e: StoreError) -> CustomError {
    match e {
        StoreError::UniqueViolation => CustomError::AccountExists,
        _ => CustomError::DBError,
    }
}

pub fn map_lookup_error(e: StoreError) -> (r: CustomError)
    ensures
        r == lookup_error(e),
{
    match e {
        StoreError::RowNotFound => CustomError::UserNotFound,
        _ => CustomError::DBError,
    }
}

pub fn map_user_insert_error(e: StoreError) -> (r: CustomError)
    ensures
        r == user_insert_error(e),
{
    match e {
        StoreError::UniqueViolation => CustomError::UsernameExists,
        _ => CustomError::DBError,
    }
}

pub fn map_account_insert_error(e: StoreError) -> (r: CustomError)
    ensures
        r == account_insert_error(e),
{
    match e {
        StoreError::UniqueViolation => CustomError::AccountExists,
        _ => CustomError::DBError,
    }
}

/// The repository over a store: it speaks in the library's errors.
pub struct AuthRepository<DB: DbConnection> {
    pub db: DB,
}

impl<DB: DbConnection> AuthRepository<DB> {
    pub fn new(db: DB) -> (r: Self)
        ensures
            r.db == db,
    {
        AuthRepository { db }
    }

    /// The user named `username`; an unknown name is `UserNotFound`.
    pub fn query_user(&self, username: &str) -> (r: Result<User, CustomError>)
        ensures
            r is Ok ==> r->Ok_0.username@ == username@,
            r is Err ==> r == Err::<User, CustomError>(CustomError::UserNotFound) || r == Err::<
                User,
                CustomError,
            >(CustomError::DBError),
    {
        match self.db.fetch_user(username) {
            Ok(u) => Ok(u),
            Err(e) => Err(map_lookup_error(e)),
        }
    }

    /// Stores a new user, then opens its account; returns the user's id.
    pub fn insert_user(&mut self, new_user: &User) -> (r: Result<i32, CustomError>)
        ensures
            r is Err ==> r == Err::<i32, CustomError>(CustomError::UsernameExists) || r == Err::<
                i32,
                CustomError,
            >(CustomError::AccountExists) || r == Err::<i32, CustomError>(CustomError::DBError),
    {
        let user_id = match self.db.insert_user(new_user) {
            Ok(id) => id,
            Err(e) => {
                return Err(map_user_insert_error(e));
            },
        };
        let account = Account::new(user_id);
        match self.db.insert_account(&account) {
            Ok(_) => Ok(user_id),
            Err(e) => Err(map_account_insert_error(e)),
        }
    }
}

/// Index of the first user named `name` in `users`, if any.
pub open spec fn user_index(users: Seq<User>, name: Seq<char>) -> Option<int> {
    if exists|i: int| 0 <= i < users.len() && users[i].username@ == name {
        Some(choose|i: int| 0 <= i < users.len() && users[i].username@ == name)
    } else {
        None
    }
}

/// What looking `name` up in `users` gives.
pub open spec fn find_user(users: Seq<User>, name: Seq<char>) -> Result<User, StoreError> {
    match user_index(users, name) {
        Some(i) => Ok(users[i]),
        None => Err(StoreError::RowNotFound),
    }
}

/// A store held in memory; usernames are unique, as are the users of accounts.
pub struct MemoryStore {
    users: Vec<User>,
    accounts: Vec<Account>,
}

impl MemoryStore {
    #[verifier::type_invariant]
    spec fn unique(&self) -> bool {
        &&& forall|i: int, j: int|
            0 <= i < j < self.users@.len() ==> #[trigger] self.users@[i].username@
                != #[trigger] self.users@[j].username@
        &&& forall|i: int, j: int|
            0 <= i < j < self.accounts@.len() ==> #[trigger] self.accounts@[i].user_id
                != #[trigger] self.accounts@[j].user_id
    }

    /// The stored users, in insertion order.
    pub closed spec fn users(&self) -> Seq<User> {
        self.users@
    }

    /// The stored accounts, in insertion order.
    pub closed spec fn accounts(&self) -> Seq<Account> {
        self.accounts@
    }

    pub fn new() -> (r: MemoryStore)
        ensures
            r.users().len() == 0,
            r.accounts().len() == 0,
    {
        MemoryStore { users: Vec::new(), accounts: Vec::new() }
    }

    fn position(&self, name: &String) -> (r: Option<usize>)
        ensures
            match r {
                Some(i) => i < self.users().len() && self.users()[i as int].username@ == name@
                    && user_index(self.users(), name@) == Some(i as int),
                None => user_index(self.users(), name@) is None,
            },
    {
        proof {
            use_type_invariant(self);
        }
        let mut i: usize = 0;
        while i < self.users.len()
            invariant
                self.unique(),
                i <= self.users@.len(),
                forall|k: int| 0 <= k < i ==> self.users@[k].username@ != name@,
            decreases self.users@.len() - i,
        {
            if self.users[i].username == *name {
                let ghost c = choose|k: int|
                    0 <= k < self.users@.len() && self.users@[k].username@ == name@;
                assert(c == i as int) by {
                    if c < i {
                    } else if c > i {
                        assert(self.users@[i as int].username@ != self.users@[c].username@);
                    }
                }
                return Some(i);
            }
            i = i + 1;
        }
        None
    }

    /// The user named `name`. The answer depends on the stored users and the
    /// name alone, so asking twice with no write in between gives the same data.
    pub fn find_by_username(&self, name: &str) -> (r: Result<User, StoreError>)
        ensures
            r == find_user(self.users(), name@),
    {
        let key = String::from_str(name);
        match self.position(&key) {
            Some(i) => Ok(self.users[i].duplicate()),
            None => Err(StoreError::RowNotFound),
        }
    }

    /// Stores `user` under the next id (one more than the number of users);
    /// a taken name is a unique violation and changes nothing.
    pub fn insert(&mut self, user: &User) -> (r: Result<i32, StoreError>)
        ensures
            final(self).accounts() == old(self).accounts(),
            user_index(old(self).users(), user.username@) is Some ==> r == Err::<i32, StoreError>(
                StoreError::UniqueViolation,
            ) && final(self).users() == old(self).users(),
            user_index(old(self).users(), user.username@) is None && old(self).users().len()
                < i32::MAX ==> r == Ok::<i32, StoreError>((old(self).users().len() + 1) as i32)
                && final(self).users() == old(self).users().push(
                User {
                    user_id: Some((old(self).users().len() + 1) as i32),
                    username: user.username,
                    password: user.password,
                    created_at: user.created_at,
                },
            ),
            user_index(old(self).users(), user.username@) is None && old(self).users().len()
                >= i32::MAX ==> r == Err::<i32, StoreError>(StoreError::Other) && final(self).users()
                == old(self).users(),
    {
        proof {
            use_type_invariant(&*self);
        }
        if self.position(&user.username).is_some() {
            return Err(StoreError::UniqueViolation);
        }
        let n = self.users.len();
        if n >= i32::MAX as usize {
            return Err(StoreError::Other);
        }
        let id = (n + 1) as i32;
        let stored = User {
            user_id: Some(id),
            username: user.username.clone(),
            password: user.password.clone(),
            created_at: user.created_at,
        };
        let mut users: Vec<User> = Vec::new();
        std::mem::swap(&mut users, &mut self.users);
        let ghost before = users@;
        users.push(stored);
        proof {
            assert forall|i: int, j: int|
                0 <= i < j < users@.len() implies #[trigger] users@[i].username@
                != #[trigger] users@[j].username@ by {
                if j == n {
                    assert(!(0 <= i < before.len() && before[i].username@ == user.username@));
                }
            }
        }
        self.users = users;
        Ok(id)
    }

    /// Opens `account` under the next id; a second account for one user is a
    /// unique violation and changes nothing.
    pub fn open_account(&mut self, account: &Account) -> (r: Result<i32, StoreError>)
        ensures
            final(self).users() == old(self).users(),
            (exists|i: int|
                0 <= i < old(self).accounts().len() && old(self).accounts()[i].user_id
                    == account.user_id) ==> r == Err::<i32, StoreError>(StoreError::UniqueViolation)
                && final(self).accounts() == old(self).accounts(),
            r is Ok ==> r == Ok::<i32, StoreError>((old(self).accounts().len() + 1) as i32)
                && final(self).accounts() == old(self).accounts().push(
                Account {
                    account_id: Some((old(self).accounts().len() + 1) as i32),
                    user_id: account.user_id,
                    balance: account.balance,
                    invested_value: account.invested_value,
                },
            ),
            !(exists|i: int|
                0 <= i < old(self).accounts().len() && old(self).accounts()[i].user_id
                    == account.user_id) && old(self).accounts().len() < i32::MAX ==> r is Ok,
    {
        proof {
            use_type_invariant(&*self);
        }
        let mut i: usize = 0;
        while i < self.accounts.len()
            invariant
                self.accounts@ == old(self).accounts@,
                i <= self.accounts@.len(),
                forall|k: int| 0 <= k < i ==> self.accounts@[k].user_id != account.user_id,
            decreases self.accounts@.len() - i,
        {
            if self.accounts[i].user_id == account.user_id {
                return Err(StoreError::UniqueViolation);
            }
            i = i + 1;
        }
        let n = self.accounts.len();
        if n >= i32::MAX as usize {
            return Err(StoreError::Other);
        }
        let id = (n + 1) as i32;
        let mut accounts: Vec<Account> = Vec::new();
        std::mem::swap(&mut accounts, &mut self.accounts);
        accounts.push(
            Account {
                account_id: Some(id),
                user_id: account.user_id,
                balance: account.balance,
                invested_value: account.invested_value,
            },
        );
        self.accounts = accounts;
        Ok(id)
    }
}

impl DbConnection for MemoryStore {
    fn fetch_user(&self, username: &str) -> (r: Result<User, StoreError>) {
        self.find_by_username(username)
    }

    fn insert_user(&mut self, user: &User) -> (r: Result<i32, StoreError>) {
        self.insert(user)
    }

    fn insert_account(&mut self, account: &Account) -> (r: Result<i32, StoreError>) {
        self.open_account(account)
    }
}

/// Two lookups of one name in one state of the store give identical results.
pub proof fn lemma_find_by_username_idempotent(
    before: Seq<User>,
    after: Seq<User>,
    name: Seq<char>,
)
    requires
        before == after,
    ensures
        find_user(before, name) == find_user(after, name),
{
}

} // verus!
