//! The credential store: the durable mapping from username to stored
//! credential record, held here as an in-memory table whose structural
//! invariants are that usernames are unique and that identifiers are
//! unique. Checking for an existing username and inserting are one
//! operation, so a colliding insert is reported as a duplicate rather
//! than racing a separate lookup; an identifier collision is an internal
//! storage failure, as a primary-key violation would be.

use vstd::prelude::*;

use crate::errors::AuthError;

verus! {

/// One stored credential record. The `password_hash` field holds a salted
/// digest, never the plaintext password.
#[derive(Debug, Clone)]
pub struct Credential {
    pub id: String,
    pub username: String,
    pub password_hash: String,
    pub created_at: i64,
}

/// The index of the first record in `users[from..]` whose username is
/// `name`, or `users.len()` when there is none.
pub open spec fn find_from(users: Seq<Credential>, name: Seq<char>, from: int) -> int
    decreases users.len() - from,
{
    if from < 0 || from >= users.len() {
        users.len() as int
    } else if users[from].username@ == name {
        from
    } else {
        find_from(users, name, from + 1)
    }
}

/// Whether some record in `users` carries username `name`.
pub open spec fn has_username(users: Seq<Credential>, name: Seq<char>) -> bool {
    find_from(users, name, 0) < users.len()
}

/// The record carrying username `name` (meaningful when `has_username`).
pub open spec fn user_record(users: Seq<Credential>, name: Seq<char>) -> Credential {
    users[find_from(users, name, 0)]
}

/// The index of the first record in `users[from..]` whose identifier is
/// `id`, or `users.len()` when there is none.
pub open spec fn find_id_from(users: Seq<Credential>, id: Seq<char>, from: int) -> int
    decreases users.len() - from,
{
    if from < 0 || from >= users.len() {
        users.len() as int
    } else if users[from].id@ == id {
        from
    } else {
        find_id_from(users, id, from + 1)
    }
}

/// Whether some record in `users` carries identifier `id`.
pub open spec fn has_user_id(users: Seq<Credential>, id: Seq<char>) -> bool {
    find_id_from(users, id, 0) < users.len()
}

/// `find_id_from` returns the first match at or after `from`, and finding
/// nothing means no record in `users[from..]` carries the identifier.
pub proof fn lemma_find_id_from(users: Seq<Credential>, id: Seq<char>, from: int)
    requires
        0 <= from <= users.len(),
    ensures
        from <= find_id_from(users, id, from) <= users.len(),
        find_id_from(users, id, from) < users.len() ==> users[find_id_from(users, id, from)].id@
            == id,
        forall|m: int|
            from <= m < find_id_from(users, id, from) ==> (#[trigger] users[m].id@) != id,
    decreases users.len() - from,
{
    if from < users.len() && users[from].id@ != id {
        lemma_find_id_from(users, id, from + 1);
    }
}

/// `find_from` returns the first match at or after `from`, and finding
/// nothing means no record in `users[from..]` matches.
pub proof fn lemma_find_from(users: Seq<Credential>, name: Seq<char>, from: int)
    requires
        0 <= from <= users.len(),
    ensures
        from <= find_from(users, name, from) <= users.len(),
        find_from(users, name, from) < users.len() ==> users[find_from(users, name, from)].username@
            == name,
        forall|m: int|
            from <= m < find_from(users, name, from) ==> (#[trigger] users[m].username@) != name,
    decreases users.len() - from,
{
    if from < users.len() && users[from].username@ != name {
        lemma_find_from(users, name, from + 1);
    }
}

/// The credential store. Owns its records exclusively; no two records
/// share a username or an identifier.
pub struct CredentialStore {
    pub users: Vec<Credential>,
}

impl CredentialStore {
    /// No two live records share a username, and no two share an
    /// identifier.
    pub open spec fn wf(self) -> bool {
        &&& forall|i: int, j: int|
            0 <= i < j < self.users@.len() ==> (#[trigger] self.users@[i].username@) != (
            #[trigger] self.users@[j].username@)
        &&& forall|i: int, j: int|
            0 <= i < j < self.users@.len() ==> (#[trigger] self.users@[i].id@) != (
            #[trigger] self.users@[j].id@)
    }

    /// An empty store, trivially well formed.
    pub fn new() -> (r: CredentialStore)
        ensures
            r.wf(),
            r.users@.len() == 0,
    {
        CredentialStore { users: Vec::new() }
    }

    /// The number of stored records.
    pub fn len(&self) -> (r: usize)
        ensures
            r == self.users@.len(),
    {
        self.users.len()
    }

    /// Looks a record up by username: the index of the unique record with
    /// that username, or `None` when no record has it.
    pub fn find_by_username(&self, name: &String) -> (r: Option<usize>)
        ensures
            match r {
                Some(i) => has_username(self.users@, name@) && i == find_from(
                    self.users@,
                    name@,
                    0,
                ),
                None => !has_username(self.users@, name@),
            },
    {
        let n = self.users.len();
        let mut i: usize = 0;
        while i < n
            invariant
                n == self.users@.len(),
                0 <= i <= n,
                find_from(self.users@, name@, 0) == find_from(self.users@, name@, i as int),
            decreases n - i,
        {
            if self.users[i].username.eq(name) {
                return Some(i);
            }
            i = i + 1;
        }
        None
    }

    /// The index of the unique record carrying identifier `id`, when one
    /// does.
    fn index_of_id(&self, id: &String) -> (r: Option<usize>)
        ensures
            match r {
                Some(i) => has_user_id(self.users@, id@) && i == find_id_from(
                    self.users@,
                    id@,
                    0,
                ),
                None => !has_user_id(self.users@, id@),
            },
    {
        let n = self.users.len();
        let mut i: usize = 0;
        while i < n
            invariant
                n == self.users@.len(),
                0 <= i <= n,
                find_id_from(self.users@, id@, 0) == find_id_from(self.users@, id@, i as int),
            decreases n - i,
        {
            if self.users[i].id.eq(id) {
                return Some(i);
            }
            i = i + 1;
        }
        None
    }

    /// Inserts a new record, enforcing uniqueness atomically: when a
    /// record with the same username exists the store is unchanged and
    /// the insert fails with `DuplicateUsername`; when the fresh
    /// identifier collides with a stored one the store is unchanged and
    /// the insert fails with `StorageError`, as a primary-key violation
    /// would; otherwise the record is appended. Well-formedness is
    /// preserved either way.
    pub fn insert_user(&mut self, record: Credential) -> (r: Result<(), AuthError>)
        requires
            old(self).wf(),
        ensures
            final(self).wf(),
            match r {
                Ok(()) => !has_username(old(self).users@, record.username@) && !has_user_id(
                    old(self).users@,
                    record.id@,
                ) && final(self).users@ == old(self).users@.push(record),
                Err(e) => final(self).users@ == old(self).users@ && match e {
                    AuthError::DuplicateUsername => has_username(
                        old(self).users@,
                        record.username@,
                    ),
                    AuthError::StorageError => !has_username(old(self).users@, record.username@)
                        && has_user_id(old(self).users@, record.id@),
                    _ => false,
                },
            },
    {
        if self.find_by_username(&record.username).is_some() {
            return Err(AuthError::DuplicateUsername);
        }
        if self.index_of_id(&record.id).is_some() {
            return Err(AuthError::StorageError);
        }
        proof {
            lemma_find_from(self.users@, record.username@, 0);
            lemma_find_id_from(self.users@, record.id@, 0);
        }
        self.users.push(record);
        Ok(())
    }
}

/// After a successful registration of a username, the store answers a
/// lookup for that username: a second registration with it must fail with
/// `DuplicateUsername`.
pub proof fn lemma_duplicate_register(users: Seq<Credential>, record: Credential)
    ensures
        has_username(users.push(record), record.username@),
{
    let users2 = users.push(record);
    lemma_find_from(users2, record.username@, 0);
    assert(users2[users.len() as int].username@ == record.username@);
}

/// The record a successful registration appended is exactly the one a
/// later lookup of its username finds, provided the username was free.
pub proof fn lemma_register_then_lookup(users: Seq<Credential>, record: Credential)
    requires
        !has_username(users, record.username@),
    ensures
        has_username(users.push(record), record.username@),
        user_record(users.push(record), record.username@) == record,
{
    let users2 = users.push(record);
    let f = find_from(users2, record.username@, 0);
    lemma_find_from(users2, record.username@, 0);
    lemma_find_from(users, record.username@, 0);
    assert(users2[users.len() as int].username@ == record.username@);
    assert(f < users2.len());
    if f < users.len() {
        assert(users[f] == users2[f]);
        assert(false);
    }
    assert(f == users.len());
}

} // verus!
