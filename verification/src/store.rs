use vstd::prelude::*;
use crate::errors::ApiError;
use crate::groups::UserGroups;

verus! {

/// A stored account record.  `password` holds the salted hash of the
/// credential, never the plaintext.
pub struct User {
    pub id: i32,
    pub username: String,
    pub password: String,
    pub group: UserGroups,
}

/// What registration hands to the store: a record without its identifier.
pub struct NewUser {
    pub username: String,
    pub password: String,
    pub group: UserGroups,
}

/// In-memory model of the persistence collaborator: account records with the
/// uniqueness constraint on usernames that the persistence layer enforces.
/// Records are inserted and have their password updated; they are never
/// deleted.
pub struct AccountStore {
    pub users: Vec<User>,
    pub next_id: i32,
}

impl AccountStore {
    /// Usernames are unique across all accounts.
    pub open spec fn wf(self) -> bool {
        forall|i: int, j: int|
            0 <= i < j < self.users@.len() ==> (#[trigger] self.users@[i].username@) != (
            #[trigger] self.users@[j].username@)
    }

    pub open spec fn has_user(self, name: Seq<char>) -> bool {
        exists|i: int|
            0 <= i < self.users@.len() && (#[trigger] self.users@[i].username@) == name
    }

    /// The index of the record holding `name`; meaningful when `has_user`.
    pub open spec fn user_index(self, name: Seq<char>) -> int {
        choose|i: int|
            0 <= i < self.users@.len() && (#[trigger] self.users@[i].username@) == name
    }

    /// The stored password hash of the account holding `name`.
    pub open spec fn hash_of(self, name: Seq<char>) -> Seq<char> {
        self.users@[self.user_index(name)].password@
    }

    /// The role of the account holding `name`.
    pub open spec fn group_of(self, name: Seq<char>) -> UserGroups {
        self.users@[self.user_index(name)].group
    }

    /// At most one record holds a given username: any two indices that match
    /// it are the same.
    pub proof fn lemma_unique_index(self, name: Seq<char>, i: int, j: int)
        requires
            self.wf(),
            0 <= i < self.users@.len(),
            0 <= j < self.users@.len(),
            self.users@[i].username@ == name,
            self.users@[j].username@ == name,
        ensures
            i == j,
    {
    }

    /// An index whose record holds `name` is the index the spec functions
    /// speak of.
    pub proof fn lemma_index_of(self, name: Seq<char>, i: int)
        requires
            self.wf(),
            0 <= i < self.users@.len(),
            self.users@[i].username@ == name,
        ensures
            self.has_user(name),
            self.user_index(name) == i,
    {
        assert(self.has_user(name));
        self.lemma_unique_index(name, i, self.user_index(name));
    }

    pub fn new() -> (r: AccountStore)
        ensures
            r.wf(),
            r.users@.len() == 0,
            forall|u: Seq<char>| !r.has_user(u),
    {
        AccountStore { users: Vec::new(), next_id: 1 }
    }

    /// Looks an account up by its unique username.
    pub fn find_by_username(&self, name: &str) -> (r: Option<usize>)
        requires
            self.wf(),
        ensures
            (r is Some) == self.has_user(name@),
            r matches Some(i) ==> i < self.users@.len() && self.users@[i as int].username@
                == name@ && self.user_index(name@) == i,
    {
        let name_s = name.to_owned();
        let n = self.users.len();
        let mut i: usize = 0;
        while i < n
            invariant
                self.wf(),
                n == self.users@.len(),
                i <= n,
                name_s@ == name@,
                forall|k: int| 0 <= k < i ==> (#[trigger] self.users@[k].username@) != name@,
            decreases n - i,
        {
            if self.users[i].username == name_s {
                proof {
                    self.lemma_index_of(name@, i as int);
                }
                return Some(i);
            }
            i += 1;
        }
        None
    }

    /// Adds a record; fails with `Conflict` exactly when the username is
    /// already taken, and then changes nothing.
    pub fn insert(&mut self, nu: NewUser) -> (r: Result<(), ApiError>)
        requires
            old(self).wf(),
        ensures
            final(self).wf(),
            (r is Err) == old(self).has_user(nu.username@),
            r matches Err(e) ==> e == ApiError::Conflict && *final(self) == *old(self),
            r is Ok ==> ({
                &&& final(self).users@.len() == old(self).users@.len() + 1
                &&& final(self).has_user(nu.username@)
                &&& final(self).hash_of(nu.username@) == nu.password@
                &&& final(self).group_of(nu.username@) == nu.group
            }),
            forall|u: Seq<char>|
                u != nu.username@ ==> final(self).has_user(u) == old(self).has_user(u),
            forall|u: Seq<char>|
                u != nu.username@ && old(self).has_user(u) ==> final(self).hash_of(u) == old(self).hash_of(u) && final(self).group_of(u) == old(self).group_of(u),
    {
        if self.find_by_username(nu.username.as_str()).is_some() {
            return Err(ApiError::Conflict);
        }
        let id = self.next_id;
        if self.next_id < i32::MAX {
            self.next_id = id + 1;
        }
        let ghost old_users = self.users@;
        let ghost name = nu.username@;
        let user = User { id, username: nu.username, password: nu.password, group: nu.group };
        self.users.push(user);
        proof {
            let n = old_users.len() as int;
            assert forall|i: int, j: int| 0 <= i < j < self.users@.len() implies (
            #[trigger] self.users@[i].username@) != (#[trigger] self.users@[j].username@) by {
                if j < n {
                    assert(old(self).users@[i].username@ != old(self).users@[j].username@);
                } else {
                    assert(self.users@[j].username@ == name);
                    assert(self.users@[i] == old_users[i]);
                    assert(!old(self).has_user(name));
                }
            }
            self.lemma_index_of(name, n);
            assert forall|u: Seq<char>|
                u != name implies final(self).has_user(u) == old(self).has_user(u) by {
                if old(self).has_user(u) {
                    let k = old(self).user_index(u);
                    assert(self.users@[k].username@ == u);
                }
                if self.has_user(u) {
                    let k = self.user_index(u);
                    assert(k < n);
                    assert(old(self).users@[k].username@ == u);
                }
            }
            assert forall|u: Seq<char>|
                u != name && old(self).has_user(u) implies final(self).hash_of(u) == old(self).hash_of(u) && final(self).group_of(u) == old(self).group_of(u) by {
                let k = old(self).user_index(u);
                assert(old(self).users@[k].username@ == u);
                self.lemma_index_of(u, k);
            }
        }
        Ok(())
    }

    /// Replaces the stored hash of the account holding `name`, if there is
    /// one; reports whether there was.  Usernames, roles and the other
    /// records are untouched either way.
    pub fn update_password(&mut self, name: &str, new_hash: String) -> (r: bool)
        requires
            old(self).wf(),
        ensures
            final(self).wf(),
            r == old(self).has_user(name@),
            final(self).users@.len() == old(self).users@.len(),
            forall|u: Seq<char>| final(self).has_user(u) == old(self).has_user(u),
            old(self).has_user(name@) ==> final(self).hash_of(name@) == new_hash@ && final(self).group_of(name@) == old(self).group_of(name@),
            forall|u: Seq<char>|
                u != name@ && old(self).has_user(u) ==> final(self).hash_of(u) == old(self).hash_of(u) && final(self).group_of(u) == old(self).group_of(u),
            !old(self).has_user(name@) ==> *final(self) == *old(self),
    {
        match self.find_by_username(name) {
            Some(i) => {
                self.users[i].password = new_hash;
                proof {
                    let n = self.users@.len() as int;
                    assert forall|a: int, b: int| 0 <= a < b < self.users@.len() implies (
                    #[trigger] self.users@[a].username@) != (
                    #[trigger] self.users@[b].username@) by {
                        assert(old(self).users@[a].username@ != old(self).users@[b].username@);
                    }
                    assert forall|u: Seq<char>| final(self).has_user(u) == old(self).has_user(u) by {
                        if old(self).has_user(u) {
                            let k = old(self).user_index(u);
                            assert(self.users@[k].username@ == u);
                        }
                        if self.has_user(u) {
                            let k = self.user_index(u);
                            assert(old(self).users@[k].username@ == u);
                        }
                    }
                    self.lemma_index_of(name@, i as int);
                    assert forall|u: Seq<char>|
                        u != name@ && old(self).has_user(u) implies final(self).hash_of(u) == old(self).hash_of(u) && final(self).group_of(u) == old(self).group_of(u) by {
                        let k = old(self).user_index(u);
                        assert(old(self).users@[k].username@ == u);
                        assert(k != i);
                        self.lemma_index_of(u, k);
                    }
                }
                true
            },
            None => false,
        }
    }
}

} // verus!
