//! The persistence gateway of the core: a user-record store and a
//! link-record store, each with create/read/update operations and exact
//! contracts.
//!
//! The gateway is the authority on uniqueness: it reports a duplicate
//! username as `StorageConflict`, and it keeps the invariant that record ids
//! are unique and that at most one non-deleted user holds a username. Short
//! codes are deliberately not unique (they are content-derived), so link
//! lookups resolve to the first live match in storage order.

use vstd::prelude::*;

use crate::errors::AppError;

verus! {

/// A persisted identity record.
#[derive(Debug)]
pub struct User {
    /// Opaque unique identifier.
    pub id: String,
    /// Unique among non-deleted users.
    pub username: String,
    /// Opaque digest of the password; never serialized outward.
    pub password_hash: String,
    /// Soft-delete flag (reserved; no current operation sets it).
    pub deleted: bool,
    /// Unix-epoch creation time, in seconds.
    pub created_at: u64,
}

/// A persisted shortening record.
#[derive(Debug)]
pub struct Url {
    /// Opaque unique identifier.
    pub id: String,
    /// The user who created the link.
    pub user_id: String,
    /// The validated, normalized absolute target URL.
    pub url: String,
    /// The short code used for public resolution; content-derived, so not
    /// guaranteed unique.
    pub short_url: String,
    /// User-toggleable flag.
    pub favourite: bool,
    /// Soft-delete flag; a deleted link is excluded from resolution and
    /// listing, and never reverts.
    pub deleted: bool,
    /// Unix-epoch creation time, in seconds.
    pub created_at: u64,
}

/// The index of the first element at or after `from` satisfying `pred`.
pub open spec fn find_from<A>(s: Seq<A>, pred: spec_fn(A) -> bool, from: int) -> Option<int>
    decreases s.len() - from,
    when 0 <= from
{
    if from >= s.len() {
        None
    } else if pred(s[from]) {
        Some(from)
    } else {
        find_from(s, pred, from + 1)
    }
}

/// When no element at or after `from` is found, none satisfies `pred`.
pub proof fn lemma_find_from_none<A>(s: Seq<A>, pred: spec_fn(A) -> bool, from: int, i: int)
    requires
        0 <= from <= i < s.len(),
        find_from(s, pred, from) is None,
    ensures
        !pred(s[i]),
    decreases i - from,
{
    if i > from {
        lemma_find_from_none(s, pred, from + 1, i);
    }
}

/// A found index is in range, satisfies `pred`, and is the first to do so.
pub proof fn lemma_find_from_some<A>(s: Seq<A>, pred: spec_fn(A) -> bool, from: int)
    requires
        0 <= from,
        find_from(s, pred, from) is Some,
    ensures
        from <= find_from(s, pred, from)->0 < s.len(),
        pred(s[find_from(s, pred, from)->0]),
        forall|i: int|
            from <= i < find_from(s, pred, from)->0 ==> !pred(#[trigger] s[i]),
    decreases s.len() - from,
{
    if from < s.len() && !pred(s[from]) {
        lemma_find_from_some(s, pred, from + 1);
    }
}

/// When every element at or after `from` fails `pred`, nothing is found.
pub proof fn lemma_find_from_all_fail<A>(s: Seq<A>, pred: spec_fn(A) -> bool, from: int)
    requires
        0 <= from,
        forall|i: int| from <= i < s.len() ==> !pred(#[trigger] s[i]),
    ensures
        find_from(s, pred, from) is None,
    decreases s.len() - from,
{
    if from < s.len() {
        lemma_find_from_all_fail(s, pred, from + 1);
    }
}

/// Appending an element does not disturb an existing first match.
pub proof fn lemma_find_from_push_some<A>(s: Seq<A>, pred: spec_fn(A) -> bool, x: A, from: int)
    requires
        0 <= from,
        find_from(s, pred, from) is Some,
    ensures
        find_from(s.push(x), pred, from) == find_from(s, pred, from),
    decreases s.len() - from,
{
    assert(s.push(x)[from] == s[from]);
    if !pred(s[from]) {
        lemma_find_from_push_some(s, pred, x, from + 1);
    }
}

/// When nothing matched before, an appended element is found exactly when
/// it matches itself.
pub proof fn lemma_find_from_push_none<A>(s: Seq<A>, pred: spec_fn(A) -> bool, x: A, from: int)
    requires
        0 <= from <= s.len(),
        find_from(s, pred, from) is None,
    ensures
        find_from(s.push(x), pred, from) == if pred(x) {
            Some(s.len() as int)
        } else {
            None::<int>
        },
    decreases s.len() - from,
{
    if from < s.len() {
        assert(s.push(x)[from] == s[from]);
        lemma_find_from_push_none(s, pred, x, from + 1);
    } else {
        assert(s.push(x)[from] == x);
        if !pred(x) {
            assert(find_from(s.push(x), pred, from + 1) is None);
        }
    }
}

/// An index that satisfies `pred` guarantees the search finds a match, at
/// that index or an earlier one.
pub proof fn lemma_find_from_witness<A>(s: Seq<A>, pred: spec_fn(A) -> bool, from: int, k: int)
    requires
        0 <= from <= k < s.len(),
        pred(s[k]),
    ensures
        find_from(s, pred, from) is Some,
        from <= find_from(s, pred, from)->0 <= k,
    decreases k - from,
{
    if !pred(s[from]) {
        lemma_find_from_witness(s, pred, from + 1, k);
    }
}

/// Two sequences on which `pred` agrees pointwise are searched alike.
pub proof fn lemma_find_from_congruent<A>(
    s1: Seq<A>,
    s2: Seq<A>,
    pred: spec_fn(A) -> bool,
    from: int,
)
    requires
        0 <= from,
        s1.len() == s2.len(),
        forall|i: int| 0 <= i < s1.len() ==> pred(#[trigger] s1[i]) == pred(#[trigger] s2[i]),
    ensures
        find_from(s1, pred, from) == find_from(s2, pred, from),
    decreases s1.len() - from,
{
    if from < s1.len() && !pred(s1[from]) {
        lemma_find_from_congruent(s1, s2, pred, from + 1);
    }
}

/// Matches a non-deleted user holding `name`.
pub open spec fn live_named(name: Seq<char>) -> spec_fn(User) -> bool {
    |u: User| !u.deleted && u.username@ == name
}

/// Matches a non-deleted user with id `id`.
pub open spec fn live_user_id(id: Seq<char>) -> spec_fn(User) -> bool {
    |u: User| !u.deleted && u.id@ == id
}

/// Matches any user record with id `id`, deleted or not.
pub open spec fn any_user_id(id: Seq<char>) -> spec_fn(User) -> bool {
    |u: User| u.id@ == id
}

/// Matches any link record with id `id`, deleted or not.
pub open spec fn any_link_id(id: Seq<char>) -> spec_fn(Url) -> bool {
    |l: Url| l.id@ == id
}

/// Matches a non-deleted link holding short code `code`.
pub open spec fn live_coded(code: Seq<char>) -> spec_fn(Url) -> bool {
    |l: Url| !l.deleted && l.short_url@ == code
}

impl User {
    /// An exact copy of this record.
    pub fn copy_of(&self) -> (r: User)
        ensures
            r == *self,
    {
        User {
            id: self.id.clone(),
            username: self.username.clone(),
            password_hash: self.password_hash.clone(),
            deleted: self.deleted,
            created_at: self.created_at,
        }
    }
}

impl Url {
    /// An exact copy of this record.
    pub fn copy_of(&self) -> (r: Url)
        ensures
            r == *self,
    {
        Url {
            id: self.id.clone(),
            user_id: self.user_id.clone(),
            url: self.url.clone(),
            short_url: self.short_url.clone(),
            favourite: self.favourite,
            deleted: self.deleted,
            created_at: self.created_at,
        }
    }
}

/// The first non-deleted user holding `name`.
pub open spec fn find_live_user(users: Seq<User>, name: Seq<char>) -> Option<int> {
    find_from(users, live_named(name), 0)
}

/// The first non-deleted user with id `id`.
pub open spec fn find_live_user_by_id(users: Seq<User>, id: Seq<char>) -> Option<int> {
    find_from(users, live_user_id(id), 0)
}

/// The first user record with id `id`, deleted or not.
pub open spec fn find_any_user_by_id(users: Seq<User>, id: Seq<char>) -> Option<int> {
    find_from(users, any_user_id(id), 0)
}

/// The first link record with id `id`, deleted or not.
pub open spec fn find_link_by_id(links: Seq<Url>, id: Seq<char>) -> Option<int> {
    find_from(links, any_link_id(id), 0)
}

/// The first non-deleted link holding short code `code`.
pub open spec fn find_live_link(links: Seq<Url>, code: Seq<char>) -> Option<int> {
    find_from(links, live_coded(code), 0)
}

/// The non-deleted links of one owner, in storage order.
pub open spec fn owned_live_links(links: Seq<Url>, owner: Seq<char>) -> Seq<Url> {
    links.filter(|l: Url| !l.deleted && l.user_id@ == owner)
}

/// The user-record store.
pub struct UsersRepo {
    pub users: Vec<User>,
}

impl UsersRepo {
    /// Record ids are unique, and at most one non-deleted user holds any
    /// username.
    pub open spec fn wf(self) -> bool {
        &&& forall|i: int, j: int|
            0 <= i < j < self.users@.len() ==> #[trigger] self.users@[i].id@ != #[trigger] self.users@[j].id@
        &&& forall|i: int, j: int|
            0 <= i < j < self.users@.len() && !self.users@[i].deleted && !self.users@[j].deleted
                ==> #[trigger] self.users@[i].username@ != #[trigger] self.users@[j].username@
    }

    /// An empty store.
    pub fn new() -> (r: UsersRepo)
        ensures
            r.users@ == Seq::<User>::empty(),
            r.wf(),
    {
        UsersRepo { users: Vec::new() }
    }

    /// Inserts a fresh user record. The store is the authority on username
    /// uniqueness: a username held by a non-deleted user is refused as
    /// `StorageConflict`; a reused record id is any other storage fault,
    /// `StorageFailure`.
    pub fn register(&mut self, username: &String, password_hash: &String, id: &String, now: u64)
        -> (r: Result<(), AppError>)
        requires
            old(self).wf(),
        ensures
            final(self).wf(),
            find_live_user(old(self).users@, username@) is Some ==> r
                == Err::<(), AppError>(AppError::StorageConflict) && final(self).users@ == old(
                self,
            ).users@,
            find_live_user(old(self).users@, username@) is None && find_any_user_by_id(
                old(self).users@,
                id@,
            ) is Some ==> r == Err::<(), AppError>(AppError::StorageFailure) && final(self).users@
                == old(self).users@,
            find_live_user(old(self).users@, username@) is None && find_any_user_by_id(
                old(self).users@,
                id@,
            ) is None ==> r == Ok::<(), AppError>(()) && final(self).users@ == old(
                self,
            ).users@.push(
                (User {
                    id: *id,
                    username: *username,
                    password_hash: *password_hash,
                    deleted: false,
                    created_at: now,
                }),
            ),
    {
        let ghost pred_name = live_named(username@);
        let ghost pred_id = any_user_id(id@);
        let n = self.users.len();
        let mut k: usize = 0;
        while k < n
            invariant
                self == old(self),
                old(self).wf(),
                n == self.users@.len(),
                0 <= k <= n,
                find_from(self.users@, pred_name, 0) == find_from(self.users@, pred_name, k as int),
                pred_name == live_named(username@),
            decreases n - k,
        {
            if !self.users[k].deleted && self.users[k].username == *username {
                proof {
                    assert(pred_name(self.users@[k as int]));
                }
                return Err(AppError::StorageConflict);
            }
            proof {
                assert(!pred_name(self.users@[k as int]));
            }
            k = k + 1;
        }
        assert(find_live_user(self.users@, username@) is None);
        let mut k: usize = 0;
        while k < n
            invariant
                self == old(self),
                old(self).wf(),
                find_live_user(self.users@, username@) is None,
                n == self.users@.len(),
                0 <= k <= n,
                find_from(self.users@, pred_id, 0) == find_from(self.users@, pred_id, k as int),
                pred_id == any_user_id(id@),
            decreases n - k,
        {
            if self.users[k].id == *id {
                proof {
                    assert(pred_id(self.users@[k as int]));
                }
                return Err(AppError::StorageFailure);
            }
            proof {
                assert(!pred_id(self.users@[k as int]));
            }
            k = k + 1;
        }
        assert(find_any_user_by_id(self.users@, id@) is None);
        let u = User {
            id: String::clone(id),
            username: String::clone(username),
            password_hash: String::clone(password_hash),
            deleted: false,
            created_at: now,
        };
        proof {
            let users = self.users@;
            assert forall|i: int| 0 <= i < users.len() implies #[trigger] users[i].id@ != id@ by {
                lemma_find_from_none(users, any_user_id(id@), 0, i);
            }
            assert forall|i: int|
                0 <= i < users.len() && !users[i].deleted implies #[trigger] users[i].username@
                != username@ by {
                lemma_find_from_none(users, live_named(username@), 0, i);
            }
        }
        self.users.push(u);
        Ok(())
    }

    /// The non-deleted user holding `username`, if any.
    pub fn get_user_by_username(&self, username: &String) -> (r: Option<User>)
        ensures
            match find_live_user(self.users@, username@) {
                None => r is None,
                Some(k) => r == Some(self.users@[k]),
            },
    {
        let ghost pred = live_named(username@);
        let n = self.users.len();
        let mut k: usize = 0;
        while k < n
            invariant
                n == self.users@.len(),
                0 <= k <= n,
                find_from(self.users@, pred, 0) == find_from(self.users@, pred, k as int),
                pred == live_named(username@),
            decreases n - k,
        {
            if !self.users[k].deleted && self.users[k].username == *username {
                proof {
                    assert(pred(self.users@[k as int]));
                }
                return Some(self.users[k].copy_of());
            }
            proof {
                assert(!pred(self.users@[k as int]));
            }
            k = k + 1;
        }
        None
    }

    /// The non-deleted user with record id `id`, if any.
    pub fn get_user_by_id(&self, id: &String) -> (r: Option<User>)
        ensures
            match find_live_user_by_id(self.users@, id@) {
                None => r is None,
                Some(k) => r == Some(self.users@[k]),
            },
    {
        let ghost pred = live_user_id(id@);
        let n = self.users.len();
        let mut k: usize = 0;
        while k < n
            invariant
                n == self.users@.len(),
                0 <= k <= n,
                find_from(self.users@, pred, 0) == find_from(self.users@, pred, k as int),
                pred == live_user_id(id@),
            decreases n - k,
        {
            if !self.users[k].deleted && self.users[k].id == *id {
                proof {
                    assert(pred(self.users@[k as int]));
                }
                return Some(self.users[k].copy_of());
            }
            proof {
                assert(!pred(self.users@[k as int]));
            }
            k = k + 1;
        }
        None
    }
}

/// The link-record store.
pub struct UrlRepo {
    pub links: Vec<Url>,
}

impl UrlRepo {
    /// Record ids are unique. Short codes are deliberately not constrained.
    pub open spec fn wf(self) -> bool {
        forall|i: int, j: int|
            0 <= i < j < self.links@.len() ==> #[trigger] self.links@[i].id@ != #[trigger] self.links@[j].id@
    }

    /// An empty store.
    pub fn new() -> (r: UrlRepo)
        ensures
            r.links@ == Seq::<Url>::empty(),
            r.wf(),
    {
        UrlRepo { links: Vec::new() }
    }

    /// Inserts a fresh link record, not deleted and not favourite, and
    /// returns it. A reused record id is refused as `StorageFailure`.
    pub fn create(&mut self, url: &String, short_url: &String, user_id: &String, id: &String, now: u64)
        -> (r: Result<Url, AppError>)
        requires
            old(self).wf(),
        ensures
            final(self).wf(),
            match find_link_by_id(old(self).links@, id@) {
                Some(_) => r == Err::<Url, AppError>(AppError::StorageFailure) && final(self).links@
                    == old(self).links@,
                None => ({
                    let l = (Url {
                        id: *id,
                        user_id: *user_id,
                        url: *url,
                        short_url: *short_url,
                        favourite: false,
                        deleted: false,
                        created_at: now,
                    });
                    &&& final(self).links@ == old(self).links@.push(l)
                    &&& r == Ok::<Url, AppError>(l)
                }),
            },
    {
        let ghost pred = any_link_id(id@);
        let n = self.links.len();
        let mut k: usize = 0;
        while k < n
            invariant
                self == old(self),
                old(self).wf(),
                n == self.links@.len(),
                0 <= k <= n,
                find_from(self.links@, pred, 0) == find_from(self.links@, pred, k as int),
                pred == any_link_id(id@),
            decreases n - k,
        {
            if self.links[k].id == *id {
                proof {
                    assert(pred(self.links@[k as int]));
                }
                return Err(AppError::StorageFailure);
            }
            proof {
                assert(!pred(self.links@[k as int]));
            }
            k = k + 1;
        }
        assert(find_link_by_id(self.links@, id@) is None);
        let l = Url {
            id: String::clone(id),
            user_id: String::clone(user_id),
            url: String::clone(url),
            short_url: String::clone(short_url),
            favourite: false,
            deleted: false,
            created_at: now,
        };
        let out = l.copy_of();
        proof {
            let links = self.links@;
            assert forall|i: int| 0 <= i < links.len() implies #[trigger] links[i].id@ != id@ by {
                lemma_find_from_none(links, any_link_id(id@), 0, i);
            }
        }
        self.links.push(l);
        Ok(out)
    }

    /// Marks the record with id `id` deleted and returns the updated record.
    /// The update is unconditional on the current deleted state, so deleting
    /// an already-deleted link succeeds again. An unknown id is `NotFound`.
    pub fn delete(&mut self, id: &String) -> (r: Result<Url, AppError>)
        requires
            old(self).wf(),
        ensures
            final(self).wf(),
            match find_link_by_id(old(self).links@, id@) {
                None => ({
                    &&& r matches Err(e) && e is NotFound
                    &&& final(self).links@ == old(self).links@
                }),
                Some(k) => ({
                    let l = (Url { deleted: true, ..old(self).links@[k] });
                    &&& final(self).links@ == old(self).links@.update(k, l)
                    &&& r == Ok::<Url, AppError>(l)
                }),
            },
    {
        let ghost pred = any_link_id(id@);
        let n = self.links.len();
        let mut k: usize = 0;
        while k < n
            invariant
                self == old(self),
                old(self).wf(),
                n == self.links@.len(),
                0 <= k <= n,
                find_from(self.links@, pred, 0) == find_from(self.links@, pred, k as int),
                pred == any_link_id(id@),
            decreases n - k,
        {
            if self.links[k].id == *id {
                proof {
                    assert(pred(self.links@[k as int]));
                }
                let ghost pre = self.links@;
                let l = Url { deleted: true, ..self.links[k].copy_of() };
                let out = l.copy_of();
                self.links.set(k, l);
                proof {
                    assert(find_from(pre, pred, k as int) == Some(k as int));
                }
                return Ok(out);
            }
            proof {
                assert(!pred(self.links@[k as int]));
            }
            k = k + 1;
        }
        Err(AppError::NotFound(String::from_str("URL not found")))
    }

    /// The first non-deleted link holding short code `short_url`, if any;
    /// an unknown or deleted code is `NotFound`.
    pub fn get_url_by_short_url(&self, short_url: &String) -> (r: Result<Url, AppError>)
        ensures
            match find_live_link(self.links@, short_url@) {
                None => r matches Err(e) && e is NotFound,
                Some(k) => r == Ok::<Url, AppError>(self.links@[k]),
            },
    {
        let ghost pred = live_coded(short_url@);
        let n = self.links.len();
        let mut k: usize = 0;
        while k < n
            invariant
                n == self.links@.len(),
                0 <= k <= n,
                find_from(self.links@, pred, 0) == find_from(self.links@, pred, k as int),
                pred == live_coded(short_url@),
            decreases n - k,
        {
            if !self.links[k].deleted && self.links[k].short_url == *short_url {
                proof {
                    assert(pred(self.links@[k as int]));
                }
                return Ok(self.links[k].copy_of());
            }
            proof {
                assert(!pred(self.links@[k as int]));
            }
            k = k + 1;
        }
        Err(AppError::NotFound(String::from_str("URL not found")))
    }

    /// Sets the favourite flag of the record with id `id` to `state`,
    /// unconditionally, and returns the updated record. An unknown id is
    /// `NotFound`.
    pub fn favourite_url(&mut self, id: &String, state: bool) -> (r: Result<Url, AppError>)
        requires
            old(self).wf(),
        ensures
            final(self).wf(),
            match find_link_by_id(old(self).links@, id@) {
                None => ({
                    &&& r matches Err(e) && e is NotFound
                    &&& final(self).links@ == old(self).links@
                }),
                Some(k) => ({
                    let l = (Url { favourite: state, ..old(self).links@[k] });
                    &&& final(self).links@ == old(self).links@.update(k, l)
                    &&& r == Ok::<Url, AppError>(l)
                }),
            },
    {
        let ghost pred = any_link_id(id@);
        let n = self.links.len();
        let mut k: usize = 0;
        while k < n
            invariant
                self == old(self),
                old(self).wf(),
                n == self.links@.len(),
                0 <= k <= n,
                find_from(self.links@, pred, 0) == find_from(self.links@, pred, k as int),
                pred == any_link_id(id@),
            decreases n - k,
        {
            if self.links[k].id == *id {
                proof {
                    assert(pred(self.links@[k as int]));
                }
                let l = Url { favourite: state, ..self.links[k].copy_of() };
                let out = l.copy_of();
                self.links.set(k, l);
                return Ok(out);
            }
            proof {
                assert(!pred(self.links@[k as int]));
            }
            k = k + 1;
        }
        Err(AppError::NotFound(String::from_str("URL not found")))
    }

    /// All non-deleted links belonging to `user_id`, in storage order.
    pub fn get_user_urls(&self, user_id: &String) -> (r: Vec<Url>)
        ensures
            r@ == owned_live_links(self.links@, user_id@),
    {
        broadcast use vstd::seq_lib::group_seq_properties;

        let ghost pred = |l: Url| !l.deleted && l.user_id@ == user_id@;
        let n = self.links.len();
        let mut out: Vec<Url> = Vec::new();
        let mut k: usize = 0;
        while k < n
            invariant
                n == self.links@.len(),
                0 <= k <= n,
                pred == (|l: Url| !l.deleted && l.user_id@ == user_id@),
                out@ == self.links@.subrange(0, k as int).filter(pred),
            decreases n - k,
        {
            let ghost prefix = self.links@.subrange(0, k as int);
            let ghost next = self.links@.subrange(0, k as int + 1);
            proof {
                assert(next.drop_last() =~= prefix);
                assert(next.last() == self.links@[k as int]);
                reveal(Seq::filter);
            }
            if !self.links[k].deleted && self.links[k].user_id == *user_id {
                out.push(self.links[k].copy_of());
            }
            k = k + 1;
        }
        proof {
            assert(self.links@.subrange(0, n as int) =~= self.links@);
        }
        out
    }
}

} // verus!
