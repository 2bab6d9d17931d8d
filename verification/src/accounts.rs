//! The single user, their credentials and the signing secret: the rules
//! that keep the service from ever holding two users, from locking its user
//! out, and from signing with more than one secret.

use crate::state::Rejection;
use crate::text::same_text;
use vstd::prelude::*;
use vstd::string::*;

verus! {

/// The user.
pub struct User {
    pub id: String,
    pub name: String,
}

/// Creating a user in table `pre` gives table `post` and says whether the
/// user was created: only an empty table takes one.
pub open spec fn creates(pre: Seq<User>, user: User, post: Seq<User>, created: bool) -> bool {
    &&& created == (pre.len() == 0)
    &&& created ==> post == seq![user]
    &&& !created ==> post == pre
}

/// The user table, which holds one user at most.
pub struct UserTable {
    rows: Vec<User>,
}

impl View for UserTable {
    type V = Seq<User>;

    closed spec fn view(&self) -> Seq<User> {
        self.rows@
    }
}

impl UserTable {
    /// The table's invariant: there is never a second user.
    pub open spec fn wf(&self) -> bool {
        self@.len() <= 1
    }

    /// A table without a user.
    pub fn new() -> (t: Self)
        ensures
            t@ == Seq::<User>::empty(),
            t.wf(),
    {
        UserTable { rows: Vec::new() }
    }

    /// The user, if there is one.
    pub fn user(&self) -> (u: Option<&User>)
        ensures
            match u {
                Some(u) => self@.len() > 0 && *u == self@[0],
                None => self@.len() == 0,
            },
    {
        if self.rows.len() > 0 {
            Some(&self.rows[0])
        } else {
            None
        }
    }

    /// Bootstrap guard: creates the user only if the table is empty, and
    /// says whether it did. Check and insertion are one step.
    pub fn create_user_if_absent(&mut self, id: String, name: String) -> (created: bool)
        requires
            old(self).wf(),
        ensures
            final(self).wf(),
            creates(old(self)@, User { id, name }, final(self)@, created),
    {
        if self.rows.len() == 0 {
            self.rows.push(User { id, name });
            assert(self.rows@ =~= seq![User { id, name }]);
            true
        } else {
            false
        }
    }
}

/// Of two callers that race to register the first user, whichever comes
/// first wins and the other is told so; one user exists afterwards.
pub proof fn exactly_one_first_user(
    first: User,
    second: User,
    mid: Seq<User>,
    first_created: bool,
    post: Seq<User>,
    second_created: bool,
)
    requires
        creates(Seq::<User>::empty(), first, mid, first_created),
        creates(mid, second, post, second_created),
    ensures
        first_created,
        !second_created,
        post == seq![first],
        bootstrap_result(first_created) is Ok,
        bootstrap_result(second_created) == Err::<(), Rejection>(Rejection::Conflict),
{
}

/// No call of the guard ever makes a second user, and none touches a user
/// that is there.
pub proof fn never_a_second_user(pre: Seq<User>, user: User, post: Seq<User>, created: bool)
    requires
        pre.len() <= 1,
        creates(pre, user, post, created),
    ensures
        post.len() == 1,
        pre.len() == 1 ==> post == pre && !created,
{
}

/// What the guard's answer means for the registration that asked.
pub open spec fn bootstrap_result(created: bool) -> Result<(), Rejection> {
    if created {
        Ok(())
    } else {
        Err(Rejection::Conflict)
    }
}

/// The registration that lost the race for the first user fails with a
/// conflict.
pub fn bootstrap_outcome(created: bool) -> (r: Result<(), Rejection>)
    ensures
        r == bootstrap_result(created),
{
    if created {
        Ok(())
    } else {
        Err(Rejection::Conflict)
    }
}

/// A stored credential.
pub struct PasskeyRecord {
    pub id: i64,
    pub user_id: String,
    pub name: String,
    /// The verifier's record of the credential, serialized.
    pub data: String,
    pub created: String,
    pub last_used: Option<String>,
}

/// `row` is the credential `id` of `user`.
pub open spec fn is_credential(row: PasskeyRecord, id: i64, user: Seq<char>) -> bool {
    row.id == id && row.user_id@ == user
}

/// Number of credentials that `user` owns.
pub open spec fn owned_count(rows: Seq<PasskeyRecord>, user: Seq<char>) -> nat
    decreases rows.len(),
{
    if rows.len() == 0 {
        0
    } else {
        owned_count(rows.drop_last(), user) + if rows.last().user_id@ == user {
            1nat
        } else {
            0nat
        }
    }
}

/// `user` owns a credential `id`.
pub open spec fn owns(rows: Seq<PasskeyRecord>, id: i64, user: Seq<char>) -> bool {
    exists|i: int| 0 <= i < rows.len() && is_credential(#[trigger] rows[i], id, user)
}

/// No two credentials share a row id.
pub open spec fn distinct_row_ids(rows: Seq<PasskeyRecord>) -> bool {
    forall|i: int, j: int| 0 <= i < j < rows.len() ==> (#[trigger] rows[i]).id != (#[trigger] rows[j]).id
}

/// Deleting credential `id` of `user` from `pre` gives `post` and `out`:
/// the credential leaves if the user owns it and owns another; the last
/// credential stays, which is a bad request; one that the user does not own
/// is not found.
pub open spec fn deletes(
    pre: Seq<PasskeyRecord>,
    id: i64,
    user: Seq<char>,
    post: Seq<PasskeyRecord>,
    out: Result<(), Rejection>,
) -> bool {
    match out {
        Ok(_) => owned_count(pre, user) > 1 && exists|i: int|
            0 <= i < pre.len() && is_credential(#[trigger] pre[i], id, user) && post == pre.remove(
                i,
            ),
        Err(e) => post == pre && if owns(pre, id, user) {
            e == Rejection::BadRequest && owned_count(pre, user) <= 1
        } else {
            e == Rejection::NotFound
        },
    }
}

/// Taking out one of a user's credentials lowers their count by one.
pub proof fn owned_count_after_remove(rows: Seq<PasskeyRecord>, user: Seq<char>, i: int)
    requires
        0 <= i < rows.len(),
        rows[i].user_id@ == user,
    ensures
        owned_count(rows.remove(i), user) + 1 == owned_count(rows, user),
    decreases rows.len(),
{
    if i == rows.len() - 1 {
        assert(rows.remove(i) =~= rows.drop_last());
    } else {
        assert(rows.remove(i).drop_last() =~= rows.drop_last().remove(i));
        assert(rows.remove(i).last() == rows.last());
        owned_count_after_remove(rows.drop_last(), user, i);
    }
}

/// A user who owns a credential owns at least one.
pub proof fn owner_has_some(rows: Seq<PasskeyRecord>, user: Seq<char>, i: int)
    requires
        0 <= i < rows.len(),
        rows[i].user_id@ == user,
    ensures
        owned_count(rows, user) >= 1,
    decreases rows.len(),
{
    if i < rows.len() - 1 {
        assert(rows.drop_last()[i] == rows[i]);
        owner_has_some(rows.drop_last(), user, i);
    }
}

/// The credentials.
pub struct PasskeyTable {
    rows: Vec<PasskeyRecord>,
}

impl View for PasskeyTable {
    type V = Seq<PasskeyRecord>;

    closed spec fn view(&self) -> Seq<PasskeyRecord> {
        self.rows@
    }
}

impl PasskeyTable {
    /// The table's invariant: row ids are unique.
    pub open spec fn wf(&self) -> bool {
        distinct_row_ids(self@)
    }

    /// A table without credentials.
    pub fn new() -> (t: Self)
        ensures
            t@ == Seq::<PasskeyRecord>::empty(),
            t.wf(),
    {
        PasskeyTable { rows: Vec::new() }
    }

    /// Number of credentials of all users.
    pub fn len(&self) -> (n: usize)
        ensures
            n == self@.len(),
    {
        self.rows.len()
    }

    fn position(&self, id: i64) -> (r: Option<usize>)
        ensures
            match r {
                Some(i) => i < self@.len() && self@[i as int].id == id,
                None => forall|j: int| 0 <= j < self@.len() ==> (#[trigger] self@[j]).id != id,
            },
    {
        let n: usize = self.rows.len();
        let mut i: usize = 0;
        while i < n
            invariant
                i <= n,
                n == self.rows@.len(),
                forall|j: int| 0 <= j < i ==> (#[trigger] self.rows@[j]).id != id,
            decreases n - i,
        {
            if self.rows[i].id == id {
                return Some(i);
            }
            i += 1;
        }
        None
    }

    /// Adds a credential, unless its row id is taken.
    pub fn insert(&mut self, record: PasskeyRecord) -> (added: bool)
        requires
            old(self).wf(),
        ensures
            final(self).wf(),
            added == (forall|j: int|
                0 <= j < old(self)@.len() ==> (#[trigger] old(self)@[j]).id != record.id),
            added ==> final(self)@ == old(self)@.push(record),
            !added ==> final(self)@ == old(self)@,
    {
        match self.position(record.id) {
            Some(_) => false,
            None => {
                self.rows.push(record);
                true
            },
        }
    }

    /// Number of credentials that `user_id` owns.
    pub fn count_for(&self, user_id: &str) -> (n: usize)
        ensures
            n == owned_count(self@, user_id@),
    {
        let len: usize = self.rows.len();
        let mut n: usize = 0;
        let mut i: usize = 0;
        assert(self.rows@.subrange(0, 0) =~= Seq::<PasskeyRecord>::empty());
        while i < len
            invariant
                i <= len,
                len == self.rows@.len(),
                n <= i,
                n == owned_count(self.rows@.subrange(0, i as int), user_id@),
            decreases len - i,
        {
            assert(self.rows@.subrange(0, i + 1).drop_last() =~= self.rows@.subrange(0, i as int));
            assert(self.rows@.subrange(0, i + 1).last() == self.rows@[i as int]);
            if same_text(self.rows[i].user_id.as_str(), user_id) {
                n += 1;
            }
            i += 1;
        }
        assert(self.rows@.subrange(0, len as int) =~= self.rows@);
        n
    }

    /// Deletes credential `id` of `user_id`, unless it is their last one.
    pub fn delete(&mut self, id: i64, user_id: &str) -> (out: Result<(), Rejection>)
        requires
            old(self).wf(),
        ensures
            final(self).wf(),
            deletes(old(self)@, id, user_id@, final(self)@, out),
    {
        let i = match self.position(id) {
            Some(i) => i,
            None => {
                return Err(Rejection::NotFound);
            },
        };
        if !same_text(self.rows[i].user_id.as_str(), user_id) {
            assert(!owns(self@, id, user_id@)) by {
                if owns(self@, id, user_id@) {
                    let k = choose|k: int|
                        0 <= k < self@.len() && is_credential(#[trigger] self@[k], id, user_id@);
                    if k < i {
                        assert(self@[k].id != self@[i as int].id);
                    } else if i < k {
                        assert(self@[i as int].id != self@[k].id);
                    }
                }
            }
            return Err(Rejection::NotFound);
        }
        assert(is_credential(self@[i as int], id, user_id@));
        if self.count_for(user_id) <= 1 {
            return Err(Rejection::BadRequest);
        }
        let ghost pre = self.rows@;
        self.rows.remove(i);
        assert(distinct_row_ids(self.rows@)) by {
            assert forall|a: int, b: int| 0 <= a < b < pre.remove(i as int).len() implies (
            #[trigger] pre.remove(i as int)[a]).id != (#[trigger] pre.remove(i as int)[b]).id by {
                let a0 = if a < i { a } else { a + 1 };
                let b0 = if b < i { b } else { b + 1 };
                assert(pre.remove(i as int)[a] == pre[a0]);
                assert(pre.remove(i as int)[b] == pre[b0]);
            }
        }
        Ok(())
    }
}

/// Deleting never leaves a user with no credential: the sole credential is
/// refused and stays; of two, one leaves and exactly one is left; and a user
/// who had a credential before any deletion has one after it.
pub proof fn delete_keeps_a_credential(
    pre: Seq<PasskeyRecord>,
    id: i64,
    user: Seq<char>,
    post: Seq<PasskeyRecord>,
    out: Result<(), Rejection>,
)
    requires
        deletes(pre, id, user, post, out),
    ensures
        owns(pre, id, user) && owned_count(pre, user) == 1 ==> out == Err::<(), Rejection>(
            Rejection::BadRequest,
        ) && post == pre,
        owns(pre, id, user) && owned_count(pre, user) == 2 ==> out is Ok && owned_count(post, user)
            == 1,
        owned_count(pre, user) >= 1 ==> owned_count(post, user) >= 1,
        out is Ok ==> owned_count(post, user) + 1 == owned_count(pre, user),
        out == Err::<(), Rejection>(Rejection::BadRequest) ==> owned_count(pre, user) == 1,
{
    if owns(pre, id, user) {
        let k = choose|k: int| 0 <= k < pre.len() && is_credential(#[trigger] pre[k], id, user);
        owner_has_some(pre, user, k);
    }
    if out is Ok {
        let i = choose|i: int|
            0 <= i < pre.len() && is_credential(#[trigger] pre[i], id, user) && post == pre.remove(i);
        owned_count_after_remove(pre, user, i);
    }
}

/// What the storage engine's answer to a guarded delete means: a row left,
/// or none did because it was the last one, or because there was none.
pub open spec fn delete_result(rows_affected: u64, exists: bool) -> Result<(), Rejection> {
    if rows_affected != 0 {
        Ok(())
    } else if exists {
        Err(Rejection::BadRequest)
    } else {
        Err(Rejection::NotFound)
    }
}

/// Reads the outcome of a guarded delete.
pub fn delete_outcome(rows_affected: u64, exists: bool) -> (r: Result<(), Rejection>)
    ensures
        r == delete_result(rows_affected, exists),
{
    if rows_affected != 0 {
        Ok(())
    } else if exists {
        Err(Rejection::BadRequest)
    } else {
        Err(Rejection::NotFound)
    }
}

/// Reads the outcome of a rename: no row changed means no such credential.
pub fn rename_outcome(rows_affected: u64) -> (r: Result<(), Rejection>)
    ensures
        r == if rows_affected == 0 {
            Err::<(), Rejection>(Rejection::NotFound)
        } else {
            Ok::<(), Rejection>(())
        },
{
    if rows_affected == 0 {
        Err(Rejection::NotFound)
    } else {
        Ok(())
    }
}

/// Length of a signing secret, in bytes.
pub const SECRET_LEN: usize = 64;

/// `RngCore::fill_bytes` on the thread's generator: `len` random bytes.
#[verifier::external_body]
fn random_bytes(len: usize) -> (bytes: Vec<u8>)
    ensures
        bytes@.len() == len,
{
    let mut bytes = vec![0u8; len];
    rand::RngCore::fill_bytes(&mut rand::rng(), &mut bytes);
    bytes
}

/// The secret to sign with, and whether it is new and has to be stored.
pub struct SigningKey {
    pub secret: Vec<u8>,
    pub is_new: bool,
}

/// Settles the signing secret at startup: the stored one where there is
/// one, else a fresh one of 64 random bytes, to be stored once.
pub fn init_jwt_secret(existing: Option<Vec<u8>>) -> (key: SigningKey)
    ensures
        match existing {
            Some(secret) => key.secret == secret && !key.is_new,
            None => key.secret@.len() == SECRET_LEN && key.is_new,
        },
{
    match existing {
        Some(secret) => SigningKey { secret, is_new: false },
        None => SigningKey { secret: random_bytes(SECRET_LEN), is_new: true },
    }
}

} // verus!
