//! Ceremony store: the state of registrations and sign-ins that have begun
//! and not yet completed, each under an unguessable challenge id.
//!
//! A row can be redeemed once, by the kind of ceremony that began it, and
//! only before it expires. Redeeming takes the row out in the same step that
//! reads it, so no two completions can be given the same state.

use crate::state::Rejection;
use crate::text::same_text;
use vstd::prelude::*;
use vstd::string::*;

verus! {

/// How long a ceremony may take, in seconds.
pub const CEREMONY_TTL_SECONDS: i64 = 300;

/// The two kinds of ceremony.
#[derive(Clone, Copy, Debug, PartialEq, Eq, Structural)]
pub enum CeremonyKind {
    Registration,
    Authentication,
}

/// What a registration needs to be completed.
pub struct RegistrationContext {
    /// The verifier's own state, serialized.
    pub webauthn_state: String,
    pub user_id: String,
    pub user_name: String,
    /// Name chosen for the new credential.
    pub passkey_name: String,
    /// Whether this registration sets up the first and only user.
    pub is_new_user: bool,
}

/// What a sign-in needs to be completed.
pub struct AuthenticationContext {
    /// The verifier's own state, serialized.
    pub webauthn_state: String,
    pub user_id: String,
    /// Origin to hand the session off to, if the sign-in asked for one.
    pub redirect_origin: Option<String>,
    pub redirect_path: Option<String>,
}

/// The context of a ceremony, by kind.
pub enum CeremonyContext {
    Registration(RegistrationContext),
    Authentication(AuthenticationContext),
}

/// Kind of ceremony that a context belongs to.
pub open spec fn kind_of(context: CeremonyContext) -> CeremonyKind {
    match context {
        CeremonyContext::Registration(_) => CeremonyKind::Registration,
        CeremonyContext::Authentication(_) => CeremonyKind::Authentication,
    }
}

impl CeremonyContext {
    /// The kind of ceremony this context belongs to.
    pub fn kind(&self) -> (k: CeremonyKind)
        ensures
            k == kind_of(*self),
    {
        match self {
            CeremonyContext::Registration(_) => CeremonyKind::Registration,
            CeremonyContext::Authentication(_) => CeremonyKind::Authentication,
        }
    }
}

/// One ceremony in progress.
pub struct CeremonyRow {
    pub challenge_id: String,
    pub context: CeremonyContext,
    /// The moment from which the row can no longer be redeemed.
    pub expires_at: i64,
}

/// No two rows share a challenge id.
pub open spec fn distinct_ids(rows: Seq<CeremonyRow>) -> bool {
    forall|i: int, j: int|
        0 <= i < j < rows.len() ==> (#[trigger] rows[i]).challenge_id@ != (
        #[trigger] rows[j]).challenge_id@
}

/// Some row carries the id.
pub open spec fn has_id(rows: Seq<CeremonyRow>, id: Seq<char>) -> bool {
    exists|i: int| 0 <= i < rows.len() && (#[trigger] rows[i]).challenge_id@ == id
}

/// Some row stands under an id of the length that fresh ids have. Only
/// such a row can be in the way of a ceremony that begins.
pub open spec fn has_drawn_id(rows: Seq<CeremonyRow>) -> bool {
    exists|i: int| 0 <= i < rows.len() && (#[trigger] rows[i]).challenge_id@.len() == 36
}

/// `row` can be redeemed under `id` by a ceremony of `kind` at `now`.
pub open spec fn redeemable(row: CeremonyRow, id: Seq<char>, kind: CeremonyKind, now: i64) -> bool {
    row.challenge_id@ == id && kind_of(row.context) == kind && row.expires_at > now
}

/// Redeeming `id` at `now` turns rows `pre` into `post` and gives `out`:
/// a redeemable row leaves with its context; without one nothing changes.
pub open spec fn redeems(
    pre: Seq<CeremonyRow>,
    id: Seq<char>,
    kind: CeremonyKind,
    now: i64,
    post: Seq<CeremonyRow>,
    out: Option<CeremonyContext>,
) -> bool {
    match out {
        Some(context) => exists|i: int|
            0 <= i < pre.len() && redeemable(#[trigger] pre[i], id, kind, now) && context
                == pre[i].context && post == pre.remove(i),
        None => post == pre && forall|i: int|
            0 <= i < pre.len() ==> !redeemable(#[trigger] pre[i], id, kind, now),
    }
}

/// The rows that have not expired before `now`, in their order.
pub open spec fn unexpired(rows: Seq<CeremonyRow>, now: i64) -> Seq<CeremonyRow>
    decreases rows.len(),
{
    if rows.len() == 0 {
        Seq::empty()
    } else {
        let rest = unexpired(rows.drop_last(), now);
        if rows.last().expires_at >= now {
            rest.push(rows.last())
        } else {
            rest
        }
    }
}

/// Dropping an expired row does not change which rows are unexpired.
proof fn unexpired_ignores_expired(rows: Seq<CeremonyRow>, now: i64, i: int)
    requires
        0 <= i < rows.len(),
        rows[i].expires_at < now,
    ensures
        unexpired(rows.remove(i), now) == unexpired(rows, now),
    decreases rows.len(),
{
    if i == rows.len() - 1 {
        assert(rows.remove(i) =~= rows.drop_last());
    } else {
        assert(rows.remove(i).drop_last() =~= rows.drop_last().remove(i));
        assert(rows.remove(i).last() == rows.last());
        unexpired_ignores_expired(rows.drop_last(), now, i);
    }
}

/// Rows of which none has expired are all kept.
proof fn unexpired_keeps_all(rows: Seq<CeremonyRow>, now: i64)
    requires
        forall|i: int| 0 <= i < rows.len() ==> (#[trigger] rows[i]).expires_at >= now,
    ensures
        unexpired(rows, now) == rows,
    decreases rows.len(),
{
    if rows.len() > 0 {
        unexpired_keeps_all(rows.drop_last(), now);
        assert(rows.drop_last().push(rows.last()) =~= rows);
    }
}

/// The unexpired rows are exactly the rows that have not expired.
pub proof fn unexpired_members(rows: Seq<CeremonyRow>, now: i64)
    ensures
        forall|j: int|
            0 <= j < unexpired(rows, now).len() ==> (#[trigger] unexpired(rows, now)[j]).expires_at
                >= now && rows.contains(unexpired(rows, now)[j]),
        forall|i: int|
            0 <= i < rows.len() && (#[trigger] rows[i]).expires_at >= now ==> unexpired(
                rows,
                now,
            ).contains(rows[i]),
        distinct_ids(rows) ==> distinct_ids(unexpired(rows, now)),
    decreases rows.len(),
{
    if rows.len() > 0 {
        let front = rows.drop_last();
        let kept = unexpired(front, now);
        let all = unexpired(rows, now);
        unexpired_members(front, now);
        assert forall|j: int| 0 <= j < all.len() implies (#[trigger] all[j]).expires_at >= now
            && rows.contains(all[j]) by {
            if j < kept.len() {
                assert(all[j] == kept[j]);
                assert(front.contains(kept[j]));
                let k = choose|k: int| 0 <= k < front.len() && front[k] == kept[j];
                assert(rows[k] == all[j]);
            } else {
                assert(all[j] == rows[rows.len() - 1]);
            }
        }
        assert forall|i: int| 0 <= i < rows.len() && (#[trigger] rows[i]).expires_at
            >= now implies all.contains(rows[i]) by {
            if i < front.len() {
                assert(front[i] == rows[i]);
                assert(kept.contains(front[i]));
                let k = choose|k: int| 0 <= k < kept.len() && kept[k] == front[i];
                assert(all[k] == rows[i]);
            } else {
                assert(all[all.len() - 1] == rows[i]);
            }
        }
        if distinct_ids(rows) {
            assert(distinct_ids(front)) by {
                assert forall|i: int, j: int| 0 <= i < j < front.len() implies (
                #[trigger] front[i]).challenge_id@ != (#[trigger] front[j]).challenge_id@ by {
                    assert(front[i] == rows[i] && front[j] == rows[j]);
                }
            }
            assert forall|i: int, j: int| 0 <= i < j < all.len() implies (
            #[trigger] all[i]).challenge_id@ != (#[trigger] all[j]).challenge_id@ by {
                if j < kept.len() {
                    assert(all[i] == kept[i] && all[j] == kept[j]);
                } else {
                    assert(all[j] == rows[rows.len() - 1]);
                    assert(all[i] == kept[i]);
                    assert(front.contains(kept[i]));
                    let k = choose|k: int| 0 <= k < front.len() && front[k] == kept[i];
                    assert(rows[k] == all[i]);
                }
            }
        }
    }
}

/// `Uuid::new_v4().to_string()`: a random id in hyphenated form, which is 36
/// characters long. Which id comes back is open.
#[verifier::external_body]
pub(crate) fn fresh_id() -> (id: String)
    ensures
        id@.len() == 36,
{
    uuid::Uuid::new_v4().to_string()
}

/// The ceremonies in progress.
pub struct CeremonyStore {
    rows: Vec<CeremonyRow>,
}

impl View for CeremonyStore {
    type V = Seq<CeremonyRow>;

    closed spec fn view(&self) -> Seq<CeremonyRow> {
        self.rows@
    }
}

impl CeremonyStore {
    /// The store's invariant: a challenge id names at most one row.
    pub open spec fn wf(&self) -> bool {
        distinct_ids(self@)
    }

    /// A store without ceremonies.
    pub fn new() -> (store: Self)
        ensures
            store@ == Seq::<CeremonyRow>::empty(),
            store.wf(),
    {
        CeremonyStore { rows: Vec::new() }
    }

    /// Number of ceremonies in progress, expired ones that were not swept
    /// yet included.
    pub fn len(&self) -> (n: usize)
        ensures
            n == self@.len(),
    {
        self.rows.len()
    }

    /// Whether a row stands under `challenge_id`.
    pub fn contains(&self, challenge_id: &str) -> (b: bool)
        ensures
            b == has_id(self@, challenge_id@),
    {
        let n: usize = self.rows.len();
        let mut i: usize = 0;
        while i < n
            invariant
                i <= n,
                n == self.rows@.len(),
                forall|j: int| 0 <= j < i ==> (#[trigger] self.rows@[j]).challenge_id@ != challenge_id@,
            decreases n - i,
        {
            if same_text(self.rows[i].challenge_id.as_str(), challenge_id) {
                return true;
            }
            i += 1;
        }
        false
    }

    /// The row under `challenge_id`, if there is one; the store stays as it
    /// is.
    pub fn get(&self, challenge_id: &str) -> (r: Option<&CeremonyRow>)
        ensures
            match r {
                Some(row) => row.challenge_id@ == challenge_id@ && self@.contains(*row),
                None => !has_id(self@, challenge_id@),
            },
    {
        let n: usize = self.rows.len();
        let mut i: usize = 0;
        while i < n
            invariant
                i <= n,
                n == self.rows@.len(),
                forall|j: int| 0 <= j < i ==> (#[trigger] self.rows@[j]).challenge_id@ != challenge_id@,
            decreases n - i,
        {
            if same_text(self.rows[i].challenge_id.as_str(), challenge_id) {
                return Some(&self.rows[i]);
            }
            i += 1;
        }
        None
    }

    /// Puts a ceremony under `challenge_id`, unless that id is taken.
    pub fn insert(&mut self, challenge_id: String, context: CeremonyContext, expires_at: i64) -> (added:
        bool)
        requires
            old(self).wf(),
        ensures
            final(self).wf(),
            added == !has_id(old(self)@, challenge_id@),
            added ==> final(self)@ == old(self)@.push(
                CeremonyRow { challenge_id, context, expires_at },
            ),
            !added ==> final(self)@ == old(self)@,
    {
        if self.contains(challenge_id.as_str()) {
            return false;
        }
        let row = CeremonyRow { challenge_id, context, expires_at };
        self.rows.push(row);
        true
    }

    /// Begins a ceremony at `now`: stores `context` under a fresh random id,
    /// to expire `ttl` seconds later, and returns the id. Should the id be
    /// taken, nothing is stored; that can only be where the store holds a
    /// row under an id of the same length, so on an empty store, and on one
    /// filled by other means with ids of another length, a ceremony always
    /// begins.
    pub fn begin(&mut self, context: CeremonyContext, now: i64, ttl: i64) -> (r: Result<
        String,
        Rejection,
    >)
        requires
            old(self).wf(),
            now + ttl <= i64::MAX,
            now + ttl >= i64::MIN,
        ensures
            final(self).wf(),
            match r {
                Ok(id) => !has_id(old(self)@, id@) && id@.len() == 36 && final(self)@ == old(
                    self,
                )@.push(
                    CeremonyRow { challenge_id: id, context, expires_at: (now + ttl) as i64 },
                ),
                Err(e) => e == Rejection::Internal && final(self)@ == old(self)@,
            },
            r is Err ==> has_drawn_id(old(self)@),
            old(self)@.len() == 0 ==> r is Ok,
    {
        let id = fresh_id();
        let key = id.clone();
        if self.insert(key, context, now + ttl) {
            Ok(id)
        } else {
            proof {
                let i = choose|i: int|
                    0 <= i < old(self)@.len() && (#[trigger] old(self)@[i]).challenge_id@ == id@;
                assert(old(self)@[i].challenge_id@.len() == 36);
            }
            Err(Rejection::Internal)
        }
    }

    /// Redeems the ceremony under `challenge_id`: if a row with that id
    /// belongs to a ceremony of `expected_kind` and has not expired at `now`,
    /// it is taken out and its context returned. Otherwise nothing changes
    /// and nothing is returned, whatever the reason.
    pub fn redeem(&mut self, challenge_id: &str, expected_kind: CeremonyKind, now: i64) -> (out:
        Option<CeremonyContext>)
        requires
            old(self).wf(),
        ensures
            final(self).wf(),
            redeems(old(self)@, challenge_id@, expected_kind, now, final(self)@, out),
    {
        let n: usize = self.rows.len();
        let mut i: usize = 0;
        while i < n
            invariant
                i <= n,
                n == self.rows@.len(),
                self.rows@ == old(self).rows@,
                distinct_ids(self.rows@),
                forall|j: int|
                    0 <= j < i ==> !redeemable(
                        #[trigger] self.rows@[j],
                        challenge_id@,
                        expected_kind,
                        now,
                    ),
            decreases n - i,
        {
            if same_text(self.rows[i].challenge_id.as_str(), challenge_id)
                && self.rows[i].context.kind() == expected_kind && self.rows[i].expires_at > now {
                let ghost pre = self.rows@;
                let row = self.rows.remove(i);
                assert(redeemable(pre[i as int], challenge_id@, expected_kind, now));
                assert(distinct_ids(self.rows@)) by {
                    assert forall|a: int, b: int| 0 <= a < b < pre.remove(i as int).len() implies (
                    #[trigger] pre.remove(i as int)[a]).challenge_id@ != (#[trigger] pre.remove(
                        i as int,
                    )[b]).challenge_id@ by {
                        let a0 = if a < i { a } else { a + 1 };
                        let b0 = if b < i { b } else { b + 1 };
                        assert(pre.remove(i as int)[a] == pre[a0]);
                        assert(pre.remove(i as int)[b] == pre[b0]);
                    }
                }
                return Some(row.context);
            }
            i += 1;
        }
        None
    }

    /// Drops the rows that expired before `now`. This only tidies up:
    /// redeeming checks the expiry itself.
    pub fn sweep_expired(&mut self, now: i64)
        requires
            old(self).wf(),
        ensures
            final(self).wf(),
            final(self)@ == unexpired(old(self)@, now),
    {
        let mut i: usize = 0;
        while i < self.rows.len()
            invariant
                i <= self.rows@.len(),
                unexpired(self.rows@, now) == unexpired(old(self).rows@, now),
                forall|j: int| 0 <= j < i ==> (#[trigger] self.rows@[j]).expires_at >= now,
            decreases self.rows@.len() - i,
        {
            if self.rows[i].expires_at < now {
                proof {
                    unexpired_ignores_expired(self.rows@, now, i as int);
                }
                self.rows.remove(i);
            } else {
                i += 1;
            }
        }
        proof {
            unexpired_keeps_all(self.rows@, now);
            unexpired_members(old(self).rows@, now);
        }
    }
}

/// A challenge id is redeemed at most once: after a redemption that gave a
/// context, every later one under the same id gives nothing and changes
/// nothing, whatever kind it expects and whenever it comes.
pub proof fn redeem_succeeds_at_most_once(
    pre: Seq<CeremonyRow>,
    id: Seq<char>,
    first_kind: CeremonyKind,
    first_now: i64,
    mid: Seq<CeremonyRow>,
    first: Option<CeremonyContext>,
    second_kind: CeremonyKind,
    second_now: i64,
    post: Seq<CeremonyRow>,
    second: Option<CeremonyContext>,
)
    requires
        distinct_ids(pre),
        redeems(pre, id, first_kind, first_now, mid, first),
        redeems(mid, id, second_kind, second_now, post, second),
        first is Some,
    ensures
        second is None,
        post == mid,
        !has_id(mid, id),
{
    let i = choose|i: int|
        0 <= i < pre.len() && redeemable(#[trigger] pre[i], id, first_kind, first_now) && first.unwrap()
            == pre[i].context && mid == pre.remove(i);
    assert forall|j: int| 0 <= j < mid.len() implies (#[trigger] mid[j]).challenge_id@ != id by {
        let j0 = if j < i { j } else { j + 1 };
        assert(mid[j] == pre[j0]);
        assert(pre[i].challenge_id@ == id);
    }
    if second is Some {
        let j = choose|j: int|
            0 <= j < mid.len() && redeemable(#[trigger] mid[j], id, second_kind, second_now);
        assert(mid[j].challenge_id@ == id);
    }
}

/// A row that has expired is never redeemed: where every row under the id
/// expires at or before `now`, redeeming gives nothing and changes nothing.
pub proof fn expired_row_is_never_redeemed(
    pre: Seq<CeremonyRow>,
    id: Seq<char>,
    kind: CeremonyKind,
    now: i64,
    post: Seq<CeremonyRow>,
    out: Option<CeremonyContext>,
)
    requires
        redeems(pre, id, kind, now, post, out),
        forall|i: int|
            0 <= i < pre.len() && (#[trigger] pre[i]).challenge_id@ == id ==> pre[i].expires_at
                <= now,
    ensures
        out is None,
        post == pre,
{
    if out is Some {
        let i = choose|i: int| 0 <= i < pre.len() && redeemable(#[trigger] pre[i], id, kind, now);
        assert(pre[i].challenge_id@ == id);
    }
}

/// Whether the sweep ran before a redemption makes no difference to what is
/// redeemed: a sweep at an earlier or the same moment leaves every row that
/// can still be redeemed, and nothing else can be.
pub proof fn sweep_does_not_change_redemption(
    rows: Seq<CeremonyRow>,
    swept_at: i64,
    id: Seq<char>,
    kind: CeremonyKind,
    now: i64,
    post_unswept: Seq<CeremonyRow>,
    out_unswept: Option<CeremonyContext>,
    post_swept: Seq<CeremonyRow>,
    out_swept: Option<CeremonyContext>,
)
    requires
        distinct_ids(rows),
        swept_at <= now,
        redeems(rows, id, kind, now, post_unswept, out_unswept),
        redeems(unexpired(rows, swept_at), id, kind, now, post_swept, out_swept),
    ensures
        out_unswept == out_swept,
{
    let swept = unexpired(rows, swept_at);
    unexpired_members(rows, swept_at);
    if out_swept is Some {
        let j = choose|j: int|
            0 <= j < swept.len() && redeemable(#[trigger] swept[j], id, kind, now) && out_swept.unwrap()
                == swept[j].context;
        assert(rows.contains(swept[j]));
        let k = choose|k: int| 0 <= k < rows.len() && rows[k] == swept[j];
        assert(redeemable(rows[k], id, kind, now));
        assert(out_unswept is Some);
        let i = choose|i: int|
            0 <= i < rows.len() && redeemable(#[trigger] rows[i], id, kind, now)
                && out_unswept.unwrap() == rows[i].context;
        assert(i == k) by {
            if i != k {
                if i < k {
                    assert(rows[i].challenge_id@ != rows[k].challenge_id@);
                } else {
                    assert(rows[k].challenge_id@ != rows[i].challenge_id@);
                }
            }
        }
    } else {
        if out_unswept is Some {
            let i = choose|i: int|
                0 <= i < rows.len() && redeemable(#[trigger] rows[i], id, kind, now);
            assert(rows[i].expires_at >= swept_at);
            assert(swept.contains(rows[i]));
            let j = choose|j: int| 0 <= j < swept.len() && swept[j] == rows[i];
            assert(redeemable(swept[j], id, kind, now));
        }
    }
}

} // verus!
