//! The paste lifecycle over a record store: a record is servable until its
//! expiry passes, a burn-after-read record is deleted right after being
//! served once outside a short grace window, and a periodic sweep purges
//! every expired record. Lifecycle states are derived from timestamps and
//! flags at read time, never stored.

use vstd::prelude::*;
use crate::PasteError;
use crate::ids::{generate_id, is_id_char, ID_LENGTH};
use crate::models::{ExpirationTime, PasteData, PasteModel};

verus! {

/// A burn-after-read record read more than this many seconds after its
/// creation is deleted immediately after being served. Reads within the
/// window leave the record in place, a deliberate tolerance for duplicate
/// or prefetch requests on a fresh link.
pub const BURN_GRACE_SECONDS: i64 = 30;

/// How often the reaper sweeps the store.
pub const SWEEP_INTERVAL_SECONDS: i64 = 60;

/// A record is servable while its expiry has not passed.
pub open spec fn servable(r: PasteModel, now: int) -> bool {
    now <= r.expires_at
}

/// Serving a burn-after-read record outside the grace window deletes it.
pub open spec fn burns_on_read(r: PasteModel, now: int) -> bool {
    r.burn_after_read && now - r.created_at > BURN_GRACE_SECONDS
}

/// Some record in the sequence carries this id.
pub open spec fn has_id(s: Seq<PasteModel>, id: Seq<char>) -> bool {
    exists|i: int| 0 <= i < s.len() && s[i].id == id
}

/// The index of the record carrying this id; meaningful when ids are unique.
pub open spec fn index_of_id(s: Seq<PasteModel>, id: Seq<char>) -> int {
    choose|i: int| 0 <= i < s.len() && s[i].id == id
}

/// No two records share an id, and every record is well formed.
pub open spec fn store_inv(s: Seq<PasteModel>) -> bool {
    &&& forall|i: int, j: int| 0 <= i < j < s.len() ==> s[i].id != s[j].id
    &&& forall|i: int| 0 <= i < s.len() ==> (#[trigger] s[i]).wf()
}

/// What a read at `now` serves: the record with this id, provided its
/// expiry has not passed. An expired record is withheld exactly as a
/// missing one, whether or not a sweep has removed it yet.
pub open spec fn read_result(s: Seq<PasteModel>, id: Seq<char>, now: int) -> Option<PasteModel> {
    if has_id(s, id) && servable(s[index_of_id(s, id)], now) {
        Some(s[index_of_id(s, id)])
    } else {
        None
    }
}

/// The store's contents after a read at `now`: unchanged, unless a
/// burn-after-read record was served outside the grace window, in which
/// case that record is gone.
pub open spec fn after_read(s: Seq<PasteModel>, id: Seq<char>, now: int) -> Seq<PasteModel> {
    match read_result(s, id, now) {
        Some(r) => if burns_on_read(r, now) {
            s.remove(index_of_id(s, id))
        } else {
            s
        },
        None => s,
    }
}

/// The records a sweep at `now` leaves standing: those whose expiry has not
/// yet passed, in their original order.
pub open spec fn live_records(s: Seq<PasteModel>, now: int) -> Seq<PasteModel>
    decreases s.len(),
{
    if s.len() == 0 {
        Seq::<PasteModel>::empty()
    } else {
        let rest = live_records(s.drop_last(), now);
        if s.last().expires_at >= now {
            rest.push(s.last())
        } else {
            rest
        }
    }
}

/// The record store as this library models it: the rows the external store
/// would hold, every one of them created through `create` and therefore
/// well formed, with ids unique.
pub struct Store {
    records: Vec<PasteData>,
}

impl View for Store {
    type V = Seq<PasteModel>;

    closed spec fn view(&self) -> Seq<PasteModel> {
        self.records@.map_values(|r: PasteData| r@)
    }
}

impl Store {
    /// The store's invariant: unique ids, well-formed records.
    pub open spec fn wf(self) -> bool {
        store_inv(self@)
    }

    /// An empty store.
    pub fn new() -> (s: Store)
        ensures
            s@ =~= Seq::<PasteModel>::empty(),
            s.wf(),
    {
        Store { records: Vec::new() }
    }

    /// How many records the store holds.
    pub fn len(&self) -> (n: usize)
        ensures
            n == self@.len(),
    {
        self.records.len()
    }

    /// The index of the record carrying this id, if any.
    fn find(&self, id: &String) -> (r: Option<usize>)
        ensures
            r matches Some(i) ==> i < self@.len() && self@[i as int].id == id@,
            r is None ==> !has_id(self@, id@),
    {
        let mut i: usize = 0;
        while i < self.records.len()
            invariant
                i <= self.records.len(),
                forall|j: int| 0 <= j < i ==> self@[j].id != id@,
            decreases self.records.len() - i,
        {
            proof {
                assert(self@[i as int] == self.records@[i as int]@);
            }
            if self.records[i].id.eq(id) {
                return Some(i);
            }
            i = i + 1;
        }
        None
    }

    /// Whether a record with this id is present.
    pub fn contains(&self, id: &String) -> (r: bool)
        ensures
            r == has_id(self@, id@),
    {
        match self.find(id) {
            Some(_) => true,
            None => false,
        }
    }

    /// Insert a new record. Fails with `StoreError`, leaving the store
    /// unchanged, exactly when the id is already taken — the uniqueness
    /// conflict a persistent store would report.
    pub fn create(&mut self, rec: PasteData) -> (r: Result<(), PasteError>)
        requires
            old(self).wf(),
            rec@.wf(),
        ensures
            final(self).wf(),
            r is Ok ==> !has_id(old(self)@, rec@.id) && final(self)@ == old(self)@.push(rec@),
            r matches Err(e) ==> e == PasteError::StoreError && has_id(old(self)@, rec@.id)
                && final(self)@ == old(self)@,
    {
        match self.find(&rec.id) {
            Some(_) => Err(PasteError::StoreError),
            None => {
                self.records.push(rec);
                proof {
                    assert(self@ =~= old(self)@.push(rec@));
                }
                Ok(())
            },
        }
    }

    /// Remove the record with this id, if one is present; report whether
    /// anything was removed.
    pub fn delete(&mut self, id: &String) -> (removed: bool)
        requires
            old(self).wf(),
        ensures
            final(self).wf(),
            removed == has_id(old(self)@, id@),
            removed ==> final(self)@ == old(self)@.remove(index_of_id(old(self)@, id@)),
            !removed ==> final(self)@ == old(self)@,
    {
        match self.find(id) {
            Some(i) => {
                proof {
                    assert(index_of_id(self@, id@) == i as int);
                }
                self.records.remove(i);
                proof {
                    assert(self@ =~= old(self)@.remove(i as int));
                }
                true
            },
            None => false,
        }
    }
}

/// With unique ids, the record found at `i` is the one `index_of_id` picks.
proof fn lemma_index_unique(s: Seq<PasteModel>, id: Seq<char>, i: int)
    requires
        store_inv(s),
        0 <= i < s.len(),
        s[i].id == id,
    ensures
        has_id(s, id),
        index_of_id(s, id) == i,
{
    assert(has_id(s, id));
    let j = index_of_id(s, id);
    assert(0 <= j < s.len() && s[j].id == id);
    if i < j {
        assert(s[i].id != s[j].id);
    } else if j < i {
        assert(s[j].id != s[i].id);
    }
}

/// Removing a record preserves the store invariant, and no record with the
/// removed record's id remains.
proof fn lemma_store_inv_remove(s: Seq<PasteModel>, i: int)
    requires
        store_inv(s),
        0 <= i < s.len(),
    ensures
        store_inv(s.remove(i)),
        !has_id(s.remove(i), s[i].id),
{
    let t = s.remove(i);
    assert forall|a: int, b: int| 0 <= a < b < t.len() implies t[a].id != t[b].id by {
        assert(t[a] == (if a < i { s[a] } else { s[a + 1] }));
        assert(t[b] == (if b < i { s[b] } else { s[b + 1] }));
    }
    assert forall|a: int| 0 <= a < t.len() implies (#[trigger] t[a]).wf() && t[a].id != s[i].id by {
        assert(t[a] == (if a < i { s[a] } else { s[a + 1] }));
    }
}

/// The decision a read makes from a record's timestamps and flag, for
/// whoever drives an external row store through it: withhold the record,
/// or serve it, deleting it afterwards or not.
#[derive(Debug, Clone, Copy, PartialEq, Eq, Structural)]
pub enum ReadDecision {
    /// The record's expiry has passed: report not-found, serve nothing.
    Reject,
    /// Serve the ciphertext; delete the record right afterwards when a
    /// burn-after-read record was read outside the grace window.
    Serve { delete_after: bool },
}

/// Classify a read at `now` from the stored fields alone. Rejects exactly
/// the records whose expiry has passed; of the served ones, deletes exactly
/// the burn-after-read records read outside the grace window.
pub fn read_decision(created_at: i64, expires_at: i64, burn_after_read: bool, now: i64) -> (d:
    ReadDecision)
    ensures
        d is Reject <==> now > expires_at,
        d matches ReadDecision::Serve { delete_after } ==> delete_after == (burn_after_read
            && now - created_at > BURN_GRACE_SECONDS),
{
    if now > expires_at {
        ReadDecision::Reject
    } else {
        let age: i128 = (now as i128) - (created_at as i128);
        ReadDecision::Serve { delete_after: burn_after_read && age > BURN_GRACE_SECONDS as i128 }
    }
}

/// Read a paste. Serves the record with this id exactly when its expiry has
/// not passed at `now` — an expired record is withheld like a missing one,
/// whether or not the reaper has swept it yet — and removes a burn-after-read
/// record served outside the grace window, immediately after serving it.
pub fn get_paste(store: &mut Store, id: &String, now: i64) -> (r: Result<PasteData, PasteError>)
    requires
        old(store).wf(),
    ensures
        final(store).wf(),
        final(store)@ == after_read(old(store)@, id@, now as int),
        r matches Ok(p) ==> read_result(old(store)@, id@, now as int) == Some(p@),
        r matches Err(e) ==> e == PasteError::NotFound && read_result(old(store)@, id@, now as int)
            is None,
{
    match store.find(id) {
        None => Err(PasteError::NotFound),
        Some(i) => {
            proof {
                lemma_index_unique(store@, id@, i as int);
                assert(store@[i as int] == store.records@[i as int]@);
            }
            let rec = &store.records[i];
            let decision = read_decision(rec.created_at, rec.expires_at, rec.burn_after_read, now);
            match decision {
                ReadDecision::Reject => Err(PasteError::NotFound),
                ReadDecision::Serve { delete_after } => {
                    let out = rec.duplicate();
                    if delete_after {
                        proof {
                            lemma_store_inv_remove(store@, i as int);
                        }
                        store.records.remove(i);
                        proof {
                            assert(store@ =~= old(store)@.remove(i as int));
                        }
                    }
                    Ok(out)
                },
            }
        },
    }
}

/// Every surviving record of a sweep is one of the original records.
proof fn lemma_live_records_membership(s: Seq<PasteModel>, now: int)
    ensures
        forall|a: int|
            0 <= a < live_records(s, now).len() ==> exists|j: int|
                0 <= j < s.len() && #[trigger] live_records(s, now)[a] == s[j],
    decreases s.len(),
{
    if s.len() > 0 {
        lemma_live_records_membership(s.drop_last(), now);
        let rest = live_records(s.drop_last(), now);
        assert forall|a: int| 0 <= a < live_records(s, now).len() implies exists|j: int|
            0 <= j < s.len() && #[trigger] live_records(s, now)[a] == s[j] by {
            if a < rest.len() {
                let j = choose|j: int|
                    0 <= j < s.drop_last().len() && rest[a] == s.drop_last()[j];
                assert(live_records(s, now)[a] == s[j]);
            } else {
                assert(live_records(s, now)[a] == s[s.len() - 1]);
            }
        }
    }
}

/// A sweep preserves the store invariant.
proof fn lemma_live_records_inv(s: Seq<PasteModel>, now: int)
    requires
        store_inv(s),
    ensures
        store_inv(live_records(s, now)),
    decreases s.len(),
{
    if s.len() > 0 {
        assert(store_inv(s.drop_last()));
        lemma_live_records_inv(s.drop_last(), now);
        lemma_live_records_membership(s.drop_last(), now);
        let rest = live_records(s.drop_last(), now);
        if s.last().expires_at >= now {
            assert forall|a: int| 0 <= a < rest.len() implies rest[a].id != s.last().id by {
                let j = choose|j: int|
                    0 <= j < s.drop_last().len() && rest[a] == s.drop_last()[j];
                assert(s[j].id != s[s.len() - 1].id);
            }
        }
    }
}

/// Reaper idempotence: the records a sweep leaves standing are exactly the
/// records a second sweep at the same time leaves standing, so the second
/// sweep removes nothing.
pub proof fn lemma_sweep_idempotent(s: Seq<PasteModel>, now: int)
    ensures
        live_records(live_records(s, now), now) == live_records(s, now),
    decreases s.len(),
{
    if s.len() > 0 {
        lemma_sweep_idempotent(s.drop_last(), now);
        let rest = live_records(s.drop_last(), now);
        if s.last().expires_at >= now {
            assert(rest.push(s.last()).drop_last() =~= rest);
            assert(live_records(rest.push(s.last()), now) =~= rest.push(s.last()));
        }
    }
}

/// Creation makes a record active: a record inserted under a fresh id into
/// a well-formed store is served, exactly as stored, by any read up to its
/// expiry.
pub proof fn lemma_create_then_read(s: Seq<PasteModel>, rec: PasteModel, now: int)
    requires
        store_inv(s),
        !has_id(s, rec.id),
        rec.wf(),
        now <= rec.expires_at,
    ensures
        store_inv(s.push(rec)),
        read_result(s.push(rec), rec.id, now) == Some(rec),
{
    let t = s.push(rec);
    assert forall|i: int, j: int| 0 <= i < j < t.len() implies t[i].id != t[j].id by {
        if j == t.len() - 1 {
            assert(t[i] == s[i]);
            if t[i].id == rec.id {
                assert(has_id(s, rec.id));
            }
        }
    }
    lemma_index_unique(t, rec.id, t.len() - 1);
}

/// Expiry enforcement: a record whose expiry has passed at `now` is never
/// the result of a read at `now`, whether or not the reaper has run.
pub proof fn lemma_expired_never_served(s: Seq<PasteModel>, id: Seq<char>, now: int)
    ensures
        read_result(s, id, now) matches Some(p) ==> now <= p.expires_at,
{
}

/// Burn-after-read grace: serving a burn-after-read record outside the
/// grace window leaves no record with its id behind, while serving it
/// within the window leaves the store exactly as it was.
pub proof fn lemma_burn_grace(s: Seq<PasteModel>, id: Seq<char>, now: int)
    requires
        store_inv(s),
        read_result(s, id, now) matches Some(p) && p.burn_after_read,
    ensures
        now - read_result(s, id, now)->Some_0.created_at > BURN_GRACE_SECONDS ==> !has_id(
            after_read(s, id, now),
            id,
        ),
        now - read_result(s, id, now)->Some_0.created_at <= BURN_GRACE_SECONDS ==> after_read(
            s,
            id,
            now,
        ) == s,
{
    let p = read_result(s, id, now)->Some_0;
    let i = index_of_id(s, id);
    assert(0 <= i < s.len() && s[i].id == id);
    if burns_on_read(p, now) {
        lemma_store_inv_remove(s, i);
    }
}

impl Store {
    /// Remove every record whose expiry has passed at `now` — one bulk
    /// delete, as the reaper issues it — and report how many went. Repeating
    /// the sweep with no newly expired records removes nothing.
    pub fn sweep(&mut self, now: i64) -> (count: usize)
        requires
            old(self).wf(),
        ensures
            final(self).wf(),
            final(self)@ == live_records(old(self)@, now as int),
            count == old(self)@.len() - final(self)@.len(),
    {
        let ghost s0 = self@;
        let n = self.records.len();
        let mut kept: Vec<PasteData> = Vec::new();
        let mut i: usize = 0;
        while i < n
            invariant
                i <= n,
                n == self.records@.len(),
                self@ == s0,
                kept@.len() <= i,
                kept@.map_values(|r: PasteData| r@) == live_records(s0.take(i as int), now as int),
            decreases n - i,
        {
            proof {
                assert(s0.take(i + 1).drop_last() =~= s0.take(i as int));
                assert(self@[i as int] == self.records@[i as int]@);
            }
            let rec = &self.records[i];
            if rec.expires_at >= now {
                kept.push(rec.duplicate());
            }
            i = i + 1;
            proof {
                assert(kept@.map_values(|r: PasteData| r@) =~= live_records(
                    s0.take(i as int),
                    now as int,
                ));
            }
        }
        proof {
            assert(s0.take(n as int) =~= s0);
            lemma_live_records_inv(s0, now as int);
        }
        let count = n - kept.len();
        self.records = kept;
        count
    }
}

/// Create a paste: draw a fresh opaque id, stamp creation at `now` and
/// expiry at `now` plus the requested lifetime, and insert the record.
/// Fails with `StoreError`, leaving the store unchanged, exactly when the
/// drawn id collides with an existing record's.
pub fn create_paste(
    store: &mut Store,
    encrypted_content: String,
    expiration: ExpirationTime,
    burn_after_read: bool,
    display_format: String,
    now: i64,
) -> (r: Result<String, PasteError>)
    requires
        old(store).wf(),
        now <= i64::MAX - 2592000,
    ensures
        final(store).wf(),
        r matches Ok(id) ==> {
            &&& id@.len() == ID_LENGTH
            &&& forall|i: int| 0 <= i < id@.len() ==> is_id_char(#[trigger] id@[i])
            &&& !has_id(old(store)@, id@)
            &&& final(store)@ == old(store)@.push(
                (PasteModel {
                    id: id@,
                    content: encrypted_content@,
                    created_at: now as int,
                    expires_at: now + expiration.duration_secs(),
                    burn_after_read,
                    display_format: display_format@,
                }),
            )
        },
        r matches Err(e) ==> e == PasteError::StoreError && final(store)@ == old(store)@,
        r is Err ==> old(store)@.len() > 0,
        r is Err ==> exists|j: int|
            0 <= j < old(store)@.len() && (#[trigger] old(store)@[j]).id.len() == ID_LENGTH && (
            forall|i: int|
                0 <= i < old(store)@[j].id.len() ==> is_id_char(#[trigger] old(store)@[j].id[i])),
{
    let id = generate_id();
    let expires_at = now + expiration.to_duration();
    let rec = PasteData {
        id: id.clone(),
        content: encrypted_content,
        created_at: now,
        expires_at,
        burn_after_read,
        display_format,
    };
    match store.create(rec) {
        Ok(()) => Ok(id),
        Err(e) => {
            proof {
                let j = choose|j: int| 0 <= j < old(store)@.len() && old(store)@[j].id == id@;
                assert(old(store)@[j].id.len() == ID_LENGTH);
                assert(forall|i: int|
                    0 <= i < old(store)@[j].id.len() ==> is_id_char(
                        #[trigger] old(store)@[j].id[i],
                    ));
            }
            Err(e)
        },
    }
}

} // verus!
