use crate::error::StoreError;
use crate::player::{Player, PlayerView};
use vstd::prelude::*;

verus! {

/// The capability any persistence backend must provide: durably insert a
/// player record and look one up by id.
///
/// `contents()` is the abstract state a backend holds: the map from id to
/// stored record. `may_fail()` says whether the backend can fail for
/// reasons outside the caller's control (a lost connection, a timeout, a
/// malformed row); an in-memory backend cannot, a remote one can.
pub trait PlayerStore {
    spec fn contents(&self) -> Map<i64, PlayerView>;

    spec fn may_fail(&self) -> bool;

    /// Durably writes `player` as one new row. Insert is not upsert: a
    /// candidate whose id is already present is rejected with a constraint
    /// error rather than overwriting. On any failure no partial state is
    /// left behind, and the error is propagated unchanged.
    fn insert_player(&mut self, player: &Player) -> (r: Result<(), StoreError>)
        ensures
            r is Ok ==> !old(self).contents().contains_key(player.id)
                && final(self).contents() == old(self).contents().insert(player.id, player@),
            r is Err ==> final(self).contents() == old(self).contents(),
            old(self).contents().contains_key(player.id) ==> r is Err,
            !old(self).may_fail() && !old(self).contents().contains_key(player.id) ==> r is Ok,
            !old(self).may_fail() && old(self).contents().contains_key(player.id) ==> r == Err::<
                (),
                StoreError,
            >(StoreError::UniqueViolation),
            final(self).may_fail() == old(self).may_fail(),
    ;

    /// Returns the stored record for `id`, or `None` if no row has that id.
    /// Absence is not an error: an error is returned only on genuine
    /// backend failure. The operation is read-only.
    fn get_player(&self, id: i64) -> (r: Result<Option<Player>, StoreError>)
        ensures
            r matches Ok(Some(p)) ==> self.contents().contains_key(id) && p@
                == self.contents()[id],
            r matches Ok(None::<Player>) ==> !self.contents().contains_key(id),
            !self.may_fail() ==> r is Ok,
    ;
}

/// What get-or-insert means on the abstract contents: an id already
/// present keeps its stored record, which is returned; a fresh id is bound
/// to the candidate, which is returned unchanged.
pub open spec fn get_or_insert_model(m: Map<i64, PlayerView>, candidate: PlayerView) -> (
    PlayerView,
    Map<i64, PlayerView>,
) {
    if m.contains_key(candidate.id) {
        (m[candidate.id], m)
    } else {
        (candidate, m.insert(candidate.id, candidate))
    }
}

/// Looks `player.id` up first; if a record is already stored, returns that
/// record (the candidate's name is discarded — the stored version is
/// authoritative); otherwise inserts the candidate and returns it
/// unchanged.
///
/// The two steps are separate storage operations: no transaction or lock
/// spans them, so two concurrent callers racing on the same fresh id may
/// both observe absence, and the insert that runs second then fails with a
/// constraint error. Any error from either step aborts the composition at
/// once and is returned unchanged.
pub fn get_or_insert_player<S: PlayerStore>(player: Player, storage: &mut S) -> (r: Result<
    Player,
    StoreError,
>)
    ensures
        r matches Ok(p) ==> p@ == get_or_insert_model(old(storage).contents(), player@).0
            && final(storage).contents() == get_or_insert_model(old(storage).contents(), player@).1,
        r is Err ==> final(storage).contents() == old(storage).contents(),
        !old(storage).may_fail() ==> r is Ok,
        final(storage).may_fail() == old(storage).may_fail(),
{
    match storage.get_player(player.id) {
        Err(e) => Err(e),
        Ok(Some(existing)) => Ok(existing),
        Ok(None) => match storage.insert_player(&player) {
            Err(e) => Err(e),
            Ok(()) => Ok(player),
        },
    }
}

/// Round-trip: inserting a record under a fresh id and then looking the
/// same id up finds exactly that record.
pub proof fn lemma_insert_then_get_round_trip(m: Map<i64, PlayerView>, p: PlayerView)
    requires
        !m.contains_key(p.id),
    ensures
        m.insert(p.id, p).contains_key(p.id),
        m.insert(p.id, p)[p.id] == p,
{
}

/// Fresh id: get-or-insert on an id not yet present returns the candidate
/// unchanged and binds exactly that id to it.
pub proof fn lemma_get_or_insert_fresh(m: Map<i64, PlayerView>, p: PlayerView)
    requires
        !m.contains_key(p.id),
    ensures
        get_or_insert_model(m, p).0 == p,
        get_or_insert_model(m, p).1 == m.insert(p.id, p),
{
}

/// Existing id: get-or-insert on an id already present returns the stored
/// record — whatever name the candidate carries — and leaves the contents
/// unchanged.
pub proof fn lemma_get_or_insert_existing(m: Map<i64, PlayerView>, p: PlayerView)
    requires
        m.contains_key(p.id),
    ensures
        get_or_insert_model(m, p).0 == m[p.id],
        get_or_insert_model(m, p).1 == m,
{
}

/// The documented race: two callers may both observe the same id absent,
/// but once the first of them has inserted, the id is present, so the
/// store contract forces the second insert to fail rather than overwrite
/// the row the first one wrote.
pub proof fn lemma_racing_insert_is_duplicate(
    m: Map<i64, PlayerView>,
    p: PlayerView,
    q: PlayerView,
)
    requires
        !m.contains_key(p.id),
        !m.contains_key(q.id),
        q.id == p.id,
    ensures
        m.insert(p.id, p).contains_key(q.id),
        m.insert(p.id, p)[q.id] == p,
{
}

} // verus!
