use crate::error::StoreError;
use crate::player::{Player, PlayerView};
use crate::store::PlayerStore;
use vstd::prelude::*;

verus! {

/// The map a row sequence stores: each row binds its id, later rows
/// shadowing earlier ones. (`MemoryStore` never holds two rows with one
/// id, so nothing is in fact shadowed.)
pub open spec fn contents_of(rows: Seq<Player>) -> Map<i64, PlayerView>
    decreases rows.len(),
{
    if rows.len() == 0 {
        Map::empty()
    } else {
        contents_of(rows.drop_last()).insert(rows.last().id, rows.last()@)
    }
}

/// An id is bound in `contents_of(rows)` exactly when some row carries it.
proof fn lemma_contents_of_domain(rows: Seq<Player>, id: i64)
    ensures
        contents_of(rows).contains_key(id) <==> exists|i: int|
            0 <= i < rows.len() && rows[i].id == id,
    decreases rows.len(),
{
    if rows.len() > 0 {
        lemma_contents_of_domain(rows.drop_last(), id);
        if rows.last().id == id {
            assert(rows[rows.len() - 1].id == id);
        } else if contents_of(rows).contains_key(id) {
            let i = choose|i: int| 0 <= i < rows.len() - 1 && rows.drop_last()[i].id == id;
            assert(rows[i].id == id);
        } else if exists|i: int| 0 <= i < rows.len() && rows[i].id == id {
            let i = choose|i: int| 0 <= i < rows.len() && rows[i].id == id;
            assert(rows.drop_last()[i].id == id);
        }
    }
}

/// The binding for an id is the view of the last row that carries it.
proof fn lemma_contents_of_last_match(rows: Seq<Player>, i: int, id: i64)
    requires
        0 <= i < rows.len(),
        rows[i].id == id,
        forall|j: int| i < j < rows.len() ==> rows[j].id != id,
    ensures
        contents_of(rows).contains_key(id),
        contents_of(rows)[id] == rows[i]@,
    decreases rows.len(),
{
    if i == rows.len() - 1 {
    } else {
        assert(rows.last().id != id);
        assert(rows.drop_last()[i].id == id);
        lemma_contents_of_last_match(rows.drop_last(), i, id);
    }
}

/// An in-memory `PlayerStore`: rows in a vector, at most one per id. Its
/// operations never fail for external reasons, so the only error it can
/// ever return is the constraint violation for a duplicate insert. It
/// substitutes for a relational backend wherever a caller needs only the
/// store capability.
pub struct MemoryStore {
    rows: Vec<Player>,
}

impl MemoryStore {
    /// An empty store: no id is bound.
    pub fn new() -> (r: MemoryStore)
        ensures
            r.contents() == Map::<i64, PlayerView>::empty(),
            !r.may_fail(),
    {
        MemoryStore { rows: Vec::new() }
    }
}

impl PlayerStore for MemoryStore {
    closed spec fn contents(&self) -> Map<i64, PlayerView> {
        contents_of(self.rows@)
    }

    open spec fn may_fail(&self) -> bool {
        false
    }

    fn insert_player(&mut self, player: &Player) -> (r: Result<(), StoreError>) {
        let n: usize = self.rows.len();
        let mut i: usize = 0;
        while i < n
            invariant
                n == self.rows.len(),
                i <= n,
                *self == *old(self),
                forall|j: int| 0 <= j < i ==> self.rows@[j].id != player.id,
            decreases n - i,
        {
            if self.rows[i].id == player.id {
                proof {
                    lemma_contents_of_domain(self.rows@, player.id);
                }
                return Err(StoreError::UniqueViolation);
            }
            i = i + 1;
        }
        proof {
            lemma_contents_of_domain(self.rows@, player.id);
        }
        let ghost before = self.rows@;
        self.rows.push(player.clone());
        proof {
            assert(self.rows@.drop_last() =~= before);
            assert(contents_of(self.rows@) == contents_of(before).insert(player.id, player@));
        }
        Ok(())
    }

    fn get_player(&self, id: i64) -> (r: Result<Option<Player>, StoreError>) {
        let mut i: usize = self.rows.len();
        while i > 0
            invariant
                i <= self.rows.len(),
                forall|j: int| i <= j < self.rows.len() ==> self.rows@[j].id != id,
            decreases i,
        {
            i = i - 1;
            if self.rows[i].id == id {
                proof {
                    lemma_contents_of_last_match(self.rows@, i as int, id);
                }
                return Ok(Some(self.rows[i].clone()));
            }
        }
        proof {
            lemma_contents_of_domain(self.rows@, id);
        }
        Ok(None)
    }
}

} // verus!
