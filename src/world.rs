//! The entity set the systems read and write, and its lookups.
use vstd::prelude::*;
use crate::geometry::Point;

verus! {

/// The tag that identifies what an entity is.
#[derive(Clone, Copy, Debug, PartialEq, Eq, Structural)]
pub enum EntityKind {
    Player,
    Camera,
    Projectile,
    Scenery,
}

/// One entity: its tag and its translation.
#[derive(Clone, Copy, Debug, PartialEq, Eq, Structural)]
pub struct Entity {
    pub kind: EntityKind,
    pub pos: Point,
}

/// Why a lookup of the unique entity of a kind failed.
#[derive(Clone, Copy, Debug, PartialEq, Eq, Structural)]
pub enum QueryError {
    NoEntities,
    MultipleEntities,
}

/// Number of entities of kind `k` in `s`.
pub open spec fn count_kind(s: Seq<Entity>, k: EntityKind) -> nat
    decreases s.len(),
{
    if s.len() == 0 {
        0
    } else {
        count_kind(s.drop_last(), k) + if s.last().kind == k {
            1nat
        } else {
            0nat
        }
    }
}

/// Index of the last entity of kind `k` in `s`, or -1 when there is none.
pub open spec fn last_index_of(s: Seq<Entity>, k: EntityKind) -> int
    decreases s.len(),
{
    if s.len() == 0 {
        -1
    } else if s.last().kind == k {
        s.len() - 1
    } else {
        last_index_of(s.drop_last(), k)
    }
}

/// What a lookup of the unique entity of kind `k` gives.
pub open spec fn unique_spec(s: Seq<Entity>, k: EntityKind) -> Result<usize, QueryError> {
    if count_kind(s, k) == 0 {
        Err(QueryError::NoEntities)
    } else if count_kind(s, k) == 1 {
        Ok(last_index_of(s, k) as usize)
    } else {
        Err(QueryError::MultipleEntities)
    }
}

pub proof fn lemma_last_index_of(s: Seq<Entity>, k: EntityKind)
    ensures
        count_kind(s, k) == 0 <==> last_index_of(s, k) == -1,
        count_kind(s, k) > 0 ==> 0 <= last_index_of(s, k) < s.len() && s[last_index_of(s, k)].kind
            == k,
        -1 <= last_index_of(s, k) < s.len(),
    decreases s.len(),
{
    if s.len() > 0 {
        lemma_last_index_of(s.drop_last(), k);
    }
}

/// Pushing an entity adds one to the count of its kind and leaves the other
/// counts unchanged.
pub proof fn lemma_count_push(s: Seq<Entity>, e: Entity, k: EntityKind)
    ensures
        count_kind(s.push(e), k) == count_kind(s, k) + if e.kind == k {
            1nat
        } else {
            0nat
        },
{
    assert(s.push(e).drop_last() =~= s);
}

/// Replacing an entity by one of the same kind keeps every count and every
/// last index.
pub proof fn lemma_update_same_kind(s: Seq<Entity>, i: int, e: Entity, k: EntityKind)
    requires
        0 <= i < s.len(),
        s[i].kind == e.kind,
    ensures
        count_kind(s.update(i, e), k) == count_kind(s, k),
        last_index_of(s.update(i, e), k) == last_index_of(s, k),
    decreases s.len(),
{
    if i < s.len() - 1 {
        assert(s.update(i, e).drop_last() =~= s.drop_last().update(i, e));
        lemma_update_same_kind(s.drop_last(), i, e, k);
    } else {
        assert(s.update(i, e).drop_last() =~= s.drop_last());
    }
}

/// The entities of the world.
pub struct World {
    pub entities: Vec<Entity>,
}

impl View for World {
    type V = Seq<Entity>;

    open spec fn view(&self) -> Seq<Entity> {
        self.entities@
    }
}

impl World {
    /// A world with no entity.
    pub fn new() -> (r: World)
        ensures
            r@ == Seq::<Entity>::empty(),
    {
        World { entities: Vec::new() }
    }

    /// Adds an entity at the end.
    pub fn spawn(&mut self, kind: EntityKind, pos: Point)
        ensures
            final(self)@ == old(self)@.push(Entity { kind, pos }),
    {
        self.entities.push(Entity { kind, pos });
    }

    /// Number of entities of a kind.
    pub fn count(&self, kind: EntityKind) -> (r: usize)
        ensures
            r == count_kind(self@, kind),
    {
        let mut n: usize = 0;
        let mut i: usize = 0;
        while i < self.entities.len()
            invariant
                0 <= i <= self.entities.len(),
                n == count_kind(self@.subrange(0, i as int), kind),
                n <= i,
            decreases self.entities.len() - i,
        {
            assert(self@.subrange(0, i + 1).drop_last() =~= self@.subrange(0, i as int));
            if self.entities[i].kind == kind {
                n = n + 1;
            }
            i = i + 1;
        }
        assert(self@.subrange(0, i as int) =~= self@);
        n
    }

    /// Finds the one entity of a kind: its index, or why there is not exactly
    /// one.
    pub fn find_unique(&self, kind: EntityKind) -> (r: Result<usize, QueryError>)
        ensures
            r == unique_spec(self@, kind),
            r is Ok ==> r->Ok_0 < self@.len() && self@[r->Ok_0 as int].kind == kind,
    {
        let mut n: usize = 0;
        let mut found: usize = 0;
        let mut i: usize = 0;
        while i < self.entities.len()
            invariant
                0 <= i <= self.entities.len(),
                n == count_kind(self@.subrange(0, i as int), kind),
                n <= i,
                n > 0 ==> found == last_index_of(self@.subrange(0, i as int), kind),
            decreases self.entities.len() - i,
        {
            assert(self@.subrange(0, i + 1).drop_last() =~= self@.subrange(0, i as int));
            if self.entities[i].kind == kind {
                n = n + 1;
                found = i;
            }
            i = i + 1;
        }
        assert(self@.subrange(0, i as int) =~= self@);
        proof {
            lemma_last_index_of(self@, kind);
        }
        if n == 0 {
            Err(QueryError::NoEntities)
        } else if n == 1 {
            Ok(found)
        } else {
            Err(QueryError::MultipleEntities)
        }
    }

    /// The translation of the entity at `i`.
    pub fn position(&self, i: usize) -> (r: Point)
        requires
            i < self@.len(),
        ensures
            r == self@[i as int].pos,
    {
        self.entities[i].pos
    }

    /// Moves the entity at `i` to `pos`; its kind is kept.
    pub fn set_position(&mut self, i: usize, pos: Point)
        requires
            i < old(self)@.len(),
        ensures
            final(self)@ == old(self)@.update(
                i as int,
                Entity { kind: old(self)@[i as int].kind, pos },
            ),
    {
        let kind = self.entities[i].kind;
        self.entities.set(i, Entity { kind, pos });
    }
}

} // verus!
