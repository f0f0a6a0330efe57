//! The flat entity collection: renderable objects with monotonically
//! assigned identifiers, an optional mesh reference, and an optional
//! point-light attribute.
//!
//! Identifiers come from an explicit registry rather than hidden global
//! state; a mesh is referred to by index into the host program's mesh
//! table, so one mesh may be shared by several entities. The float-valued
//! attributes (transform, color, light intensity) ride along in the host
//! program keyed by the same identifier.

use vstd::prelude::*;

verus! {

/// One renderable entity: its identifier, the index of its mesh (if it
/// draws one), and whether it carries a point light.
#[derive(Debug, Clone, Copy, PartialEq, Eq, Structural)]
pub struct GameObject {
    pub id: u8,
    pub model: Option<usize>,
    pub point_light: bool,
}

/// The registry hands out sequential identifiers and stores the entities
/// in creation order.
#[derive(Debug, Clone)]
pub struct GameObjectRegistry {
    pub objects: Vec<GameObject>,
    pub next_id: u8,
}

impl GameObjectRegistry {
    /// Identifiers are strictly increasing in storage order (hence
    /// unique) and all below the next one to be assigned.
    pub open spec fn wf(&self) -> bool {
        &&& forall|i: int|
            0 <= i < self.objects@.len() ==> (#[trigger] self.objects@[i]).id < self.next_id
        &&& forall|i: int, j: int|
            0 <= i < j < self.objects@.len() ==> (#[trigger] self.objects@[i]).id < (
            #[trigger] self.objects@[j]).id
    }

    /// An empty registry; the first entity gets identifier 0.
    pub fn new() -> (r: GameObjectRegistry)
        ensures
            r.wf(),
            r.objects@.len() == 0,
            r.next_id == 0,
    {
        GameObjectRegistry { objects: Vec::new(), next_id: 0 }
    }

    /// Creates an entity, assigning it the next identifier. The
    /// identifier space is 8 bits, so at most 255 entities can be
    /// created; the host program checks `can_create` first.
    pub fn create_game_object(&mut self, model: Option<usize>, point_light: bool) -> (id: u8)
        requires
            old(self).wf(),
            old(self).next_id < u8::MAX,
        ensures
            final(self).wf(),
            id == old(self).next_id,
            final(self).next_id == old(self).next_id + 1,
            final(self).objects@ == old(self).objects@.push(GameObject { id, model, point_light }),
    {
        let id = self.next_id;
        self.objects.push(GameObject { id, model, point_light });
        self.next_id = self.next_id + 1;
        id
    }

    /// Whether another identifier can still be assigned.
    pub fn can_create(&self) -> (r: bool)
        ensures
            r <==> self.next_id < u8::MAX,
    {
        self.next_id < u8::MAX
    }

    /// How many entities exist.
    pub fn len(&self) -> (r: usize)
        ensures
            r == self.objects@.len(),
    {
        self.objects.len()
    }

    /// Every entity's identifier is unique: lookups by identifier are
    /// unambiguous.
    pub proof fn lemma_ids_unique(&self)
        requires
            self.wf(),
        ensures
            forall|i: int, j: int|
                0 <= i < j < self.objects@.len() ==> (#[trigger] self.objects@[i]).id != (
                #[trigger] self.objects@[j]).id,
    {
    }

    /// Looks an entity up by identifier.
    pub fn get(&self, id: u8) -> (r: Option<&GameObject>)
        requires
            self.wf(),
        ensures
            r matches Some(o) ==> o.id == id && exists|i: int|
                0 <= i < self.objects@.len() && self.objects@[i] == *o,
            r is None ==> forall|i: int|
                0 <= i < self.objects@.len() ==> (#[trigger] self.objects@[i]).id != id,
    {
        let n = self.objects.len();
        let mut i: usize = 0;
        while i < n
            invariant
                n == self.objects@.len(),
                i <= n,
                forall|j: int| 0 <= j < i ==> (#[trigger] self.objects@[j]).id != id,
            decreases n - i,
        {
            if self.objects[i].id == id {
                return Some(&self.objects[i]);
            }
            i = i + 1;
        }
        None
    }
}

} // verus!
