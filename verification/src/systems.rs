//! Per-frame decisions of the two render systems: which entities the
//! point-light pass fills into the global uniform's light slots, and
//! which entities the mesh pass draws.
//!
//! Both walk the entity collection in storage order. The float payloads
//! (positions, colors, intensities) are filled in by the host program for
//! exactly the identifiers listed here.

use vstd::prelude::*;

use crate::game_object::GameObject;
use crate::game_object::GameObjectRegistry;

verus! {

/// Capacity of the global uniform's point-light array.
pub const MAX_LIGHTS: usize = 10;

/// The identifiers of the light-carrying entities, in storage order.
pub open spec fn light_ids(s: Seq<GameObject>) -> Seq<u8>
    decreases s.len(),
{
    if s.len() == 0 {
        Seq::empty()
    } else {
        light_ids(s.drop_last()) + (if s.last().point_light {
            seq![s.last().id]
        } else {
            Seq::empty()
        })
    }
}

/// The identifiers of the mesh-carrying entities, in storage order.
pub open spec fn drawable_ids(s: Seq<GameObject>) -> Seq<u8>
    decreases s.len(),
{
    if s.len() == 0 {
        Seq::empty()
    } else {
        drawable_ids(s.drop_last()) + (if s.last().model is Some {
            seq![s.last().id]
        } else {
            Seq::empty()
        })
    }
}

/// What the point-light pass wrote into the global uniform: one occupied
/// light slot per listed entity, in that order, and the slot count.
#[derive(Debug, Clone)]
pub struct LightsUpdate {
    pub light_ids: Vec<u8>,
    pub num_lights: u32,
}

/// Fills the light slots: one slot per light-carrying entity, in storage
/// order, and sets `num_lights` to exactly the number of slots filled.
/// More lights than the array holds is a caller error, ruled out here;
/// the host program checks `lights_within_capacity` first.
pub fn update_lights(registry: &GameObjectRegistry) -> (r: LightsUpdate)
    requires
        light_ids(registry.objects@).len() <= MAX_LIGHTS,
    ensures
        r.light_ids@ == light_ids(registry.objects@),
        r.num_lights == r.light_ids@.len(),
        r.num_lights <= MAX_LIGHTS,
{
    let ids = collect_light_ids(&registry.objects);
    let num_lights = ids.len() as u32;
    LightsUpdate { light_ids: ids, num_lights }
}

/// Whether the light-carrying entities fit the light array.
pub fn lights_within_capacity(registry: &GameObjectRegistry) -> (r: bool)
    ensures
        r <==> light_ids(registry.objects@).len() <= MAX_LIGHTS,
{
    let ids = collect_light_ids(&registry.objects);
    ids.len() <= MAX_LIGHTS
}

/// The entities the mesh pass draws, in storage order: exactly those with
/// a mesh reference.
pub fn draw_list(registry: &GameObjectRegistry) -> (r: Vec<u8>)
    ensures
        r@ == drawable_ids(registry.objects@),
{
    let n = registry.objects.len();
    let mut ids: Vec<u8> = Vec::new();
    let mut i: usize = 0;
    while i < n
        invariant
            n == registry.objects@.len(),
            i <= n,
            ids@ == drawable_ids(registry.objects@.take(i as int)),
        decreases n - i,
    {
        let obj = registry.objects[i];
        proof {
            assert(registry.objects@.take(i + 1).drop_last() =~= registry.objects@.take(i as int));
            assert(registry.objects@.take(i + 1).last() == registry.objects@[i as int]);
        }
        if obj.model.is_some() {
            ids.push(obj.id);
        }
        proof {
            assert(ids@ =~= drawable_ids(registry.objects@.take(i + 1)));
        }
        i = i + 1;
    }
    proof {
        assert(registry.objects@.take(n as int) =~= registry.objects@);
    }
    ids
}

/// Walks the entities and lists the identifiers of those carrying a
/// point light, in storage order.
fn collect_light_ids(objects: &Vec<GameObject>) -> (r: Vec<u8>)
    ensures
        r@ == light_ids(objects@),
{
    let n = objects.len();
    let mut ids: Vec<u8> = Vec::new();
    let mut i: usize = 0;
    while i < n
        invariant
            n == objects@.len(),
            i <= n,
            ids@ == light_ids(objects@.take(i as int)),
        decreases n - i,
    {
        let obj = objects[i];
        proof {
            assert(objects@.take(i + 1).drop_last() =~= objects@.take(i as int));
            assert(objects@.take(i + 1).last() == objects@[i as int]);
        }
        if obj.point_light {
            ids.push(obj.id);
        }
        proof {
            assert(ids@ =~= light_ids(objects@.take(i + 1)));
        }
        i = i + 1;
    }
    proof {
        assert(objects@.take(n as int) =~= objects@);
    }
    ids
}

} // verus!
