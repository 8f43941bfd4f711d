//! The spawn handler: a click event places a box where the player stands.
//!
//! Unlike the per-frame controllers this runs once per qualifying input
//! event, whenever the host dispatches one. Each firing reads the player's
//! live position, appends one fixed-size, fixed-material box there, and
//! bumps the session's spawn counter; the new object keeps no tie to the
//! player afterwards.

use vstd::prelude::*;
use crate::player::Vec3Micro;
use crate::world::{SpawnedObject, World};

verus! {

/// Edge length of the box every firing places, in micro-units (0.6 of a
/// world unit); like its material, the same for every spawned object.
pub const SPAWNED_BOX_EDGE_MICRO: i64 = 600_000;

/// One firing of the spawn handler.
///
/// Without a player nothing is read and nothing is placed. With one, the
/// spawned list grows by exactly one object carrying the player's current
/// position, the counter grows by one, and the player itself is untouched.
pub fn spawn_cube(w: &mut World)
    requires
        old(w).wf(),
        old(w).spawn_count < u64::MAX,
    ensures
        final(w).wf(),
        final(w).player == old(w).player,
        old(w).player is None ==> *final(w) == *old(w),
        old(w).player matches Some(p) ==> {
            &&& final(w).spawned@ == old(w).spawned@.push(
                SpawnedObject { position: p.position },
            )
            &&& final(w).spawn_count == old(w).spawn_count + 1
        },
{
    let position: Vec3Micro = match w.player {
        Some(p) => p.position,
        None => {
            return ;
        },
    };
    w.spawned.push(SpawnedObject { position });
    w.spawn_count = w.spawn_count + 1;
}

/// Law: three firings with the player at three positions — however it
/// moved in between — append exactly three objects, each sitting at the
/// position the player had when its event fired, never stacked on a later
/// one.
pub proof fn lemma_three_spawns_three_objects(
    s0: Seq<SpawnedObject>,
    pos1: Vec3Micro,
    pos2: Vec3Micro,
    pos3: Vec3Micro,
)
    ensures
        ({
            let s3 = s0.push(SpawnedObject { position: pos1 }).push(
                SpawnedObject { position: pos2 },
            ).push(SpawnedObject { position: pos3 });
            &&& s3.len() == s0.len() + 3
            &&& s3[s0.len() as int] == SpawnedObject { position: pos1 }
            &&& s3[s0.len() as int + 1] == SpawnedObject { position: pos2 }
            &&& s3[s0.len() as int + 2] == SpawnedObject { position: pos3 }
            &&& forall|i: int| 0 <= i < s0.len() ==> s3[i] == s0[i]
        }),
{
}

} // verus!
