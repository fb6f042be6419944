use vstd::prelude::*;

use crate::entities::{synthesized_plane_id, PlaneView};
use crate::geometry::{Extent2, Quaternion, Vector3};
use crate::session::{
    camera_step, place_handle, place_step, plane_step, remove_step, remove_succeeds,
    reported_slot, SessionModel, MAX_COUNT,
};

verus! {

/// The session after planes are reported, in order, each without an id.
pub open spec fn add_anonymous_planes(
    s: Option<SessionModel>,
    reports: Seq<(Vector3, Extent2, Vector3)>,
) -> Option<SessionModel>
    decreases reports.len(),
{
    if reports.len() == 0 {
        s
    } else {
        let r = reports.last();
        plane_step(add_anonymous_planes(s, reports.drop_last()), None, r.0, r.1, r.2)
    }
}

/// The session after objects are placed in order, each given as its selector,
/// position and rotation.
pub open spec fn place_all(
    s: Option<SessionModel>,
    placements: Seq<(int, Vector3, Quaternion)>,
) -> Option<SessionModel>
    decreases placements.len(),
{
    if placements.len() == 0 {
        s
    } else {
        let p = placements.last();
        place_step(place_all(s, placements.drop_last()), p.0, p.1, p.2)
    }
}

/// The handles that successive placements return, in order.
pub open spec fn handles_of(
    s: Option<SessionModel>,
    placements: Seq<(int, Vector3, Quaternion)>,
) -> Seq<int>
    decreases placements.len(),
{
    if placements.len() == 0 {
        Seq::empty()
    } else {
        handles_of(s, placements.drop_last()).push(
            place_handle(place_all(s, placements.drop_last())),
        )
    }
}

/// Moving the camera on a live session stores exactly the given position.
pub proof fn camera_position_is_stored(m: SessionModel, position: Vector3)
    ensures
        camera_step(Some(m), position) matches Some(n) && n.camera == position,
{
}

/// Planes reported without ids to a session that has none get the ids
/// `plane_0`, `plane_1`, ... in the order of the reports.
pub proof fn anonymous_planes_are_numbered(
    m: SessionModel,
    reports: Seq<(Vector3, Extent2, Vector3)>,
)
    requires
        m.planes.len() == 0,
        reports.len() <= MAX_COUNT,
    ensures
        add_anonymous_planes(Some(m), reports) matches Some(n) && n.planes.len() == reports.len()
            && forall|i: int|
            0 <= i < reports.len() ==> #[trigger] n.planes[i].id == synthesized_plane_id(i as nat),
    decreases reports.len(),
{
    if reports.len() > 0 {
        anonymous_planes_are_numbered(m, reports.drop_last());
    }
}

/// A plane reported with a non-empty id keeps that id verbatim.
pub proof fn supplied_plane_id_is_kept(
    m: SessionModel,
    id: Seq<char>,
    center: Vector3,
    extent: Extent2,
    normal: Vector3,
)
    requires
        m.planes.len() < MAX_COUNT,
        id.len() > 0,
    ensures
        plane_step(Some(m), Some(id), center, extent, normal) matches Some(n)
            && n.planes.len() == m.planes.len() + 1
            && n.planes.last() == (PlaneView { id, center, extent, normal }),
{
}

/// Successive placements on a live session return successive handles,
/// starting at the number of objects present: `0, 1, 2, ...` on a session
/// without objects.
pub proof fn handles_count_up(m: SessionModel, placements: Seq<(int, Vector3, Quaternion)>)
    requires
        m.objects.len() + placements.len() <= MAX_COUNT,
    ensures
        place_all(Some(m), placements) matches Some(n)
            && n.objects.len() == m.objects.len() + placements.len(),
        handles_of(Some(m), placements).len() == placements.len(),
        forall|i: int|
            0 <= i < placements.len() ==> #[trigger] handles_of(Some(m), placements)[i]
                == m.objects.len() + i,
    decreases placements.len(),
{
    if placements.len() > 0 {
        handles_count_up(m, placements.drop_last());
    }
}

/// Without a session, placing an object returns -1 and changes nothing.
pub proof fn placing_without_session_fails(selector: int, position: Vector3, rotation: Quaternion)
    ensures
        place_handle(None) == -1,
        place_step(None, selector, position, rotation) == None::<SessionModel>,
{
}

/// A removal succeeds, and the object count drops by exactly one, if and only
/// if a session is live and `0 <= handle < count`; otherwise nothing changes.
pub proof fn removal_succeeds_exactly_in_range(s: Option<SessionModel>, handle: int)
    ensures
        remove_succeeds(s, handle) <==> (s matches Some(m) && 0 <= handle < m.objects.len()),
        remove_succeeds(s, handle) ==> (remove_step(s, handle) matches Some(n)
            && n.objects.len() == s->0.objects.len() - 1),
        !remove_succeeds(s, handle) ==> remove_step(s, handle) == s,
{
}

/// Removing the object at `k` shifts every later object down one position: the
/// object that handle `i > k` reached is now reached by `i - 1`, so a handle
/// held for it goes stale. Earlier objects keep their positions, and the list
/// is one shorter.
pub proof fn removal_shifts_later_objects(m: SessionModel, k: int)
    requires
        0 <= k < m.objects.len(),
    ensures
        remove_step(Some(m), k) matches Some(n) && n.objects.len() == m.objects.len() - 1
            && (forall|i: int| 0 <= i < k ==> #[trigger] n.objects[i] == m.objects[i])
            && (forall|i: int| k < i < m.objects.len() ==> n.objects[i - 1] == #[trigger] m.objects[i]),
{
}

/// Without a session, reporting the counts leaves every slot as it was.
pub proof fn stats_without_session_leave_slots(slot: Option<i32>, count: nat)
    ensures
        reported_slot(false, slot, count) == slot,
{
}

} // verus!
