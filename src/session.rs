use vstd::prelude::*;

use crate::entities::{
    object_id, object_id_for, object_kind, kind_for, opt_string_view, plane_id, plane_id_for,
    Plane, PlaneView, VirtualObject, VirtualObjectView,
};
use crate::geometry::{origin, Extent2, Quaternion, Vector3};

verus! {

/// The most planes, and the most objects, that a session holds: every count
/// and every object handle must fit the host's 32-bit signed integers.
pub const MAX_COUNT: usize = 2147483647;

/// What a live session holds.
pub struct SessionModel {
    pub camera: Vector3,
    pub planes: Seq<PlaneView>,
    pub objects: Seq<VirtualObjectView>,
}

/// A session as `initialize_ar_session` creates it: the camera at the origin,
/// no planes, no objects.
pub open spec fn fresh_session() -> SessionModel {
    SessionModel {
        camera: Vector3 { x: 0, y: 0, z: 0 },
        planes: Seq::empty(),
        objects: Seq::empty(),
    }
}

/// Both counts fit the host's 32-bit signed integers.
pub open spec fn counts_in_range(s: Option<SessionModel>) -> bool {
    s matches Some(m) ==> m.planes.len() <= MAX_COUNT && m.objects.len() <= MAX_COUNT
}

/// The session after the camera moved to `position`; without a session,
/// nothing changes.
pub open spec fn camera_step(s: Option<SessionModel>, position: Vector3) -> Option<SessionModel> {
    match s {
        Some(m) => Some(SessionModel { camera: position, planes: m.planes, objects: m.objects }),
        None => None,
    }
}

/// A plane is recorded when a session is live and has room for it.
pub open spec fn plane_recorded(s: Option<SessionModel>) -> bool {
    s matches Some(m) && m.planes.len() < MAX_COUNT
}

/// The plane that is appended to `m`.
pub open spec fn new_plane(
    m: SessionModel,
    supplied: Option<Seq<char>>,
    center: Vector3,
    extent: Extent2,
    normal: Vector3,
) -> PlaneView {
    PlaneView { id: plane_id_for(supplied, m.planes.len()), center, extent, normal }
}

/// The session after a plane is reported.
pub open spec fn plane_step(
    s: Option<SessionModel>,
    supplied: Option<Seq<char>>,
    center: Vector3,
    extent: Extent2,
    normal: Vector3,
) -> Option<SessionModel> {
    if plane_recorded(s) {
        let m = s->0;
        Some(
            SessionModel {
                camera: m.camera,
                planes: m.planes.push(new_plane(m, supplied, center, extent, normal)),
                objects: m.objects,
            },
        )
    } else {
        s
    }
}

/// An object is placed when a session is live and has room for it.
pub open spec fn object_placed(s: Option<SessionModel>) -> bool {
    s matches Some(m) && m.objects.len() < MAX_COUNT
}

/// The handle that placing an object returns: the number of objects present
/// before it, or -1 where nothing is placed.
pub open spec fn place_handle(s: Option<SessionModel>) -> int {
    if object_placed(s) {
        s->0.objects.len() as int
    } else {
        -1
    }
}

/// The object that is appended to `m`.
pub open spec fn new_object(
    m: SessionModel,
    selector: int,
    position: Vector3,
    rotation: Quaternion,
) -> VirtualObjectView {
    VirtualObjectView {
        id: object_id_for(m.objects.len()),
        position,
        rotation,
        kind: kind_for(selector),
    }
}

/// The session after an object is placed.
pub open spec fn place_step(
    s: Option<SessionModel>,
    selector: int,
    position: Vector3,
    rotation: Quaternion,
) -> Option<SessionModel> {
    if object_placed(s) {
        let m = s->0;
        Some(
            SessionModel {
                camera: m.camera,
                planes: m.planes,
                objects: m.objects.push(new_object(m, selector, position, rotation)),
            },
        )
    } else {
        s
    }
}

/// A removal succeeds when a session is live and the handle is a position in
/// its object list.
pub open spec fn remove_succeeds(s: Option<SessionModel>, handle: int) -> bool {
    s matches Some(m) && 0 <= handle < m.objects.len()
}

/// The session after a removal: the object at `handle` leaves and every later
/// object moves down one position.
pub open spec fn remove_step(s: Option<SessionModel>, handle: int) -> Option<SessionModel> {
    if remove_succeeds(s, handle) {
        let m = s->0;
        Some(SessionModel { camera: m.camera, planes: m.planes, objects: m.objects.remove(handle) })
    } else {
        s
    }
}

/// What an output slot holds after the counts are reported: a requested slot
/// (`Some`) gets `count` when a session is live; otherwise it is left as it was.
pub open spec fn reported_slot(live: bool, slot: Option<i32>, count: nat) -> Option<i32> {
    if live && slot is Some {
        Some(count as i32)
    } else {
        slot
    }
}

/// The live state of one session.
pub struct SessionState {
    camera_position: Vector3,
    planes: Vec<Plane>,
    objects: Vec<VirtualObject>,
}

impl View for SessionState {
    type V = SessionModel;

    closed spec fn view(&self) -> SessionModel {
        SessionModel {
            camera: self.camera_position,
            planes: self.planes@.map_values(|p: Plane| p@),
            objects: self.objects@.map_values(|o: VirtualObject| o@),
        }
    }
}

/// The holder of the one session, which is absent until it is initialized.
/// Callers that share it across threads put it behind a lock.
pub struct SessionManager {
    session: Option<SessionState>,
}

impl View for SessionManager {
    type V = Option<SessionModel>;

    closed spec fn view(&self) -> Option<SessionModel> {
        match self.session {
            Some(s) => Some(s@),
            None => None,
        }
    }
}

impl SessionManager {
    /// Both counts fit the host's 32-bit signed integers.
    pub open spec fn wf(&self) -> bool {
        counts_in_range(self@)
    }

    /// A manager with no session yet.
    pub fn new() -> (r: SessionManager)
        ensures
            r@ is None,
            r.wf(),
    {
        SessionManager { session: None }
    }

    /// Whether a session is live.
    pub fn is_active(&self) -> (r: bool)
        ensures
            r == self@ is Some,
    {
        self.session.is_some()
    }

    /// The camera position of the live session.
    pub fn camera_position(&self) -> (r: Option<Vector3>)
        ensures
            r == (match self@ {
                Some(m) => Some(m.camera),
                None => None,
            }),
    {
        match &self.session {
            Some(state) => Some(state.camera_position),
            None => None,
        }
    }

    /// The plane at position `index` of the live session.
    pub fn plane(&self, index: usize) -> (r: Option<&Plane>)
        ensures
            r is Some <==> (self@ matches Some(m) && index < m.planes.len()),
            r matches Some(p) ==> p@ == self@->0.planes[index as int],
    {
        match &self.session {
            Some(state) => {
                if index < state.planes.len() {
                    Some(&state.planes[index])
                } else {
                    None
                }
            },
            None => None,
        }
    }

    /// The object at position `index` of the live session, which is the
    /// object that the handle `index` reaches.
    pub fn object(&self, index: usize) -> (r: Option<&VirtualObject>)
        ensures
            r is Some <==> (self@ matches Some(m) && index < m.objects.len()),
            r matches Some(o) ==> o@ == self@->0.objects[index as int],
    {
        match &self.session {
            Some(state) => {
                if index < state.objects.len() {
                    Some(&state.objects[index])
                } else {
                    None
                }
            },
            None => None,
        }
    }
}

/// Creates a fresh session, discarding any earlier one.
pub fn initialize_ar_session(manager: &mut SessionManager)
    ensures
        final(manager)@ == Some(fresh_session()),
        final(manager).wf(),
{
    let state = SessionState { camera_position: origin(), planes: Vec::new(), objects: Vec::new() };
    manager.session = Some(state);
    proof {
        assert(state@.planes =~= Seq::<PlaneView>::empty());
        assert(state@.objects =~= Seq::<VirtualObjectView>::empty());
    }
}

/// Moves the camera to `position`; without a session, does nothing.
pub fn update_camera_position(manager: &mut SessionManager, position: Vector3)
    requires
        old(manager).wf(),
    ensures
        final(manager)@ == camera_step(old(manager)@, position),
        final(manager).wf(),
{
    if let Some(state) = &mut manager.session {
        state.camera_position = position;
    }
}

/// Records a detected plane. Its id is `id` where that is present and
/// non-empty, else `plane_<n>` with `n` the number of planes before it.
/// Returns whether the plane was recorded: it is not without a session, nor
/// when the session already holds `MAX_COUNT` planes.
pub fn add_detected_plane(
    manager: &mut SessionManager,
    id: Option<String>,
    center: Vector3,
    extent: Extent2,
    normal: Vector3,
) -> (recorded: bool)
    requires
        old(manager).wf(),
    ensures
        recorded == plane_recorded(old(manager)@),
        final(manager)@ == plane_step(old(manager)@, opt_string_view(&id), center, extent, normal),
        final(manager).wf(),
{
    if let Some(state) = &mut manager.session {
        let count = state.planes.len();
        if count < MAX_COUNT {
            let ghost before = state.planes@;
            let plane = Plane { id: plane_id(id, count as u32), center, extent, normal };
            state.planes.push(plane);
            proof {
                assert(state.planes@.map_values(|p: Plane| p@) =~= before.map_values(
                    |p: Plane| p@,
                ).push(plane@));
            }
            return true;
        }
    }
    false
}

/// Places a virtual object of the kind that `object_type` selects and returns
/// its handle: the number of objects before it, which is also its position in
/// the object list. Its id is `object_<handle>`. Returns -1, and places
/// nothing, without a session or when the session already holds `MAX_COUNT`
/// objects.
pub fn place_virtual_object(
    manager: &mut SessionManager,
    object_type: i32,
    position: Vector3,
    rotation: Quaternion,
) -> (handle: i32)
    requires
        old(manager).wf(),
    ensures
        handle as int == place_handle(old(manager)@),
        final(manager)@ == place_step(old(manager)@, object_type as int, position, rotation),
        final(manager).wf(),
{
    if let Some(state) = &mut manager.session {
        let count = state.objects.len();
        if count < MAX_COUNT {
            let ghost before = state.objects@;
            let object = VirtualObject {
                id: object_id(count as u32),
                position,
                rotation,
                kind: object_kind(object_type),
            };
            state.objects.push(object);
            proof {
                assert(state.objects@.map_values(|o: VirtualObject| o@) =~= before.map_values(
                    |o: VirtualObject| o@,
                ).push(object@));
            }
            return count as i32;
        }
    }
    -1
}

/// Removes the object at position `object_id` and returns true; every later
/// object moves down one position, so handles held for them go stale. Returns
/// false, and changes nothing, without a session or when `object_id` is not a
/// position in the object list.
pub fn remove_virtual_object(manager: &mut SessionManager, object_id: i32) -> (removed: bool)
    requires
        old(manager).wf(),
    ensures
        removed == remove_succeeds(old(manager)@, object_id as int),
        final(manager)@ == remove_step(old(manager)@, object_id as int),
        final(manager).wf(),
{
    if let Some(state) = &mut manager.session {
        if object_id >= 0 && (object_id as usize) < state.objects.len() {
            let ghost before = state.objects@;
            state.objects.remove(object_id as usize);
            proof {
                assert(state.objects@.map_values(|o: VirtualObject| o@) =~= before.map_values(
                    |o: VirtualObject| o@,
                ).remove(object_id as int));
            }
            return true;
        }
    }
    false
}

/// Reports the plane and object counts into the requested slots. A slot that
/// holds `None` was not requested and is left as it is; without a session both
/// slots are left as they are.
pub fn get_session_stats(
    manager: &SessionManager,
    num_planes: &mut Option<i32>,
    num_objects: &mut Option<i32>,
)
    requires
        manager.wf(),
    ensures
        *final(num_planes) == reported_slot(
            manager@ is Some,
            *old(num_planes),
            manager@->0.planes.len(),
        ),
        *final(num_objects) == reported_slot(
            manager@ is Some,
            *old(num_objects),
            manager@->0.objects.len(),
        ),
{
    if let Some(state) = &manager.session {
        if num_planes.is_some() {
            *num_planes = Some(state.planes.len() as i32);
        }
        if num_objects.is_some() {
            *num_objects = Some(state.objects.len() as i32);
        }
    }
}

} // verus!
