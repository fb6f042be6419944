// The authoritative state of an augmented-reality session: camera position,
// detected planes and placed virtual objects, with the rules for their ids and
// handles. A host reaches it through a `SessionManager` that it owns.
use vstd::prelude::*;

pub mod entities;
pub mod geometry;
pub mod laws;
pub mod session;
pub mod text;

pub use entities::{ObjectKind, Plane, VirtualObject};
pub use geometry::{Extent2, Quaternion, Vector3};
pub use session::{
    add_detected_plane, get_session_stats, initialize_ar_session, place_virtual_object,
    remove_virtual_object, update_camera_position, SessionManager, MAX_COUNT,
};

verus! {

} // verus!
