use vstd::prelude::*;

use crate::geometry::{Extent2, Quaternion, Vector3};
use crate::text::{decimal, push_decimal, signed_decimal};

verus! {

/// A detected physical plane, as the host reported it.
pub struct Plane {
    pub id: String,
    pub center: Vector3,
    pub extent: Extent2,
    pub normal: Vector3,
}

/// What a plane holds, with its id as a character sequence.
pub struct PlaneView {
    pub id: Seq<char>,
    pub center: Vector3,
    pub extent: Extent2,
    pub normal: Vector3,
}

impl View for Plane {
    type V = PlaneView;

    open spec fn view(&self) -> PlaneView {
        PlaneView { id: self.id@, center: self.center, extent: self.extent, normal: self.normal }
    }
}

/// What a virtual object is.
pub enum ObjectKind {
    Cube,
    Sphere,
    Custom(String),
}

/// What an object kind holds, with a custom tag as a character sequence.
pub enum ObjectKindView {
    Cube,
    Sphere,
    Custom(Seq<char>),
}

impl View for ObjectKind {
    type V = ObjectKindView;

    open spec fn view(&self) -> ObjectKindView {
        match self {
            ObjectKind::Cube => ObjectKindView::Cube,
            ObjectKind::Sphere => ObjectKindView::Sphere,
            ObjectKind::Custom(tag) => ObjectKindView::Custom(tag@),
        }
    }
}

/// A virtual object placed by the host.
pub struct VirtualObject {
    pub id: String,
    pub position: Vector3,
    pub rotation: Quaternion,
    pub kind: ObjectKind,
}

/// What a virtual object holds, with its id and kind as views.
pub struct VirtualObjectView {
    pub id: Seq<char>,
    pub position: Vector3,
    pub rotation: Quaternion,
    pub kind: ObjectKindView,
}

impl View for VirtualObject {
    type V = VirtualObjectView;

    open spec fn view(&self) -> VirtualObjectView {
        VirtualObjectView {
            id: self.id@,
            position: self.position,
            rotation: self.rotation,
            kind: self.kind@,
        }
    }
}

/// `plane_`
pub open spec fn plane_prefix() -> Seq<char> {
    seq!['p', 'l', 'a', 'n', 'e', '_']
}

/// `object_`
pub open spec fn object_prefix() -> Seq<char> {
    seq!['o', 'b', 'j', 'e', 'c', 't', '_']
}

/// `custom_`
pub open spec fn custom_prefix() -> Seq<char> {
    seq!['c', 'u', 's', 't', 'o', 'm', '_']
}

/// The id given to a plane added without one: `plane_<count>`.
pub open spec fn synthesized_plane_id(count: nat) -> Seq<char> {
    plane_prefix() + decimal(count)
}

/// The id a new plane gets: the supplied one where it is present and
/// non-empty, else a synthesized one.
pub open spec fn plane_id_for(supplied: Option<Seq<char>>, count: nat) -> Seq<char> {
    match supplied {
        Some(id) => if id.len() > 0 { id } else { synthesized_plane_id(count) },
        None => synthesized_plane_id(count),
    }
}

/// The id of an object placed when `count` objects are present: `object_<count>`.
pub open spec fn object_id_for(count: nat) -> Seq<char> {
    object_prefix() + decimal(count)
}

/// The kind that an integer selector stands for.
pub open spec fn kind_for(selector: int) -> ObjectKindView {
    if selector == 0 {
        ObjectKindView::Cube
    } else if selector == 1 {
        ObjectKindView::Sphere
    } else {
        ObjectKindView::Custom(custom_prefix() + signed_decimal(selector))
    }
}

/// The characters of an optional string.
pub open spec fn opt_string_view(s: &Option<String>) -> Option<Seq<char>> {
    match s {
        Some(v) => Some(v@),
        None => None,
    }
}

/// The id for a new plane, given what the host supplied and the number of
/// planes already present.
pub fn plane_id(supplied: Option<String>, count: u32) -> (r: String)
    ensures
        r@ == plane_id_for(opt_string_view(&supplied), count as nat),
{
    match supplied {
        Some(id) => {
            if !id.as_str().is_empty() {
                return id;
            }
        },
        None => {},
    }
    let mut r = String::from_str("plane_");
    proof {
        reveal_strlit("plane_");
        assert("plane_"@ =~= plane_prefix());
    }
    push_decimal(&mut r, count);
    r
}

/// The id of an object placed when `count` objects are present.
pub fn object_id(count: u32) -> (r: String)
    ensures
        r@ == object_id_for(count as nat),
{
    let mut r = String::from_str("object_");
    proof {
        reveal_strlit("object_");
        assert("object_"@ =~= object_prefix());
    }
    push_decimal(&mut r, count);
    r
}

/// The kind that the host's integer selector stands for: `0` a cube, `1` a
/// sphere, any other `n` a custom kind tagged `custom_<n>`.
pub fn object_kind(selector: i32) -> (r: ObjectKind)
    ensures
        r@ == kind_for(selector as int),
{
    if selector == 0 {
        ObjectKind::Cube
    } else if selector == 1 {
        ObjectKind::Sphere
    } else {
        let mut tag = String::from_str("custom_");
        proof {
            reveal_strlit("custom_");
            assert("custom_"@ =~= custom_prefix());
        }
        if selector < 0 {
            tag.append("-");
            proof {
                reveal_strlit("-");
            }
            let magnitude: u32 = (0i64 - selector as i64) as u32;
            push_decimal(&mut tag, magnitude);
            proof {
                assert(tag@ =~= custom_prefix() + signed_decimal(selector as int));
            }
        } else {
            push_decimal(&mut tag, selector as u32);
        }
        ObjectKind::Custom(tag)
    }
}

} // verus!
