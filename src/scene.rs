use vstd::prelude::*;

use crate::material::Custom2dMaterial;
use crate::window::{spec_window_settings, SCREEN_HEIGHT, SCREEN_WIDTH};

verus! {

/// Marks the entity whose orientation the tumble update turns every frame.
#[derive(Clone, Copy, Debug, PartialEq, Eq, Structural)]
pub struct Cube;

/// An entity that scene setup asks the host engine to create.
#[derive(Clone, Copy, Debug, PartialEq, Eq, Structural)]
pub enum Spawn {
    /// A 2D camera with the engine's default settings.
    Camera2d,
    /// A quad mesh of `width` by `height` units, centred on the origin at
    /// depth `depth`, drawn with `material`.
    MaterialQuad { width: u32, height: u32, depth: u32, material: Custom2dMaterial },
}

pub open spec fn is_camera(s: Spawn) -> bool {
    s is Camera2d
}

pub open spec fn is_drawable(s: Spawn) -> bool {
    s is MaterialQuad
}

/// Number of cameras in `plan`.
pub open spec fn count_cameras(plan: Seq<Spawn>) -> nat
    decreases plan.len(),
{
    if plan.len() == 0 {
        0
    } else {
        count_cameras(plan.drop_last()) + if is_camera(plan.last()) {
            1nat
        } else {
            0nat
        }
    }
}

/// Number of drawable entities in `plan`.
pub open spec fn count_drawables(plan: Seq<Spawn>) -> nat
    decreases plan.len(),
{
    if plan.len() == 0 {
        0
    } else {
        count_drawables(plan.drop_last()) + if is_drawable(plan.last()) {
            1nat
        } else {
            0nat
        }
    }
}

/// Depth at which the quad is placed, in front of the camera's default plane.
pub const QUAD_DEPTH: u32 = 1;

/// What scene setup spawns, in order.
pub open spec fn spec_setup() -> Seq<Spawn> {
    seq![
        Spawn::Camera2d,
        Spawn::MaterialQuad {
            width: SCREEN_WIDTH,
            height: SCREEN_HEIGHT,
            depth: QUAD_DEPTH,
            material: Custom2dMaterial {},
        },
    ]
}

/// Plans the startup scene: a 2D camera, then one window-sized quad drawn
/// with the custom material.
pub fn setup() -> (r: Vec<Spawn>)
    ensures
        r@ == spec_setup(),
{
    let mut plan: Vec<Spawn> = Vec::new();
    plan.push(Spawn::Camera2d);
    plan.push(
        Spawn::MaterialQuad {
            width: SCREEN_WIDTH,
            height: SCREEN_HEIGHT,
            depth: QUAD_DEPTH,
            material: Custom2dMaterial::new(),
        },
    );
    assert(plan@ =~= spec_setup());
    plan
}

/// Scene setup spawns exactly one camera and exactly one drawable entity,
/// and every drawable it spawns is a quad as wide and as high as the window.
pub proof fn setup_spawns_one_camera_and_one_window_sized_quad()
    ensures
        count_cameras(spec_setup()) == 1,
        count_drawables(spec_setup()) == 1,
        forall|i: int|
            0 <= i < spec_setup().len() && is_drawable(#[trigger] spec_setup()[i]) ==> {
                &&& spec_setup()[i]->width == spec_window_settings().width
                &&& spec_setup()[i]->height == spec_window_settings().height
            },
{
    let plan = spec_setup();
    let first = plan.drop_last();
    assert(first =~= seq![Spawn::Camera2d]);
    assert(first.drop_last() =~= Seq::<Spawn>::empty());
    assert(count_cameras(first.drop_last()) == 0);
    assert(count_drawables(first.drop_last()) == 0);
    assert(first.last() == Spawn::Camera2d);
    assert(count_cameras(first) == 1);
    assert(count_drawables(first) == 0);
}

} // verus!
