//! The deferred lighting system's frame logic and fixed geometry.
//!
//! The system draws the terrain into a geometry buffer, accumulates one
//! light volume per point light over it, marks the lights with emitters and
//! composites the result to the screen, through the antialiasing pass or by
//! a plain copy. Which of the two is a flag that a bus command flips. This
//! module decides the passes of a frame and holds the geometry that never
//! changes; issuing the passes to the graphics device is the caller's part.
//!
//! The geometry buffer has one size for all of its targets, fixed when the
//! system is built. The system does not follow a window that is resized.

use crate::bus::drained;
use crate::bus::drained_events;
use crate::bus::EventBus;
use crate::bus::Subscription;
use crate::event::Event;
use crate::scalar::Scalar;
use crate::terrain::band_of;
use crate::terrain::get_terrain_color;
use crate::terrain::lemma_moderate_resolution_fits;
use crate::terrain::Terrain;
use vstd::prelude::*;

verus! {

/// Number of point lights.
pub const NUMBER_OF_LIGHTS: u32 = 250;

/// Quads along each side of the terrain the system draws.
pub const TERRAIN_RESOLUTION: usize = 256;

/// Number of vertices of the light volume: four for each face of a cube.
pub const CUBE_VERTEX_COUNT: usize = 24;

/// Number of indices of the light volume: two triangles for each face.
pub const CUBE_INDEX_COUNT: usize = 36;

/// One step of a frame, in terms of the device: a buffer to refresh, a
/// target to clear, or a bundle to draw.
#[derive(Debug, Clone, Copy, PartialEq, Eq, Structural)]
pub enum Pass {
    /// Write the terrain's model and view-projection matrices.
    UpdateTerrainLocals,
    /// Write the camera position and the lights' falloff constant.
    UpdateLightLocals,
    /// Write the transform and radius of the light volumes.
    UpdateLightVolumeLocals,
    /// Write the transform and radius of the emitters.
    UpdateEmitterLocals,
    /// Recompute and write the position of every light.
    UpdateLightPositions,
    /// Clear the depth target.
    ClearDepth,
    /// Clear the position target of the geometry buffer.
    ClearPosition,
    /// Clear the normal target of the geometry buffer.
    ClearNormal,
    /// Clear the diffuse target of the geometry buffer.
    ClearDiffuse,
    /// Draw the terrain into the geometry buffer.
    DrawTerrain,
    /// Clear the target that light is accumulated in.
    ClearIntermediate,
    /// Draw the light volumes, adding to the accumulated light.
    DrawLights,
    /// Draw the emitters that mark the lights.
    DrawEmitters,
    /// Composite to the screen through the antialiasing pass.
    DrawFXAA,
    /// Composite to the screen by a plain copy.
    DrawBlit,
}

/// The pass that composites a frame to the screen.
pub open spec fn composite_pass(fxaa_enabled: bool) -> Pass {
    if fxaa_enabled {
        Pass::DrawFXAA
    } else {
        Pass::DrawBlit
    }
}

/// The passes of a frame, in order.
pub open spec fn frame_passes(fxaa_enabled: bool) -> Seq<Pass> {
    seq![
        Pass::UpdateTerrainLocals,
        Pass::UpdateLightLocals,
        Pass::UpdateLightVolumeLocals,
        Pass::UpdateEmitterLocals,
        Pass::UpdateLightPositions,
        Pass::ClearDepth,
        Pass::ClearPosition,
        Pass::ClearNormal,
        Pass::ClearDiffuse,
        Pass::DrawTerrain,
        Pass::ClearIntermediate,
        Pass::DrawLights,
        Pass::DrawEmitters,
        composite_pass(fxaa_enabled),
    ]
}

/// The antialiasing flag after a run of events: every toggle command flips
/// it, every other event leaves it alone.
pub open spec fn fxaa_after(enabled: bool, events: Seq<Event>) -> bool
    decreases events.len(),
{
    if events.len() == 0 {
        enabled
    } else if events.last() is ToggleFXAA {
        !fxaa_after(enabled, events.drop_last())
    } else {
        fxaa_after(enabled, events.drop_last())
    }
}

/// The values the antialiasing flag takes in turn over a run of events: one
/// for each toggle command.
pub open spec fn fxaa_changes(enabled: bool, events: Seq<Event>) -> Seq<bool>
    decreases events.len(),
{
    if events.len() == 0 {
        Seq::empty()
    } else if events.last() is ToggleFXAA {
        fxaa_changes(enabled, events.drop_last()).push(fxaa_after(enabled, events))
    } else {
        fxaa_changes(enabled, events.drop_last())
    }
}

/// What the system asks of the device for one frame.
#[derive(Debug, Clone, PartialEq, Eq)]
pub struct FramePlan {
    /// The values the antialiasing flag took while the frame's commands were
    /// applied, in order; empty when no command toggled it.
    pub fxaa_changes: Vec<bool>,
    /// The passes to issue, in order.
    pub passes: Vec<Pass>,
}

/// The corners of the cube that bounds a light, face by face: top, bottom,
/// right, left, front, back, four corners each.
pub open spec fn cube_corner(k: int) -> (int, int, int) {
    if k == 0 {
        (-1, -1, 1)
    } else if k == 1 {
        (1, -1, 1)
    } else if k == 2 {
        (1, 1, 1)
    } else if k == 3 {
        (-1, 1, 1)
    } else if k == 4 {
        (-1, 1, -1)
    } else if k == 5 {
        (1, 1, -1)
    } else if k == 6 {
        (1, -1, -1)
    } else if k == 7 {
        (-1, -1, -1)
    } else if k == 8 {
        (1, -1, -1)
    } else if k == 9 {
        (1, 1, -1)
    } else if k == 10 {
        (1, 1, 1)
    } else if k == 11 {
        (1, -1, 1)
    } else if k == 12 {
        (-1, -1, 1)
    } else if k == 13 {
        (-1, 1, 1)
    } else if k == 14 {
        (-1, 1, -1)
    } else if k == 15 {
        (-1, -1, -1)
    } else if k == 16 {
        (1, 1, -1)
    } else if k == 17 {
        (-1, 1, -1)
    } else if k == 18 {
        (-1, 1, 1)
    } else if k == 19 {
        (1, 1, 1)
    } else if k == 20 {
        (1, -1, 1)
    } else if k == 21 {
        (-1, -1, 1)
    } else if k == 22 {
        (-1, -1, -1)
    } else {
        (1, -1, -1)
    }
}

/// The `k`-th index of the cube: faces in order, each cut into the triangles
/// of its first three corners and of its third, fourth and first.
pub open spec fn cube_index(k: int) -> int {
    let corner = k % 6;
    4 * (k / 6) + (if corner == 1 {
        1int
    } else if corner == 2 || corner == 3 {
        2int
    } else if corner == 4 {
        3int
    } else {
        0int
    })
}

/// The triangle that covers the screen, as position and texture coordinate
/// pairs.
pub fn fullscreen_triangle() -> (vertices: [[i8; 4]; 3])
    ensures
        vertices@[0]@ == seq![-3i8, -1i8, -1i8, 0i8],
        vertices@[1]@ == seq![1i8, -1i8, 1i8, 0i8],
        vertices@[2]@ == seq![1i8, 3i8, 1i8, 2i8],
{
    let vertices: [[i8; 4]; 3] = [[-3, -1, -1, 0], [1, -1, 1, 0], [1, 3, 1, 2]];
    assert(vertices@[0]@ =~= seq![-3i8, -1i8, -1i8, 0i8]);
    assert(vertices@[1]@ =~= seq![1i8, -1i8, 1i8, 0i8]);
    assert(vertices@[2]@ =~= seq![1i8, 3i8, 1i8, 2i8]);
    vertices
}

/// The vertices of the light volume: the corners of the cube, each with a
/// fourth coordinate of one.
pub fn cube_vertices() -> (vertices: Vec<[i8; 4]>)
    ensures
        vertices@.len() == CUBE_VERTEX_COUNT,
        forall|k: int|
            0 <= k < CUBE_VERTEX_COUNT ==> {
                &&& (#[trigger] vertices@[k])@[0] == cube_corner(k).0
                &&& vertices@[k]@[1] == cube_corner(k).1
                &&& vertices@[k]@[2] == cube_corner(k).2
                &&& vertices@[k]@[3] == 1
            },
{
    let vertices: Vec<[i8; 4]> = vec![
        // top
        [-1, -1, 1, 1],
        [1, -1, 1, 1],
        [1, 1, 1, 1],
        [-1, 1, 1, 1],
        // bottom
        [-1, 1, -1, 1],
        [1, 1, -1, 1],
        [1, -1, -1, 1],
        [-1, -1, -1, 1],
        // right
        [1, -1, -1, 1],
        [1, 1, -1, 1],
        [1, 1, 1, 1],
        [1, -1, 1, 1],
        // left
        [-1, -1, 1, 1],
        [-1, 1, 1, 1],
        [-1, 1, -1, 1],
        [-1, -1, -1, 1],
        // front
        [1, 1, -1, 1],
        [-1, 1, -1, 1],
        [-1, 1, 1, 1],
        [1, 1, 1, 1],
        // back
        [1, -1, 1, 1],
        [-1, -1, 1, 1],
        [-1, -1, -1, 1],
        [1, -1, -1, 1],
    ];
    vertices
}

/// The index buffer of the light volume.
pub fn cube_indices() -> (indices: Vec<u16>)
    ensures
        indices@.len() == CUBE_INDEX_COUNT,
        forall|k: int| 0 <= k < CUBE_INDEX_COUNT ==> #[trigger] indices@[k] == cube_index(k),
{
    let mut indices: Vec<u16> = Vec::new();
    let mut face: u16 = 0;
    while face < 6
        invariant
            face <= 6,
            indices@.len() == 6 * face,
            forall|k: int| 0 <= k < indices@.len() ==> #[trigger] indices@[k] == cube_index(k),
        decreases 6 - face,
    {
        let base: u16 = 4 * face;
        indices.push(base);
        indices.push(base + 1);
        indices.push(base + 2);
        indices.push(base + 2);
        indices.push(base + 3);
        indices.push(base);
        face += 1;
    }
    indices
}

/// Every corner of the cube has coordinates of magnitude one, and every
/// index of the cube names one of its vertices.
pub proof fn lemma_cube_is_closed(k: int)
    ensures
        0 <= k < CUBE_VERTEX_COUNT ==> {
            &&& cube_corner(k).0 == 1 || cube_corner(k).0 == -1
            &&& cube_corner(k).1 == 1 || cube_corner(k).1 == -1
            &&& cube_corner(k).2 == 1 || cube_corner(k).2 == -1
        },
        0 <= k < CUBE_INDEX_COUNT ==> 0 <= cube_index(k) < CUBE_VERTEX_COUNT,
{
}

/// The red, green and blue channels of the colour of a height's band.
pub fn calculate_color(height: Scalar) -> (channels: [Scalar; 3])
    ensures
        channels@ == seq![
            band_of(height).color().r,
            band_of(height).color().g,
            band_of(height).color().b,
        ],
{
    get_terrain_color(height)
}

/// The frame logic of the deferred lighting system.
pub struct DeferredLightSystem {
    event_queue: Subscription,
    fxaa_enabled: bool,
    terrain: Terrain,
    target_width: u16,
    target_height: u16,
}

impl DeferredLightSystem {
    /// The mailbox the system drains.
    pub closed spec fn subscription(&self) -> Subscription {
        self.event_queue
    }

    /// Whether frames are composited through the antialiasing pass.
    pub closed spec fn fxaa_enabled(&self) -> bool {
        self.fxaa_enabled
    }

    /// The terrain the system draws.
    pub closed spec fn terrain(&self) -> Terrain {
        self.terrain
    }

    /// Width and height, in pixels, of every target of the geometry buffer.
    pub closed spec fn target_size(&self) -> (u16, u16) {
        (self.target_width, self.target_height)
    }

    /// The terrain is the grid of the fixed resolution.
    pub open spec fn wf(&self) -> bool {
        self.terrain().wf() && self.terrain().resolution() == TERRAIN_RESOLUTION
    }

    /// A system that drains the mailbox `e_que` and renders to targets of
    /// the given size, with antialiasing on.
    pub fn new(e_que: Subscription, target_width: u16, target_height: u16) -> (system:
        DeferredLightSystem)
        ensures
            system.wf(),
            system.subscription() == e_que,
            system.fxaa_enabled(),
            system.target_size() == (target_width, target_height),
    {
        proof {
            lemma_moderate_resolution_fits(TERRAIN_RESOLUTION);
        }
        let terrain = Terrain::new(TERRAIN_RESOLUTION);
        DeferredLightSystem {
            event_queue: e_que,
            fxaa_enabled: true,
            terrain: terrain.unwrap(),
            target_width,
            target_height,
        }
    }

    pub fn get_target_size(&self) -> (size: (u16, u16))
        ensures
            size == self.target_size(),
    {
        (self.target_width, self.target_height)
    }

    pub fn is_fxaa_enabled(&self) -> (enabled: bool)
        ensures
            enabled == self.fxaa_enabled(),
    {
        self.fxaa_enabled
    }

    pub fn get_terrain(&self) -> (terrain: &Terrain)
        ensures
            *terrain == self.terrain(),
    {
        &self.terrain
    }

    /// Plans a frame: drains the system's mailbox, flips the antialiasing
    /// flag once for every toggle command, and lists the frame's passes, the
    /// last of which composites as the flag then stands.
    pub fn render(&mut self, bus: &mut EventBus) -> (plan: FramePlan)
        ensures
            final(bus)@ == drained(old(bus)@, old(self).subscription().index()),
            final(self).fxaa_enabled() == fxaa_after(
                old(self).fxaa_enabled(),
                drained_events(old(bus)@, old(self).subscription().index()),
            ),
            plan.fxaa_changes@ == fxaa_changes(
                old(self).fxaa_enabled(),
                drained_events(old(bus)@, old(self).subscription().index()),
            ),
            plan.passes@ == frame_passes(final(self).fxaa_enabled()),
            final(self).subscription() == old(self).subscription(),
            final(self).terrain() == old(self).terrain(),
            final(self).target_size() == old(self).target_size(),
    {
        let events = bus.drain(&self.event_queue);
        let ghost before = self.fxaa_enabled;
        let mut changes: Vec<bool> = Vec::new();
        let mut i: usize = 0;
        while i < events.len()
            invariant
                i <= events.len(),
                self.fxaa_enabled == fxaa_after(before, events@.subrange(0, i as int)),
                changes@ == fxaa_changes(before, events@.subrange(0, i as int)),
                self.event_queue == old(self).event_queue,
                self.terrain == old(self).terrain,
                self.target_width == old(self).target_width,
                self.target_height == old(self).target_height,
            decreases events.len() - i,
        {
            proof {
                let upto = events@.subrange(0, i + 1);
                assert(upto.drop_last() =~= events@.subrange(0, i as int));
                assert(upto.last() == events@[i as int]);
            }
            match &events[i] {
                Event::ToggleFXAA => {
                    self.fxaa_enabled = !self.fxaa_enabled;
                    changes.push(self.fxaa_enabled);
                },
                _ => {},
            }
            i += 1;
        }
        assert(events@.subrange(0, i as int) =~= events@);
        let passes = plan_passes(self.fxaa_enabled);
        FramePlan { fxaa_changes: changes, passes }
    }
}

/// Lists the passes of a frame.
pub fn plan_passes(fxaa_enabled: bool) -> (passes: Vec<Pass>)
    ensures
        passes@ == frame_passes(fxaa_enabled),
{
    let mut passes: Vec<Pass> = Vec::new();
    passes.push(Pass::UpdateTerrainLocals);
    passes.push(Pass::UpdateLightLocals);
    passes.push(Pass::UpdateLightVolumeLocals);
    passes.push(Pass::UpdateEmitterLocals);
    passes.push(Pass::UpdateLightPositions);
    passes.push(Pass::ClearDepth);
    passes.push(Pass::ClearPosition);
    passes.push(Pass::ClearNormal);
    passes.push(Pass::ClearDiffuse);
    passes.push(Pass::DrawTerrain);
    passes.push(Pass::ClearIntermediate);
    passes.push(Pass::DrawLights);
    passes.push(Pass::DrawEmitters);
    if fxaa_enabled {
        passes.push(Pass::DrawFXAA);
    } else {
        passes.push(Pass::DrawBlit);
    }
    assert(passes@ =~= frame_passes(fxaa_enabled));
    passes
}

/// One toggle command flips the antialiasing flag, and the frame that
/// applies it composites the other way; two toggles leave the flag as it was.
pub proof fn lemma_toggle_flips(enabled: bool)
    ensures
        fxaa_after(enabled, seq![Event::ToggleFXAA]) == !enabled,
        fxaa_changes(enabled, seq![Event::ToggleFXAA]) == seq![!enabled],
        frame_passes(!enabled).last() != frame_passes(enabled).last(),
        frame_passes(true).last() == Pass::DrawFXAA,
        frame_passes(false).last() == Pass::DrawBlit,
        fxaa_after(enabled, seq![Event::ToggleFXAA, Event::ToggleFXAA]) == enabled,
{
    let once = seq![Event::ToggleFXAA];
    let twice = seq![Event::ToggleFXAA, Event::ToggleFXAA];
    assert(once.drop_last() =~= Seq::<Event>::empty());
    assert(twice.drop_last() =~= once);
    assert(once.last() is ToggleFXAA && twice.last() is ToggleFXAA);
    assert(fxaa_after(enabled, once.drop_last()) == enabled);
    assert(fxaa_changes(enabled, once.drop_last()) =~= Seq::<bool>::empty());
    assert(fxaa_changes(enabled, once) =~= seq![!enabled]);
}

/// Frames compose: applying two runs of events one after the other leaves
/// the antialiasing flag as applying them in one run does.
pub proof fn lemma_fxaa_composes(enabled: bool, first: Seq<Event>, second: Seq<Event>)
    ensures
        fxaa_after(enabled, first + second) == fxaa_after(fxaa_after(enabled, first), second),
    decreases second.len(),
{
    if second.len() == 0 {
        assert(first + second =~= first);
    } else {
        lemma_fxaa_composes(enabled, first, second.drop_last());
        assert((first + second).drop_last() =~= first + second.drop_last());
        assert((first + second).last() == second.last());
    }
}

/// Events that are no toggle commands leave the antialiasing flag alone.
pub proof fn lemma_other_events_keep_fxaa(enabled: bool, events: Seq<Event>)
    requires
        forall|k: int| 0 <= k < events.len() ==> !(#[trigger] events[k] is ToggleFXAA),
    ensures
        fxaa_after(enabled, events) == enabled,
        fxaa_changes(enabled, events) == Seq::<bool>::empty(),
    decreases events.len(),
{
    if events.len() > 0 {
        let front = events.drop_last();
        assert forall|k: int| 0 <= k < front.len() implies !(#[trigger] front[k] is ToggleFXAA) by {
            assert(front[k] == events[k]);
        }
        lemma_other_events_keep_fxaa(enabled, front);
        assert(!(events[events.len() - 1] is ToggleFXAA));
    }
}

} // verus!
