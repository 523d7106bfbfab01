//! Touch gestures on a mask component. The geometry from before the gesture
//! is kept so that a cancelled gesture puts it back, and every change marks
//! the mask layers whose GPU copies are out of date.
use vstd::prelude::*;
use crate::mask_interaction::{MaskInteraction, MaskRefresh};
use crate::ai_masks::targets::MaskKind;

verus! {

/// The overlay revision after one more change: it counts up and wraps.
pub open spec fn next_revision(revision: u64) -> u64 {
    if revision == u64::MAX {
        0
    } else {
        (revision + 1) as u64
    }
}

/// `flags` with the entry at `layer` set, where there is one.
pub open spec fn marked(flags: Seq<bool>, layer: int) -> Seq<bool> {
    if 0 <= layer < flags.len() {
        flags.update(layer, true)
    } else {
        flags
    }
}

/// `count` flags, all set.
pub open spec fn all_set(count: nat) -> Seq<bool> {
    Seq::new(count, |i: int| true)
}

/// Mask layers whose uploaded copies are out of date for the main, the
/// detail and the navigation previews, with the revision of the overlay.
pub struct MaskDirtyLayers {
    pub main: Vec<bool>,
    pub detail: Vec<bool>,
    pub navigation: Vec<bool>,
    pub overlay_revision: u64,
}

impl MaskDirtyLayers {
    /// One flag per layer in each of the three lists.
    pub open spec fn wf(&self) -> bool {
        &&& self.main.len() == self.detail.len()
        &&& self.main.len() == self.navigation.len()
    }

    /// `layer_count` clean layers and the first overlay revision.
    pub fn new(layer_count: usize) -> (dirty: Self)
        ensures
            dirty.wf(),
            dirty.main@ == Seq::new(layer_count as nat, |i: int| false),
            dirty.detail@ == dirty.main@,
            dirty.navigation@ == dirty.main@,
            dirty.overlay_revision == 0,
    {
        let main = vec![false; layer_count];
        let detail = vec![false; layer_count];
        let navigation = vec![false; layer_count];
        proof {
            assert(main@ =~= Seq::new(layer_count as nat, |i: int| false));
            assert(detail@ =~= main@);
            assert(navigation@ =~= main@);
        }
        MaskDirtyLayers { main, detail, navigation, overlay_revision: 0 }
    }

    /// The geometry of mask `layer` changed: that layer is out of date in
    /// all three previews (a layer past the end marks nothing), and the
    /// overlay is redrawn.
    pub fn mark_layer(&mut self, layer: usize)
        requires
            old(self).wf(),
        ensures
            final(self).wf(),
            final(self).main@ == marked(old(self).main@, layer as int),
            final(self).detail@ == marked(old(self).detail@, layer as int),
            final(self).navigation@ == marked(old(self).navigation@, layer as int),
            final(self).overlay_revision == next_revision(old(self).overlay_revision),
    {
        if layer < self.main.len() {
            self.main.set(layer, true);
            self.detail.set(layer, true);
            self.navigation.set(layer, true);
        }
        self.overlay_revision = self.overlay_revision.wrapping_add(1);
    }

    /// Every layer is out of date in all three previews, and the overlay
    /// is redrawn.
    pub fn mark_all(&mut self)
        requires
            old(self).wf(),
        ensures
            final(self).wf(),
            final(self).main@ == all_set(old(self).main.len() as nat),
            final(self).detail@ == final(self).main@,
            final(self).navigation@ == final(self).main@,
            final(self).overlay_revision == next_revision(old(self).overlay_revision),
    {
        let count = self.main.len();
        self.main = vec![true; count];
        self.detail = vec![true; count];
        self.navigation = vec![true; count];
        proof {
            assert(self.main@ =~= all_set(count as nat));
            assert(self.detail@ =~= self.main@);
            assert(self.navigation@ =~= self.main@);
        }
        self.overlay_revision = self.overlay_revision.wrapping_add(1);
    }

    /// Marks what `refresh` names.
    pub fn apply(&mut self, refresh: MaskRefresh)
        requires
            old(self).wf(),
        ensures
            final(self).wf(),
            final(self).overlay_revision == next_revision(old(self).overlay_revision),
            match refresh {
                MaskRefresh::Layer(layer) => {
                    &&& final(self).main@ == marked(old(self).main@, layer as int)
                    &&& final(self).detail@ == marked(old(self).detail@, layer as int)
                    &&& final(self).navigation@ == marked(old(self).navigation@, layer as int)
                },
                MaskRefresh::AllLayers => {
                    &&& final(self).main@ == all_set(old(self).main.len() as nat)
                    &&& final(self).detail@ == final(self).main@
                    &&& final(self).navigation@ == final(self).main@
                },
            },
    {
        match refresh {
            MaskRefresh::Layer(layer) => self.mark_layer(layer),
            MaskRefresh::AllLayers => self.mark_all(),
        }
    }
}

/// What a touch gesture saved when it began: where the edited component
/// is, its geometry, the subject refinement when it was being edited, and
/// the object inference cache.
pub struct MaskTouchGestureBackup<Geometry, Refinement, Cache> {
    pub mask_index: usize,
    pub component_index: usize,
    pub geometry: Geometry,
    pub subject_refinement: Option<Refinement>,
    pub object_cache: Cache,
}

/// Whether `components` has a component `component_index` in mask
/// `mask_index`.
pub open spec fn has_component<Geometry>(
    components: Seq<Vec<Geometry>>,
    mask_index: int,
    component_index: int,
) -> bool {
    0 <= mask_index < components.len() && 0 <= component_index < components[mask_index].len()
}

/// The mask state that touch gestures read and restore. `components` holds
/// the geometry of each component of each mask; `Point` and `Drag` are the
/// brush point and the drag in progress; `Moment` is a clock reading.
pub struct MaskGesture<Geometry, Refinement, Cache, Point, Drag, Moment> {
    pub components: Vec<Vec<Geometry>>,
    pub subject_refinement: Refinement,
    pub subject_refinement_active: bool,
    pub object_cache: Cache,
    pub object_generation: u64,
    pub last_brush_point: Option<Point>,
    pub mask_drag: Option<Drag>,
    pub interaction: MaskInteraction<Moment>,
    pub dirty: MaskDirtyLayers,
    pub backup: Option<MaskTouchGestureBackup<Geometry, Refinement, Cache>>,
}

impl<Geometry: Clone, Refinement: Clone, Cache: Clone, Point, Drag, Moment> MaskGesture<
    Geometry,
    Refinement,
    Cache,
    Point,
    Drag,
    Moment,
> {
    /// A touch gesture begins on component `component_index` of mask
    /// `mask_index`. A gesture already in progress keeps its backup, and a
    /// component that does not exist starts none; otherwise the backup holds
    /// a clone of the component's geometry, of the subject refinement when
    /// it is being edited, and of the object cache.
    pub fn begin_touch_gesture(&mut self, mask_index: usize, component_index: usize)
        ensures
            final(self).components == old(self).components,
            final(self).subject_refinement == old(self).subject_refinement,
            final(self).subject_refinement_active == old(self).subject_refinement_active,
            final(self).object_cache == old(self).object_cache,
            final(self).object_generation == old(self).object_generation,
            final(self).last_brush_point == old(self).last_brush_point,
            final(self).mask_drag == old(self).mask_drag,
            final(self).interaction == old(self).interaction,
            final(self).dirty == old(self).dirty,
            old(self).backup is Some ==> final(self).backup == old(self).backup,
            old(self).backup is None && !has_component(
                old(self).components@,
                mask_index as int,
                component_index as int,
            ) ==> final(self).backup is None,
            old(self).backup is None && has_component(
                old(self).components@,
                mask_index as int,
                component_index as int,
            ) ==> {
                &&& final(self).backup is Some
                &&& final(self).backup->Some_0.mask_index == mask_index
                &&& final(self).backup->Some_0.component_index == component_index
                &&& cloned(
                    old(self).components@[mask_index as int]@[component_index as int],
                    final(self).backup->Some_0.geometry,
                )
                &&& final(self).backup->Some_0.subject_refinement is Some
                    <==> old(self).subject_refinement_active
                &&& old(self).subject_refinement_active ==> cloned(
                    old(self).subject_refinement,
                    final(self).backup->Some_0.subject_refinement->Some_0,
                )
                &&& cloned(old(self).object_cache, final(self).backup->Some_0.object_cache)
            },
    {
        if self.backup.is_some() {
            return;
        }
        if mask_index >= self.components.len() {
            return;
        }
        if component_index >= self.components[mask_index].len() {
            return;
        }
        let geometry = self.components[mask_index][component_index].clone();
        let subject_refinement = if self.subject_refinement_active {
            Some(self.subject_refinement.clone())
        } else {
            None
        };
        let object_cache = self.object_cache.clone();
        self.backup = Some(
            MaskTouchGestureBackup {
                mask_index,
                component_index,
                geometry,
                subject_refinement,
                object_cache,
            },
        );
    }

    /// The gesture ended as the user meant it: its backup is dropped.
    pub fn commit_touch_gesture(&mut self)
        ensures
            final(self).backup is None,
            final(self).components == old(self).components,
            final(self).subject_refinement == old(self).subject_refinement,
            final(self).object_cache == old(self).object_cache,
            final(self).object_generation == old(self).object_generation,
            final(self).interaction == old(self).interaction,
            final(self).dirty == old(self).dirty,
    {
        self.backup = None;
    }
}

/// The geometry of each component of each mask.
pub open spec fn geometry_view<Geometry>(components: Seq<Vec<Geometry>>) -> Seq<Seq<Geometry>> {
    components.map_values(|row: Vec<Geometry>| row@)
}

/// The layers that cancelling the gesture saved in `backup` uploads, when
/// the component it edited exists (`restored`).
pub open spec fn cancel_refresh<Geometry, Refinement, Cache>(
    backup: MaskTouchGestureBackup<Geometry, Refinement, Cache>,
    restored: bool,
) -> Option<MaskRefresh> {
    if backup.subject_refinement is Some {
        Some(MaskRefresh::AllLayers)
    } else if restored {
        Some(MaskRefresh::Layer(backup.mask_index))
    } else {
        None
    }
}

impl<Geometry, Refinement, Cache, Point, Drag, Moment> MaskGesture<
    Geometry,
    Refinement,
    Cache,
    Point,
    Drag,
    Moment,
> {
    /// The gesture was cancelled. The brush point and the drag are dropped.
    /// Without a backup nothing else changes. With one, the saved geometry
    /// goes back into its component when that still exists, the saved
    /// subject refinement comes back when there is one, the object cache is
    /// restored and its generation advances (a result in flight is then
    /// stale), and the interaction is abandoned. Returns the layers to
    /// upload (see `cancel_refresh`), which are also marked dirty.
    pub fn cancel_touch_gesture(&mut self) -> (refresh: Option<MaskRefresh>)
        requires
            old(self).dirty.wf(),
        ensures
            final(self).backup is None,
            final(self).last_brush_point is None,
            final(self).mask_drag is None,
            final(self).dirty.wf(),
            final(self).subject_refinement_active == old(self).subject_refinement_active,
            final(self).components@.len() == old(self).components@.len(),
            old(self).backup is None ==> {
                &&& refresh is None
                &&& final(self).components == old(self).components
                &&& final(self).subject_refinement == old(self).subject_refinement
                &&& final(self).object_cache == old(self).object_cache
                &&& final(self).object_generation == old(self).object_generation
                &&& final(self).interaction == old(self).interaction
                &&& final(self).dirty == old(self).dirty
            },
            old(self).backup is Some ==> {
                let b = old(self).backup->Some_0;
                let m = b.mask_index as int;
                let c = b.component_index as int;
                let restored = has_component(old(self).components@, m, c);
                let old_geometry = geometry_view(old(self).components@);
                &&& geometry_view(final(self).components@) == (if restored {
                    old_geometry.update(m, old_geometry[m].update(c, b.geometry))
                } else {
                    old_geometry
                })
                &&& final(self).subject_refinement == (match b.subject_refinement {
                    Some(r) => r,
                    None => old(self).subject_refinement,
                })
                &&& final(self).object_cache == b.object_cache
                &&& final(self).object_generation == next_revision(old(self).object_generation)
                &&& final(self).interaction.layer_count == old(self).interaction.layer_count
                &&& final(self).interaction.dirty_layer is None
                &&& final(self).interaction.last_upload is None
                &&& !final(self).interaction.uncommitted
                &&& refresh == cancel_refresh(b, restored)
                &&& match refresh {
                    Some(MaskRefresh::AllLayers) => {
                        &&& final(self).dirty.main@ == all_set(old(self).dirty.main.len() as nat)
                        &&& final(self).dirty.detail@ == final(self).dirty.main@
                        &&& final(self).dirty.navigation@ == final(self).dirty.main@
                        &&& final(self).dirty.overlay_revision == next_revision(
                            old(self).dirty.overlay_revision,
                        )
                    },
                    Some(MaskRefresh::Layer(layer)) => {
                        &&& final(self).dirty.main@ == marked(old(self).dirty.main@, layer as int)
                        &&& final(self).dirty.detail@ == marked(
                            old(self).dirty.detail@,
                            layer as int,
                        )
                        &&& final(self).dirty.navigation@ == marked(
                            old(self).dirty.navigation@,
                            layer as int,
                        )
                        &&& final(self).dirty.overlay_revision == next_revision(
                            old(self).dirty.overlay_revision,
                        )
                    },
                    None => final(self).dirty == old(self).dirty,
                }
            },
    {
        self.last_brush_point = None;
        self.mask_drag = None;
        let backup = match self.backup.take() {
            Some(backup) => backup,
            None => return None,
        };
        let ghost old_components = self.components@;
        let mask_index = backup.mask_index;
        let component_index = backup.component_index;
        let restored = mask_index < self.components.len() && component_index
            < self.components[mask_index].len();
        if restored {
            self.components[mask_index][component_index] = backup.geometry;
            proof {
                let old_geometry = geometry_view(old_components);
                assert(geometry_view(self.components@) =~= old_geometry.update(
                    mask_index as int,
                    old_geometry[mask_index as int].update(component_index as int, backup.geometry),
                ));
            }
        }
        let refinement_restored = match backup.subject_refinement {
            Some(subject_refinement) => {
                self.subject_refinement = subject_refinement;
                true
            },
            None => false,
        };
        self.object_cache = backup.object_cache;
        self.object_generation = self.object_generation.wrapping_add(1);
        self.interaction.reset();
        let refresh = if refinement_restored {
            Some(MaskRefresh::AllLayers)
        } else if restored {
            Some(MaskRefresh::Layer(mask_index))
        } else {
            None
        };
        match refresh {
            Some(r) => self.dirty.apply(r),
            None => {},
        }
        refresh
    }
}

/// Cancelling undoes the gesture: when the backup holds the geometry that
/// the component had when the gesture began (a clone that equals it), and
/// the gesture edited only that component, the geometry that cancelling
/// writes back is the geometry from before the gesture.
pub proof fn lemma_cancel_restores_the_gesture_start<Geometry>(
    start: Seq<Seq<Geometry>>,
    mask_index: int,
    component_index: int,
    edited: Geometry,
)
    requires
        0 <= mask_index < start.len(),
        0 <= component_index < start[mask_index].len(),
    ensures
        ({
            let during = start.update(mask_index, start[mask_index].update(component_index, edited));
            during.update(
                mask_index,
                during[mask_index].update(component_index, start[mask_index][component_index]),
            ) == start
        }),
{
    let during = start.update(mask_index, start[mask_index].update(component_index, edited));
    assert(during[mask_index].update(component_index, start[mask_index][component_index])
        =~= start[mask_index]);
    assert(during.update(
        mask_index,
        during[mask_index].update(component_index, start[mask_index][component_index]),
    ) =~= start);
}

/// Whether the brush adds to or erases from a mask.
#[derive(Clone, Copy, Debug, PartialEq, Eq, Structural)]
pub enum BrushMode {
    Paint,
    Erase,
}

/// The mask tool in the user's hand.
#[derive(Clone, Copy, Debug, PartialEq, Eq, Structural)]
pub struct MaskTools {
    pub active_tool: Option<MaskKind>,
    pub subject_refinement_active: bool,
    pub brush_mode: BrushMode,
}

/// The tool that choosing `kind` puts in hand: the kind itself when this
/// build offers it (`available`), except the full-frame mask, which has no
/// tool.
pub open spec fn chosen_tool(kind: MaskKind, available: bool) -> Option<MaskKind> {
    if available && kind != MaskKind::Fullscreen {
        Some(kind)
    } else {
        None
    }
}

impl MaskTools {
    fn take_tool(&mut self, kind: MaskKind, available: bool)
        ensures
            final(self).active_tool == chosen_tool(kind, available),
            final(self).subject_refinement_active == (old(self).subject_refinement_active && (
            kind == MaskKind::Subject || kind == MaskKind::Background)),
            final(self).brush_mode == old(self).brush_mode,
    {
        self.active_tool = if available && kind != MaskKind::Fullscreen {
            Some(kind)
        } else {
            None
        };
        match kind {
            MaskKind::Subject | MaskKind::Background => {},
            _ => self.subject_refinement_active = false,
        }
    }

    /// The user picked the tool for `kind` when creating a component:
    /// refinement of the subject stays on only for subject and background
    /// masks, and the brush and object tools start painting.
    pub fn activate(&mut self, kind: MaskKind, available: bool)
        ensures
            final(self).active_tool == chosen_tool(kind, available),
            final(self).subject_refinement_active == (old(self).subject_refinement_active && (
            kind == MaskKind::Subject || kind == MaskKind::Background)),
            final(self).brush_mode == (if kind == MaskKind::Brush || kind == MaskKind::Object {
                BrushMode::Paint
            } else {
                old(self).brush_mode
            }),
    {
        self.take_tool(kind, available);
        match kind {
            MaskKind::Brush | MaskKind::Object => self.brush_mode = BrushMode::Paint,
            _ => {},
        }
    }

    /// The user switched to the tool for `kind` of an existing component;
    /// the brush keeps its mode.
    pub fn select(&mut self, kind: MaskKind, available: bool)
        ensures
            final(self).active_tool == chosen_tool(kind, available),
            final(self).subject_refinement_active == (old(self).subject_refinement_active && (
            kind == MaskKind::Subject || kind == MaskKind::Background)),
            final(self).brush_mode == old(self).brush_mode,
    {
        self.take_tool(kind, available);
    }
}

/// Choosing any kind that this build offers puts exactly that kind in hand,
/// for every kind but the full-frame mask; choosing the full-frame mask or a
/// kind the build does not offer leaves no tool in hand. (`activate` and
/// `select` both put `chosen_tool` in hand.)
pub proof fn lemma_offered_kinds_are_put_in_hand(kind: MaskKind, available: bool)
    ensures
        available && kind != MaskKind::Fullscreen ==> chosen_tool(kind, available) == Some(kind),
        !available ==> chosen_tool(kind, available) is None,
        chosen_tool(MaskKind::Fullscreen, available) is None,
        chosen_tool(kind, available) matches Some(tool) ==> tool == kind,
{
}

} // verus!
