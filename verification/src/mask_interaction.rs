//! Throttling of mask geometry uploads while the user drags a mask: at most
//! one upload per interval while the drag lasts, and a final one for the
//! change the throttle held back.
use vstd::prelude::*;

verus! {

/// Least time between two uploads during one interaction, in nanoseconds.
pub const INTERACTIVE_MASK_INTERVAL_NANOS: u64 = 45_000_000;

/// Which mask layers must be uploaded again.
#[derive(Clone, Copy, Debug, PartialEq, Eq, Structural)]
pub enum MaskRefresh {
    /// One local mask layer.
    Layer(usize),
    /// Every layer (the subject refinement is shared by all of them).
    AllLayers,
}

/// The interaction in progress. `Moment` is the application's clock
/// reading. The subject refinement counts as the layer `layer_count`.
pub struct MaskInteraction<Moment> {
    /// Number of local mask layers.
    pub layer_count: usize,
    /// The layer being edited.
    pub dirty_layer: Option<usize>,
    /// When the interaction last uploaded its layer.
    pub last_upload: Option<Moment>,
    /// An edit was made since the last upload.
    pub uncommitted: bool,
}

/// What the flush of an interaction on `layer` uploads.
pub open spec fn flush_refresh(layer: usize, layer_count: usize) -> MaskRefresh {
    if layer == layer_count {
        MaskRefresh::AllLayers
    } else {
        MaskRefresh::Layer(layer)
    }
}

/// Whether an upload is due: none was made yet in this interaction, or the
/// interval has passed since the last.
pub open spec fn upload_due(has_last_upload: bool, elapsed_nanos: Option<u64>) -> bool {
    !has_last_upload || (elapsed_nanos matches Some(e) && e >= INTERACTIVE_MASK_INTERVAL_NANOS)
}

impl<Moment> MaskInteraction<Moment> {
    /// No interaction in progress over `layer_count` local mask layers.
    pub fn new(layer_count: usize) -> (interaction: Self)
        ensures
            interaction.layer_count == layer_count,
            interaction.dirty_layer is None,
            interaction.last_upload is None,
            !interaction.uncommitted,
    {
        MaskInteraction { layer_count, dirty_layer: None, last_upload: None, uncommitted: false }
    }

    /// Ends the interaction: the layer is uploaded if an edit was held back.
    pub fn finish(&mut self) -> (refresh: Option<MaskRefresh>)
        ensures
            final(self).dirty_layer is None,
            final(self).last_upload is None,
            !final(self).uncommitted,
            final(self).layer_count == old(self).layer_count,
            refresh == finish_refresh(*old(self)),
    {
        let layer = self.dirty_layer.take();
        let should_commit = self.uncommitted;
        self.last_upload = None;
        self.uncommitted = false;
        if should_commit {
            match layer {
                Some(layer) => {
                    if layer == self.layer_count {
                        Some(MaskRefresh::AllLayers)
                    } else {
                        Some(MaskRefresh::Layer(layer))
                    }
                },
                None => None,
            }
        } else {
            None
        }
    }

    /// Abandons the interaction without uploading anything.
    pub fn reset(&mut self)
        ensures
            final(self).dirty_layer is None,
            final(self).last_upload is None,
            !final(self).uncommitted,
            final(self).layer_count == old(self).layer_count,
    {
        self.dirty_layer = None;
        self.last_upload = None;
        self.uncommitted = false;
    }

    /// Shared step of the two kinds of interaction on `layer`.
    fn note(&mut self, layer: usize, now: Moment, elapsed_nanos: Option<u64>) -> (result: (Option<MaskRefresh>, bool))
        ensures
            ({
                let switched = old(self).dirty_layer != Some(layer);
                let due = switched || upload_due(old(self).last_upload is Some, elapsed_nanos);
                &&& result.0 == (if switched && old(self).uncommitted && old(self).dirty_layer is Some {
                    Some(flush_refresh(old(self).dirty_layer->Some_0, old(self).layer_count))
                } else {
                    None
                })
                &&& result.1 == due
                &&& final(self).dirty_layer == Some(layer)
                &&& final(self).uncommitted == !due
                &&& final(self).last_upload == (if due {
                    Some(now)
                } else {
                    old(self).last_upload
                })
                &&& final(self).layer_count == old(self).layer_count
            }),
    {
        let switched = match self.dirty_layer {
            Some(current) => current != layer,
            None => true,
        };
        let flushed = if switched {
            let flushed = self.finish();
            self.dirty_layer = Some(layer);
            self.last_upload = None;
            flushed
        } else {
            None
        };
        self.uncommitted = true;
        let due = match self.last_upload {
            None => true,
            Some(_) => match elapsed_nanos {
                Some(e) => e >= INTERACTIVE_MASK_INTERVAL_NANOS,
                None => false,
            },
        };
        if due {
            self.last_upload = Some(now);
            self.uncommitted = false;
        }
        (flushed, due)
    }

    /// The user edited the geometry of mask `layer` at `now`,
    /// `elapsed_nanos` after the interaction's last upload. Returns the
    /// upload that ends an interaction on another layer, and this layer's
    /// upload when one is due (see `upload_due`); otherwise the edit is held
    /// back.
    pub fn note_geometry(&mut self, layer: usize, now: Moment, elapsed_nanos: Option<u64>) -> (result: (Option<MaskRefresh>, Option<MaskRefresh>))
        ensures
            ({
                let switched = old(self).dirty_layer != Some(layer);
                let due = switched || upload_due(old(self).last_upload is Some, elapsed_nanos);
                &&& result.0 == (if switched && old(self).uncommitted && old(self).dirty_layer is Some {
                    Some(flush_refresh(old(self).dirty_layer->Some_0, old(self).layer_count))
                } else {
                    None
                })
                &&& result.1 == (if due {
                    Some(MaskRefresh::Layer(layer))
                } else {
                    None
                })
                &&& *final(self) == after_edit(*old(self), layer, now, elapsed_nanos)
            }),
    {
        let (flushed, due) = self.note(layer, now, elapsed_nanos);
        (flushed, if due {
            Some(MaskRefresh::Layer(layer))
        } else {
            None
        })
    }

    /// The user edited the shared subject refinement at `now`, as
    /// `note_geometry` does for a layer; its upload refreshes every layer.
    pub fn note_refinement(&mut self, now: Moment, elapsed_nanos: Option<u64>) -> (result: (Option<MaskRefresh>, Option<MaskRefresh>))
        ensures
            ({
                let layer = old(self).layer_count;
                let switched = old(self).dirty_layer != Some(layer);
                let due = switched || upload_due(old(self).last_upload is Some, elapsed_nanos);
                &&& result.0 == (if switched && old(self).uncommitted && old(self).dirty_layer is Some {
                    Some(flush_refresh(old(self).dirty_layer->Some_0, old(self).layer_count))
                } else {
                    None
                })
                &&& result.1 == (if due {
                    Some(MaskRefresh::AllLayers)
                } else {
                    None
                })
                &&& *final(self) == after_edit(*old(self), layer, now, elapsed_nanos)
            }),
    {
        let layer = self.layer_count;
        let (flushed, due) = self.note(layer, now, elapsed_nanos);
        (flushed, if due {
            Some(MaskRefresh::AllLayers)
        } else {
            None
        })
    }
}

/// The state after an edit on `layer` (see `MaskInteraction::note_geometry`).
pub open spec fn after_edit<Moment>(
    state: MaskInteraction<Moment>,
    layer: usize,
    now: Moment,
    elapsed_nanos: Option<u64>,
) -> MaskInteraction<Moment> {
    let switched = state.dirty_layer != Some(layer);
    let due = switched || upload_due(state.last_upload is Some, elapsed_nanos);
    MaskInteraction {
        layer_count: state.layer_count,
        dirty_layer: Some(layer),
        last_upload: if due {
            Some(now)
        } else {
            state.last_upload
        },
        uncommitted: !due,
    }
}

/// What finishing an interaction uploads (see `MaskInteraction::finish`).
pub open spec fn finish_refresh<Moment>(state: MaskInteraction<Moment>) -> Option<MaskRefresh> {
    if state.uncommitted && state.dirty_layer is Some {
        Some(flush_refresh(state.dirty_layer->Some_0, state.layer_count))
    } else {
        None
    }
}

/// No edit is lost: an edit whose upload the throttle held back is uploaded
/// when the interaction finishes.
pub proof fn lemma_held_back_edit_is_flushed<Moment>(
    state: MaskInteraction<Moment>,
    layer: usize,
    now: Moment,
    elapsed_nanos: Option<u64>,
)
    requires
        !(state.dirty_layer != Some(layer) || upload_due(state.last_upload is Some, elapsed_nanos)),
    ensures
        finish_refresh(after_edit(state, layer, now, elapsed_nanos)) == Some(
            flush_refresh(layer, state.layer_count),
        ),
{
}

/// An interaction on one layer uploads no more than once per interval:
/// an edit before the interval has passed since the last upload uploads
/// nothing.
pub proof fn lemma_uploads_are_throttled<Moment>(
    state: MaskInteraction<Moment>,
    layer: usize,
    now: Moment,
    elapsed: u64,
)
    requires
        state.dirty_layer == Some(layer),
        state.last_upload is Some,
        elapsed < INTERACTIVE_MASK_INTERVAL_NANOS,
    ensures
        after_edit(state, layer, now, Some(elapsed)).last_upload == state.last_upload,
        after_edit(state, layer, now, Some(elapsed)).uncommitted,
{
}

} // verus!
