//! The Remove (inpainting) tool: its strokes, the brush in progress, and
//! the background worker that repairs a brushed region. The worker, its
//! cancellation token and the brush geometry are the application's values;
//! this state decides what happens to them.
use vstd::prelude::*;
use vstd::string::*;
use crate::text::{decimal, decimal_text, occurs_in, str_contains};

verus! {

/// The Remove tool's state for the open document.
pub struct InpaintState<Stroke, Brush, Point, Worker, Token> {
    /// Applied Remove strokes, oldest first.
    pub strokes: Vec<Stroke>,
    /// Points of the brush stroke being drawn.
    pub active_points: Vec<Point>,
    /// Where the brush was last seen.
    pub last_brush_uv: Option<Point>,
    /// The brushed stroke waiting for the worker or for model consent.
    pub pending_brush: Option<Brush>,
    /// The model download consent dialog is open.
    pub model_consent_open: bool,
    /// The running Remove worker.
    pub worker: Option<Worker>,
    /// Cancels the running worker when set.
    pub cancellation: Option<Token>,
    /// Progress text of the running worker.
    pub processing_label: Option<String>,
    pub hovered_stroke: Option<usize>,
    pub selected_stroke: Option<usize>,
}

/// What becomes of a brushed stroke.
#[derive(Clone, Copy, Debug, PartialEq, Eq, Structural)]
pub enum RemoveStart {
    /// Another Remove is running, or the stroke is empty: nothing happens.
    Ignored,
    /// The verified model is present: start the worker.
    StartWorker,
    /// The model must be downloaded first: ask for consent.
    AskConsent,
}

/// The outcome a finished Remove worker reports.
pub enum RemoveOutcome<Stroke> {
    Applied(Stroke),
    Failed(String),
}

/// The progress text of a Remove that repairs `total` local crops.
pub open spec fn processing_label(completed: nat, total: nat) -> Seq<char> {
    if total <= 1 {
        "Applying Big-LaMa…"@
    } else {
        "Applying Big-LaMa… "@ + decimal(completed) + "/"@ + decimal(total) + " local crops"@
    }
}

/// The progress text of a Remove that repairs `total` local crops.
pub fn processing_label_text(completed: u64, total: u64) -> (label: String)
    ensures
        label@ == processing_label(completed as nat, total as nat),
{
    if total <= 1 {
        String::from_str("Applying Big-LaMa…")
    } else {
        let mut label = String::from_str("Applying Big-LaMa… ");
        label.append(decimal_text(completed).as_str());
        label.append("/");
        label.append(decimal_text(total).as_str());
        label.append(" local crops");
        label
    }
}

impl<Stroke, Brush, Point, Worker, Token> InpaintState<Stroke, Brush, Point, Worker, Token> {
    /// Whether nothing of the tool is in progress and nothing is selected.
    pub open spec fn is_idle(&self) -> bool {
        &&& self.active_points@.len() == 0
        &&& self.last_brush_uv is None
        &&& self.pending_brush is None
        &&& !self.model_consent_open
        &&& self.worker is None
        &&& self.cancellation is None
        &&& self.processing_label is None
    }

    /// A tool with no strokes and nothing in progress.
    pub fn new() -> (state: Self)
        ensures
            state.is_idle(),
            state.strokes@.len() == 0,
            state.hovered_stroke is None,
            state.selected_stroke is None,
    {
        InpaintState {
            strokes: Vec::new(),
            active_points: Vec::new(),
            last_brush_uv: None,
            pending_brush: None,
            model_consent_open: false,
            worker: None,
            cancellation: None,
            processing_label: None,
            hovered_stroke: None,
            selected_stroke: None,
        }
    }

    /// Whether a Remove is running or waits for model consent.
    pub fn processing(&self) -> (busy: bool)
        ensures
            busy == (self.worker is Some || self.model_consent_open),
    {
        self.worker.is_some() || self.model_consent_open
    }

    /// Stops whatever is in progress: returns the running worker's
    /// cancellation token, which the caller sets.
    pub fn cancel_processing(&mut self) -> (cancel: Option<Token>)
        ensures
            cancel == old(self).cancellation,
            final(self).is_idle(),
            final(self).strokes == old(self).strokes,
            final(self).hovered_stroke == old(self).hovered_stroke,
            final(self).selected_stroke == old(self).selected_stroke,
    {
        let cancel = self.cancellation.take();
        self.worker = None;
        self.pending_brush = None;
        self.model_consent_open = false;
        self.processing_label = None;
        self.active_points.clear();
        self.last_brush_uv = None;
        cancel
    }

    /// Starts the tool afresh for a newly opened document: no strokes,
    /// nothing in progress, nothing selected. Returns the running worker's
    /// cancellation token, which the caller sets.
    pub fn reset_for_document(&mut self) -> (cancel: Option<Token>)
        ensures
            cancel == old(self).cancellation,
            final(self).is_idle(),
            final(self).strokes@.len() == 0,
            final(self).hovered_stroke is None,
            final(self).selected_stroke is None,
    {
        let cancel = self.cancel_processing();
        self.strokes = Vec::new();
        self.hovered_stroke = None;
        self.selected_stroke = None;
        cancel
    }

    /// Replaces the strokes (an undo, a redo or a paste), stopping whatever
    /// is in progress. Returns the running worker's cancellation token.
    pub fn install_strokes(&mut self, strokes: Vec<Stroke>) -> (cancel: Option<Token>)
        ensures
            cancel == old(self).cancellation,
            final(self).is_idle(),
            final(self).strokes@ == strokes@,
            final(self).hovered_stroke is None,
            final(self).selected_stroke is None,
    {
        let cancel = self.cancel_processing();
        self.strokes = strokes;
        self.hovered_stroke = None;
        self.selected_stroke = None;
        cancel
    }

    /// Removes every stroke, stopping whatever is in progress. Returns the
    /// running worker's cancellation token and whether the strokes changed.
    pub fn clear_strokes(&mut self) -> (result: (Option<Token>, bool))
        ensures
            result.0 == old(self).cancellation,
            result.1 == (old(self).strokes@.len() > 0),
            final(self).is_idle(),
            final(self).strokes@.len() == 0,
            result.1 ==> final(self).hovered_stroke is None && final(self).selected_stroke is None,
            !result.1 ==> final(self).hovered_stroke == old(self).hovered_stroke
                && final(self).selected_stroke == old(self).selected_stroke,
    {
        let cancel = self.cancel_processing();
        if self.strokes.len() == 0 {
            return (cancel, false);
        }
        self.strokes.clear();
        self.hovered_stroke = None;
        self.selected_stroke = None;
        (cancel, true)
    }

    /// Deletes the stroke at `index`, stopping whatever is in progress.
    /// Returns the running worker's cancellation token and whether a stroke
    /// was deleted (the index named one).
    pub fn delete_stroke(&mut self, index: usize) -> (result: (Option<Token>, bool))
        ensures
            result.0 == old(self).cancellation,
            result.1 == (index < old(self).strokes@.len()),
            final(self).is_idle(),
            result.1 ==> final(self).strokes@ == old(self).strokes@.remove(index as int)
                && final(self).hovered_stroke is None && final(self).selected_stroke is None,
            !result.1 ==> final(self).strokes@ == old(self).strokes@ && final(self).hovered_stroke
                == old(self).hovered_stroke && final(self).selected_stroke == old(self).selected_stroke,
    {
        let cancel = self.cancel_processing();
        if index >= self.strokes.len() {
            return (cancel, false);
        }
        self.strokes.remove(index);
        self.hovered_stroke = None;
        self.selected_stroke = None;
        (cancel, true)
    }

    /// Decides what a brushed stroke starts: nothing while a Remove runs or
    /// waits for consent, or for an empty stroke; otherwise the worker when
    /// the verified model is present, or the consent dialog, which keeps the
    /// stroke.
    pub fn brush_finished(&mut self, brush: Brush, brush_is_empty: bool, model_verified: bool) -> (start: RemoveStart)
        ensures
            (old(self).worker is Some || old(self).model_consent_open || brush_is_empty) ==> start
                == RemoveStart::Ignored && *final(self) == *old(self),
            !(old(self).worker is Some || old(self).model_consent_open || brush_is_empty) && model_verified
                ==> start == RemoveStart::StartWorker && *final(self) == *old(self),
            !(old(self).worker is Some || old(self).model_consent_open || brush_is_empty)
                && !model_verified ==> {
                &&& start == RemoveStart::AskConsent
                &&& final(self).pending_brush == Some(brush)
                &&& final(self).model_consent_open
                &&& final(self).strokes == old(self).strokes
                &&& final(self).worker == old(self).worker
                &&& final(self).cancellation == old(self).cancellation
            },
    {
        if self.processing() || brush_is_empty {
            return RemoveStart::Ignored;
        }
        if model_verified {
            return RemoveStart::StartWorker;
        }
        self.pending_brush = Some(brush);
        self.model_consent_open = true;
        RemoveStart::AskConsent
    }

    /// Records a started Remove worker for `brush`.
    pub fn worker_started(&mut self, brush: Brush, worker: Worker, cancellation: Token)
        ensures
            final(self).pending_brush == Some(brush),
            final(self).worker == Some(worker),
            final(self).cancellation == Some(cancellation),
            final(self).processing_label matches Some(label) && label@ == "Preparing local context…"@,
            final(self).strokes == old(self).strokes,
            final(self).model_consent_open == old(self).model_consent_open,
    {
        self.pending_brush = Some(brush);
        self.processing_label = Some(String::from_str("Preparing local context…"));
        self.cancellation = Some(cancellation);
        self.worker = Some(worker);
    }

    /// The user consented to the model download: returns the waiting stroke
    /// to start the worker with.
    pub fn consent_given(&mut self) -> (brush: Option<Brush>)
        ensures
            brush == old(self).pending_brush,
            !final(self).model_consent_open,
            final(self).pending_brush is None,
            final(self).strokes == old(self).strokes,
            final(self).worker == old(self).worker,
    {
        self.model_consent_open = false;
        self.pending_brush.take()
    }

    /// The user declined the model download: the waiting stroke is dropped.
    pub fn consent_declined(&mut self)
        ensures
            !final(self).model_consent_open,
            final(self).pending_brush is None,
            final(self).last_brush_uv is None,
            final(self).strokes == old(self).strokes,
            final(self).worker == old(self).worker,
    {
        self.model_consent_open = false;
        self.pending_brush = None;
        self.last_brush_uv = None;
    }

    /// The worker reports progress over `total` local crops.
    pub fn worker_progress(&mut self, completed: u64, total: u64)
        ensures
            final(self).processing_label matches Some(label) && label@ == processing_label(
                completed as nat,
                total as nat,
            ),
            final(self).strokes == old(self).strokes,
            final(self).worker == old(self).worker,
            final(self).pending_brush == old(self).pending_brush,
    {
        self.processing_label = Some(processing_label_text(completed, total));
    }

    /// The worker finished. An applied stroke is added and the selection
    /// cleared. A failure that asks for the model to be consented to again
    /// brings back the stroke and the consent dialog; a cancellation is
    /// silent; any other failure is reported. Returns the notice for the
    /// user, if any, and whether the strokes changed.
    pub fn worker_finished(&mut self, outcome: RemoveOutcome<Stroke>) -> (result: (Option<String>, bool))
        ensures
            final(self).worker is None,
            final(self).cancellation is None,
            final(self).processing_label is None,
            match outcome {
                RemoveOutcome::Applied(stroke) => {
                    &&& final(self).strokes@ == old(self).strokes@.push(stroke)
                    &&& final(self).hovered_stroke is None
                    &&& final(self).selected_stroke is None
                    &&& final(self).pending_brush is None
                    &&& result.1
                    &&& result.0 matches Some(text) && text@ == "Remove applied."@
                },
                RemoveOutcome::Failed(error) => {
                    &&& final(self).strokes == old(self).strokes
                    &&& !result.1
                    &&& if occurs_in(error@, "consent to its download again"@) {
                        &&& final(self).pending_brush == old(self).pending_brush
                        &&& final(self).model_consent_open
                        &&& result.0 matches Some(text) && text@
                            == "Big-LaMa needs to be installed or re-verified before Remove can continue."@
                    } else {
                        &&& final(self).pending_brush is None
                        &&& final(self).model_consent_open == old(self).model_consent_open
                        &&& if occurs_in(error@, "cancelled"@) {
                            result.0 is None
                        } else {
                            result.0 matches Some(text) && text@ == "Remove failed: "@ + error@
                        }
                    }
                },
            },
    {
        self.worker = None;
        self.cancellation = None;
        let pending = self.pending_brush.take();
        self.processing_label = None;
        match outcome {
            RemoveOutcome::Applied(stroke) => {
                self.strokes.push(stroke);
                self.selected_stroke = None;
                self.hovered_stroke = None;
                (Some(String::from_str("Remove applied.")), true)
            },
            RemoveOutcome::Failed(error) => {
                if str_contains(error.as_str(), "consent to its download again") {
                    self.pending_brush = pending;
                    self.model_consent_open = true;
                    (
                        Some(
                            String::from_str(
                                "Big-LaMa needs to be installed or re-verified before Remove can continue.",
                            ),
                        ),
                        false,
                    )
                } else if !str_contains(error.as_str(), "cancelled") {
                    let mut text = String::from_str("Remove failed: ");
                    text.append(error.as_str());
                    (Some(text), false)
                } else {
                    (None, false)
                }
            },
        }
    }
}

/// A Remove job needs a loaded RAW and the GPU; the refusal's text is the
/// notice.
pub fn check_remove_request(raw_loaded: bool, gpu_available: bool) -> (checked: Result<(), String>)
    ensures
        checked is Ok <==> (raw_loaded && gpu_available),
        checked matches Err(message) ==> message@ == (if !raw_loaded {
            "Open a RAW image before using Remove."@
        } else {
            "GPU rendering is unavailable for Remove."@
        }),
{
    if !raw_loaded {
        return Err(String::from_str("Open a RAW image before using Remove."));
    }
    if !gpu_available {
        return Err(String::from_str("GPU rendering is unavailable for Remove."));
    }
    Ok(())
}

} // verus!
