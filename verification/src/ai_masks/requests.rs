//! How a request for an AI mask is admitted and scheduled: what a request
//! for an object or landscape mask leads to, whether a running object job
//! makes a new one wait, and how a model job becomes a background task.
use vstd::prelude::*;
use vstd::string::*;
use crate::ai_masks::resolve::{capture_ai_mask_target, AiMaskTarget};
use crate::ai_masks::targets::{GeometrySummary, MaskKind};

verus! {

/// What a request for an object mask leads to.
pub enum ObjectRequest {
    /// Nothing: the component is gone or not an object, or the model runtime
    /// is not ready (its check reports that itself).
    Ignored,
    /// The user is told why nothing happens.
    Notice(String),
    /// The error dialog explains the failure.
    Error(String),
    /// Start the object worker.
    Start,
    /// The models must be downloaded first: ask for consent.
    AskConsent,
}

/// Admits a request for the object mask of a component (`component` is its
/// geometry, when the component exists). `runtime_ready`: the model
/// runtime passed its check; `source_ready`: the canonical source image is
/// captured; `models_present`: the object models are on disk.
pub fn object_mask_request(
    runtime_ready: bool,
    component: Option<GeometrySummary>,
    source_ready: bool,
    models_present: bool,
) -> (request: ObjectRequest)
    ensures
        !runtime_ready ==> request is Ignored,
        runtime_ready && !(component matches Some(GeometrySummary::Object { .. })) ==> request is Ignored,
        runtime_ready && component == Some(GeometrySummary::Object { has_positive_stroke: false })
            ==> (request matches ObjectRequest::Notice(text) && text@
            == "Paint inside an object before generating its mask."@),
        runtime_ready && component == Some(GeometrySummary::Object { has_positive_stroke: true })
            ==> {
            &&& !source_ready ==> (request matches ObjectRequest::Error(text) && text@
                == "The original image source is not ready for object selection. Re-open the Object mask or create it again."@)
            &&& source_ready && models_present ==> request is Start
            &&& source_ready && !models_present ==> request is AskConsent
        },
{
    if !runtime_ready {
        return ObjectRequest::Ignored;
    }
    match component {
        Some(GeometrySummary::Object { has_positive_stroke }) => {
            if !has_positive_stroke {
                return ObjectRequest::Notice(
                    String::from_str("Paint inside an object before generating its mask."),
                );
            }
            if !source_ready {
                return ObjectRequest::Error(
                    String::from_str(
                        "The original image source is not ready for object selection. Re-open the Object mask or create it again.",
                    ),
                );
            }
            if models_present {
                ObjectRequest::Start
            } else {
                ObjectRequest::AskConsent
            }
        },
        _ => ObjectRequest::Ignored,
    }
}

/// What starting the object worker leads to, once no running job makes the
/// request wait (see `object_worker_slot`).
pub enum ObjectWorkerStart {
    /// The canonical source image is gone: the user is told why.
    SourceUnavailable(String),
    /// The component is gone or no longer an object mask: nothing happens.
    Ignored,
    /// A generation was taken for the job (the returned one) and the waiting
    /// target dropped, but the component could not be captured as the job's
    /// target: the user is told.
    TargetLost(String),
    /// Start the job with the returned generation for this target; the
    /// waiting target is dropped.
    Start(AiMaskTarget),
}

/// The generation after `generation`, wrapping around.
pub open spec fn next_generation(generation: u64) -> u64 {
    if generation == u64::MAX {
        0
    } else {
        (generation + 1) as u64
    }
}

/// Starts the object worker for component `component_index` of mask
/// `mask_index` (`component` is its geometry, when it exists; `kinds` are
/// the kinds of the stack's components), with `generation` the last one
/// taken. Returns what happens and the last generation taken afterwards.
pub fn object_worker_start(
    source_ready: bool,
    component: Option<GeometrySummary>,
    kinds: &Vec<Vec<MaskKind>>,
    mask_index: usize,
    component_index: usize,
    generation: u64,
) -> (started: (ObjectWorkerStart, u64))
    ensures
        !source_ready ==> (started.0 matches ObjectWorkerStart::SourceUnavailable(text) && text@
            == "The original image source is unavailable for object selection."@) && started.1
            == generation,
        source_ready && !(component matches Some(GeometrySummary::Object { .. })) ==> started.0 is Ignored
            && started.1 == generation,
        (source_ready && (component matches Some(GeometrySummary::Object { .. }))) ==> {
            &&& started.1 == next_generation(generation)
            &&& (mask_index < kinds@.len() && component_index < kinds@[mask_index as int]@.len())
                ==> started.0 == ObjectWorkerStart::Start(
                AiMaskTarget {
                    mask_index,
                    component_index,
                    kind: kinds@[mask_index as int]@[component_index as int],
                },
            )
            &&& !(mask_index < kinds@.len() && component_index < kinds@[mask_index as int]@.len())
                ==> (started.0 matches ObjectWorkerStart::TargetLost(text) && text@
                == "The selected object mask is no longer available."@)
        },
{
    if !source_ready {
        return (
            ObjectWorkerStart::SourceUnavailable(
                String::from_str("The original image source is unavailable for object selection."),
            ),
            generation,
        );
    }
    match component {
        Some(GeometrySummary::Object { .. }) => {},
        _ => return (ObjectWorkerStart::Ignored, generation),
    }
    let next = if generation == u64::MAX {
        0
    } else {
        generation + 1
    };
    match capture_ai_mask_target(kinds, mask_index, component_index) {
        Some(target) => (ObjectWorkerStart::Start(target), next),
        None => (
            ObjectWorkerStart::TargetLost(
                String::from_str("The selected object mask is no longer available."),
            ),
            next,
        ),
    }
}

/// How a new object job relates to the running one.
#[derive(Clone, Copy, Debug, PartialEq, Eq, Structural)]
pub struct ObjectWorkerSlot {
    /// Cancel the running job's background task.
    pub cancel_existing: bool,
    /// Native inference cannot be interrupted: remember the target, make
    /// the running job's result stale, and start it once the worker ends.
    pub wait: bool,
}

/// Decides whether a new object job starts now. A job of the library batch
/// (`library_task`) waits for a running worker; any other job cancels the
/// job it replaces (`existing_task`) and waits only while that job's
/// worker still runs.
pub fn object_worker_slot(library_task: bool, existing_task: bool, receiver_running: bool) -> (slot: ObjectWorkerSlot)
    ensures
        slot.cancel_existing == (!library_task && existing_task),
        slot.wait == (receiver_running && (library_task || existing_task)),
{
    if !library_task {
        ObjectWorkerSlot { cancel_existing: existing_task, wait: existing_task && receiver_running }
    } else {
        ObjectWorkerSlot { cancel_existing: false, wait: receiver_running }
    }
}

/// The models whose jobs run as background tasks.
#[derive(Clone, Copy, Debug, PartialEq, Eq, Structural)]
pub enum ModelJob {
    Subject,
    Object,
}

/// How a model job runs.
pub enum TaskSchedule {
    /// Inside the library batch's own task.
    LibraryTask,
    /// Queued behind earlier background work, since the model must be
    /// downloaded first; with the task's title and progress text.
    Enqueue { title: String, progress: String },
    /// Started at once; with the task's title and progress text.
    StartNow { title: String, progress: String },
}

pub open spec fn download_title(job: ModelJob) -> Seq<char> {
    match job {
        ModelJob::Subject => "Downloading subject-mask model"@,
        ModelJob::Object => "Downloading object-mask model"@,
    }
}

pub open spec fn run_title(job: ModelJob) -> Seq<char> {
    match job {
        ModelJob::Subject => "Generating subject mask"@,
        ModelJob::Object => "Generating object mask"@,
    }
}

pub open spec fn run_progress(job: ModelJob) -> Seq<char> {
    match job {
        ModelJob::Subject => "Running local subject-mask inference…"@,
        ModelJob::Object => "Encoding the image and generating the object mask…"@,
    }
}

/// Schedules a model job: inside the library batch's task when the batch
/// owns it, queued when the model must be downloaded, else started at once.
pub fn mask_task_schedule(job: ModelJob, library_task: bool, needs_download: bool) -> (schedule: TaskSchedule)
    ensures
        library_task ==> schedule is LibraryTask,
        !library_task && needs_download ==> (schedule matches TaskSchedule::Enqueue { title, progress }
            && title@ == download_title(job) && progress@ == "Waiting for earlier background work…"@),
        !library_task && !needs_download ==> (schedule matches TaskSchedule::StartNow { title, progress }
            && title@ == run_title(job) && progress@ == run_progress(job)),
{
    if library_task {
        return TaskSchedule::LibraryTask;
    }
    if needs_download {
        let title = match job {
            ModelJob::Subject => String::from_str("Downloading subject-mask model"),
            ModelJob::Object => String::from_str("Downloading object-mask model"),
        };
        return TaskSchedule::Enqueue {
            title,
            progress: String::from_str("Waiting for earlier background work…"),
        };
    }
    match job {
        ModelJob::Subject => TaskSchedule::StartNow {
            title: String::from_str("Generating subject mask"),
            progress: String::from_str("Running local subject-mask inference…"),
        },
        ModelJob::Object => TaskSchedule::StartNow {
            title: String::from_str("Generating object mask"),
            progress: String::from_str("Encoding the image and generating the object mask…"),
        },
    }
}

/// What a request for a landscape mask leads to before the source image
/// is captured.
pub enum LandscapePrecheck {
    /// Capture the source and go on.
    Proceed,
    /// The user is told why nothing happens.
    Notice(String),
    /// The model runtime is not ready (its check reports that itself).
    Stop,
}

/// Admits a request for a landscape mask: not during another foreground
/// operation, only for a component that still is a landscape mask, and
/// only with a ready model runtime.
pub fn landscape_request_precheck(
    foreground_active: bool,
    component: Option<(MaskKind, GeometrySummary)>,
    runtime_ready: bool,
) -> (check: LandscapePrecheck)
    ensures
        foreground_active ==> (check matches LandscapePrecheck::Notice(text) && text@
            == "Finish or cancel the current editing operation first."@),
        !foreground_active && component != Some((MaskKind::Landscape, GeometrySummary::Landscape))
            ==> (check matches LandscapePrecheck::Notice(text) && text@
            == "The selected landscape mask is no longer available."@),
        !foreground_active && component == Some((MaskKind::Landscape, GeometrySummary::Landscape))
            ==> (if runtime_ready {
            check is Proceed
        } else {
            check is Stop
        }),
{
    if foreground_active {
        return LandscapePrecheck::Notice(
            String::from_str("Finish or cancel the current editing operation first."),
        );
    }
    let valid = match component {
        Some((MaskKind::Landscape, GeometrySummary::Landscape)) => true,
        _ => false,
    };
    if !valid {
        return LandscapePrecheck::Notice(
            String::from_str("The selected landscape mask is no longer available."),
        );
    }
    if runtime_ready {
        LandscapePrecheck::Proceed
    } else {
        LandscapePrecheck::Stop
    }
}

/// The bookkeeping of object jobs that a refined stroke resets: the
/// generation that results must match, the component waiting for the
/// worker, and the component whose image encoding is cached.
#[derive(Clone, Copy, Debug, PartialEq, Eq)]
pub struct ObjectJobs {
    pub generation: u64,
    pub pending_target: Option<(usize, usize)>,
    pub cache_target: Option<(usize, usize)>,
}

impl ObjectJobs {
    /// A refining stroke on the object component at `target` began.
    /// `cleared` says whether the component held a generated mask (which
    /// the caller then dropped with its strokes). Only then is anything in
    /// flight for it made stale: the generation advances, and a pending
    /// request or cached encoding for that component is forgotten. Returns
    /// `cleared`.
    pub fn restart_refined(&mut self, target: (usize, usize), cleared: bool) -> (restarted: bool)
        ensures
            restarted == cleared,
            !cleared ==> *final(self) == *old(self),
            cleared ==> {
                &&& final(self).generation == (if old(self).generation == u64::MAX {
                    0
                } else {
                    old(self).generation + 1
                })
                &&& final(self).pending_target == (if old(self).pending_target == Some(target) {
                    None
                } else {
                    old(self).pending_target
                })
                &&& final(self).cache_target == (if old(self).cache_target == Some(target) {
                    None
                } else {
                    old(self).cache_target
                })
            },
    {
        if !cleared {
            return false;
        }
        self.generation = self.generation.wrapping_add(1);
        let pending_same = match self.pending_target {
            Some(pending) => pending.0 == target.0 && pending.1 == target.1,
            None => false,
        };
        if pending_same {
            self.pending_target = None;
        }
        let cache_same = match self.cache_target {
            Some(cached) => cached.0 == target.0 && cached.1 == target.1,
            None => false,
        };
        if cache_same {
            self.cache_target = None;
        }
        true
    }
}


/// How starting the landscape worker proceeds.
#[derive(Debug, PartialEq, Eq)]
pub enum LandscapeStart {
    /// Another foreground operation runs: nothing happens.
    Ignored,
    /// The user is told why nothing happens.
    Notice(String),
    /// The models must be downloaded first: remember the target and ask.
    AskConsent,
    /// Start the worker, showing this progress text.
    Start { progress: String },
}

/// Decides how the landscape worker starts: not during another foreground
/// operation; only with the canonical source captured; after consent when
/// a model must be downloaded and the download is not yet allowed; and only
/// while the component still is a landscape mask.
pub fn landscape_worker_start(
    foreground_active: bool,
    source_ready: bool,
    needs_download: bool,
    download_allowed: bool,
    component_is_landscape: bool,
) -> (start: LandscapeStart)
    ensures
        foreground_active ==> start == LandscapeStart::Ignored,
        !foreground_active && !source_ready ==> (start matches LandscapeStart::Notice(text)
            && text@ == "The preview could not be prepared for landscape selection."@),
        !foreground_active && source_ready && needs_download && !download_allowed ==> start
            == LandscapeStart::AskConsent,
        !foreground_active && source_ready && !(needs_download && !download_allowed)
            && !component_is_landscape ==> (start matches LandscapeStart::Notice(text) && text@
            == "The selected landscape mask is no longer available."@),
        !foreground_active && source_ready && !(needs_download && !download_allowed)
            && component_is_landscape ==> (start matches LandscapeStart::Start { progress }
            && progress@ == (if needs_download {
            "Preparing landscape-mask models…"@
        } else {
            "Running local landscape-mask inference…"@
        })),
{
    if foreground_active {
        return LandscapeStart::Ignored;
    }
    if !source_ready {
        return LandscapeStart::Notice(
            String::from_str("The preview could not be prepared for landscape selection."),
        );
    }
    if needs_download && !download_allowed {
        return LandscapeStart::AskConsent;
    }
    if !component_is_landscape {
        return LandscapeStart::Notice(
            String::from_str("The selected landscape mask is no longer available."),
        );
    }
    let progress = if needs_download {
        String::from_str("Preparing landscape-mask models…")
    } else {
        String::from_str("Running local landscape-mask inference…")
    };
    LandscapeStart::Start { progress }
}

/// The notice when the canonical source was not captured before a subject
/// job could start.
pub fn subject_source_missing_notice() -> (notice: String)
    ensures
        notice@ == "The preview could not be prepared for subject selection."@,
{
    String::from_str("The preview could not be prepared for subject selection.")
}

/// What the background-task list says of a job's task.
#[derive(Clone, Copy, Debug, PartialEq, Eq, Structural)]
pub enum TaskSnapshot {
    /// The task is no longer listed.
    Missing,
    /// The task ended in failure.
    Failed,
    /// The task is queued, running or finished otherwise.
    Other,
}

/// Whether a mask job's owner is left over from a task that ended: the job
/// holds a task (`task` is its snapshot) but no worker channel, and that
/// task is gone or failed. Such an owner is cleared so a new job can start.
pub fn task_owner_is_stale(receiver_present: bool, task: Option<TaskSnapshot>) -> (stale: bool)
    ensures
        stale == (!receiver_present && (task == Some(TaskSnapshot::Missing) || task == Some(
            TaskSnapshot::Failed,
        ))),
{
    if receiver_present {
        return false;
    }
    match task {
        Some(TaskSnapshot::Missing) | Some(TaskSnapshot::Failed) => true,
        _ => false,
    }
}

/// What is outstanding for one kind of mask job.
#[derive(Clone, Copy, Debug, PartialEq, Eq, Structural)]
pub struct JobActivity {
    /// The job holds a background task.
    pub task: bool,
    /// A worker channel is open.
    pub receiver: bool,
    /// Its consent dialog is shown.
    pub consent_open: bool,
}

/// Whether AI-mask tools are busy: an "update all" batch runs, or any
/// subject, object or landscape job holds a task, a worker or a dialog.
pub fn ai_masks_busy(
    update_active: bool,
    subject: JobActivity,
    object: JobActivity,
    landscape: JobActivity,
) -> (busy: bool)
    ensures
        busy == (update_active || subject.task || object.task || landscape.task
            || subject.receiver || object.receiver || landscape.receiver || subject.consent_open
            || object.consent_open || landscape.consent_open),
{
    update_active || subject.task || object.task || landscape.task || subject.receiver
        || object.receiver || landscape.receiver || subject.consent_open || object.consent_open
        || landscape.consent_open
}

} // verus!
