//! The library's batch refresh of AI masks: one image after another is
//! opened, its AI masks regenerated and its edits saved. The application
//! performs each step; this state machine decides the next one and keeps the
//! batch's counts and failures.
use vstd::prelude::*;
use vstd::string::*;
use std::collections::VecDeque;
use crate::text::{decimal, decimal_text, join};
use crate::platform::Platform;

verus! {

/// An image waiting in the batch.
pub struct RefreshImage {
    /// The image as failures name it (its path, or its document name).
    pub source: String,
    /// The image as the progress line names it (its file name).
    pub display_name: String,
}

/// The image of the batch in progress.
pub struct RefreshJob {
    /// The image as failures name it (its path, or its document name).
    pub source: String,
    /// The image as the progress line names it (its file name).
    pub display_name: String,
    /// The AI-mask targets found once the image was loaded.
    pub mask_targets: usize,
}

/// What the batch waits for on its current image.
#[derive(Clone, Copy, Debug, PartialEq, Eq, Structural)]
pub enum RefreshPhase {
    Loading,
    Updating,
    Saving,
}

/// The next step of the batch.
pub enum NextRefresh {
    /// An image is still in progress.
    Busy,
    /// Open this image; it is now the current one.
    Open { source: String, display_name: String },
    /// Nothing is left to do: finish the batch.
    Finished,
}

/// What the application does after a load event of the batch.
#[derive(Clone, Copy, Debug, PartialEq, Eq, Structural)]
pub enum LoadFinishedAction {
    /// The event does not concern the batch.
    Ignore,
    /// Move on to the next image.
    StartNext,
    /// Regenerate the AI masks of the loaded image.
    UpdateAiMasks,
}

/// What the application does on a poll of the batch.
#[derive(Clone, Copy, Debug, PartialEq, Eq, Structural)]
pub enum RefreshPollAction {
    /// Wait for the current step.
    Wait,
    /// Finish the batch now.
    Finish,
    /// Move on to the next image.
    StartNext,
    /// Commit and save the regenerated masks.
    SaveEdits,
}

pub struct LibraryAiMaskRefreshState {
    pub pending: VecDeque<RefreshImage>,
    pub current: Option<RefreshJob>,
    pub phase: RefreshPhase,
    pub total: usize,
    pub completed: usize,
    pub mask_total: usize,
    pub mask_completed: usize,
    pub failures: Vec<String>,
    pub cancel_requested: bool,
}

/// `image` or `images`, as a count calls for.
pub open spec fn image_noun(count: nat) -> Seq<char> {
    if count == 1 {
        "image"@
    } else {
        "images"@
    }
}

/// The line that records a failed image.
pub open spec fn failure_text(source: Seq<char>, reason: Seq<char>) -> Seq<char> {
    source + ": "@ + reason
}

/// The title of the background task that runs a batch of `total` images.
pub open spec fn refresh_task_title(total: nat) -> Seq<char> {
    "Refreshing AI masks for "@ + decimal(total) + " "@ + image_noun(total)
}

/// The summary shown when the batch ends.
pub open spec fn refresh_summary(
    cancelled: bool,
    completed: nat,
    total: nat,
    failures: Seq<Seq<char>>,
) -> Seq<char> {
    let succeeded: nat = if completed >= failures.len() { (completed - failures.len()) as nat } else { 0 };
    if cancelled {
        "AI-mask refresh cancelled after "@ + decimal(completed) + "/"@ + decimal(total) + " images."@
    } else if failures.len() == 0 {
        "Regenerated AI masks for "@ + decimal(succeeded) + " "@ + image_noun(succeeded) + "."@
    } else {
        "Regenerated AI masks for "@ + decimal(succeeded) + " of "@ + decimal(total) + " images. "@
            + join(failures, " · "@)
    }
}

/// The reason the batch's background task failed, when it did: some image
/// failed and the batch was not cancelled.
pub open spec fn refresh_task_failure(cancelled: bool, failures: Seq<Seq<char>>) -> Option<
    Seq<char>,
> {
    if cancelled || failures.len() == 0 {
        None
    } else {
        Some(
            decimal(failures.len()) + " AI-mask refresh item(s) failed: "@ + join(failures, " · "@),
        )
    }
}

pub open spec fn texts(items: Seq<String>) -> Seq<Seq<char>> {
    items.map_values(|s: String| s@)
}

fn image_noun_text(count: usize) -> (noun: &'static str)
    ensures
        noun@ == image_noun(count as nat),
{
    if count == 1 {
        proof {
            reveal_strlit("image");
        }
        "image"
    } else {
        proof {
            reveal_strlit("images");
        }
        "images"
    }
}

fn join_texts(parts: &Vec<String>, separator: &str) -> (joined: String)
    ensures
        joined@ == join(texts(parts@), separator@),
{
    let ghost views = texts(parts@);
    let mut joined = String::new();
    let mut i: usize = 0;
    while i < parts.len()
        invariant
            views == texts(parts@),
            i <= parts.len(),
            joined@ == join(views.subrange(0, i as int), separator@),
        decreases parts.len() - i,
    {
        if i > 0 {
            joined.append(separator);
        }
        joined.append(parts[i].as_str());
        proof {
            assert(views.subrange(0, i + 1).drop_last() =~= views.subrange(0, i as int));
            if i == 0 {
                assert(views.subrange(0, 0) =~= Seq::<Seq<char>>::empty());
            }
        }
        i += 1;
    }
    assert(views.subrange(0, parts.len() as int) =~= views);
    joined
}

/// The title of the background task that runs a batch of `total` images.
pub fn refresh_task_title_text(total: usize) -> (title: String)
    ensures
        title@ == refresh_task_title(total as nat),
{
    let mut title = String::from_str("Refreshing AI masks for ");
    title.append(decimal_text(total as u64).as_str());
    title.append(" ");
    title.append(image_noun_text(total));
    proof {
        reveal_strlit("Refreshing AI masks for ");
        reveal_strlit(" ");
    }
    title
}

impl LibraryAiMaskRefreshState {
    /// Targets counted for the current image.
    pub open spec fn current_targets(&self) -> nat {
        match self.current {
            Some(job) => job.mask_targets as nat,
            None => 0,
        }
    }

    /// Whether the batch's counts are consistent: images finished, waiting
    /// and in progress never exceed the batch, and masks regenerated plus
    /// those of the current image never exceed the masks counted.
    pub open spec fn wf(&self) -> bool {
        &&& self.completed + self.pending@.len() + (if self.current is Some { 1int } else { 0int })
            <= self.total
        &&& self.mask_completed + self.current_targets() <= self.mask_total
    }

    /// A batch over `jobs`, none of them started.
    pub fn new(jobs: VecDeque<RefreshImage>) -> (state: Self)
        ensures
            state.wf(),
            state.pending@ == jobs@,
            state.current is None,
            state.phase == RefreshPhase::Loading,
            state.total == jobs@.len(),
            state.completed == 0,
            state.mask_total == 0,
            state.mask_completed == 0,
            state.failures@.len() == 0,
            !state.cancel_requested,
    {
        let total = jobs.len();
        LibraryAiMaskRefreshState {
            pending: jobs,
            current: None,
            phase: RefreshPhase::Loading,
            total,
            completed: 0,
            mask_total: 0,
            mask_completed: 0,
            failures: Vec::new(),
            cancel_requested: false,
        }
    }

    /// Asks the batch to stop after the step in progress.
    pub fn request_cancel(&mut self)
        requires
            old(self).wf(),
        ensures
            final(self).wf(),
            final(self).cancel_requested,
            final(self).pending@ == old(self).pending@,
            final(self).current == old(self).current,
            final(self).phase == old(self).phase,
            final(self).total == old(self).total,
            final(self).completed == old(self).completed,
            final(self).mask_total == old(self).mask_total,
            final(self).mask_completed == old(self).mask_completed,
            final(self).failures@ == old(self).failures@,
    {
        self.cancel_requested = true;
    }

    /// Counts the current image as done, with all its mask targets.
    fn complete_current(&mut self)
        requires
            old(self).wf(),
        ensures
            final(self).wf(),
            final(self).current is None,
            final(self).completed == old(self).completed + (if old(self).current is Some { 1int } else { 0int }),
            final(self).mask_completed == old(self).mask_completed + old(self).current_targets(),
            final(self).pending@ == old(self).pending@,
            final(self).phase == old(self).phase,
            final(self).total == old(self).total,
            final(self).mask_total == old(self).mask_total,
            final(self).failures@ == old(self).failures@,
            final(self).cancel_requested == old(self).cancel_requested,
    {
        if let Some(job) = self.current.take() {
            self.completed = self.completed + 1;
            self.mask_completed = self.mask_completed + job.mask_targets;
        }
    }

    /// Records a failure of the current image and counts it as done.
    fn fail_current(&mut self, reason: &str)
        requires
            old(self).wf(),
            old(self).current is Some,
        ensures
            final(self).wf(),
            final(self).current is None,
            final(self).failures@.len() == old(self).failures@.len() + 1,
            texts(final(self).failures@) == texts(old(self).failures@).push(
                failure_text(old(self).current->Some_0.source@, reason@),
            ),
            final(self).completed == old(self).completed + 1,
            final(self).mask_completed == old(self).mask_completed + old(self).current_targets(),
            final(self).pending@ == old(self).pending@,
            final(self).phase == old(self).phase,
            final(self).total == old(self).total,
            final(self).mask_total == old(self).mask_total,
            final(self).cancel_requested == old(self).cancel_requested,
    {
        let mut line = String::new();
        match &self.current {
            Some(job) => {
                line.append(job.source.as_str());
            },
            None => {},
        }
        line.append(": ");
        line.append(reason);
        let ghost before = self.failures@;
        self.failures.push(line);
        proof {
            assert(texts(self.failures@) =~= texts(before).push(line@));
        }
        self.complete_current();
    }

    /// The next step: wait while an image is in progress; otherwise take the
    /// next waiting image, unless the batch was cancelled (which drops the
    /// waiting images) or none is left, and then finish.
    pub fn start_next(&mut self) -> (next: NextRefresh)
        requires
            old(self).wf(),
        ensures
            final(self).wf(),
            old(self).current is Some ==> next is Busy && *final(self) == *old(self),
            old(self).current is None && old(self).cancel_requested ==> next is Finished
                && final(self).pending@.len() == 0,
            old(self).current is None && !old(self).cancel_requested && old(self).pending@.len()
                == 0 ==> next is Finished && final(self).pending@.len() == 0,
            old(self).current is None && !old(self).cancel_requested && old(self).pending@.len()
                > 0 ==> {
                &&& next matches NextRefresh::Open { source, display_name }
                &&& source@ == old(self).pending@[0].source@
                &&& display_name@ == old(self).pending@[0].display_name@
                &&& final(self).current matches Some(job)
                &&& job.source == old(self).pending@[0].source
                &&& job.display_name == old(self).pending@[0].display_name
                &&& job.mask_targets == 0
                &&& final(self).pending@ == old(self).pending@.drop_first()
                &&& final(self).phase == RefreshPhase::Loading
            },
            old(self).current is None ==> {
                &&& final(self).total == old(self).total
                &&& final(self).completed == old(self).completed
                &&& final(self).mask_total == old(self).mask_total
                &&& final(self).mask_completed == old(self).mask_completed
                &&& final(self).failures@ == old(self).failures@
                &&& final(self).cancel_requested == old(self).cancel_requested
            },
    {
        if self.current.is_some() {
            return NextRefresh::Busy;
        }
        if self.cancel_requested {
            self.pending.clear();
            return NextRefresh::Finished;
        }
        match self.pending.pop_front() {
            Some(image) => {
                let source = image.source.clone();
                let display_name = image.display_name.clone();
                self.current = Some(
                    RefreshJob {
                        source: image.source,
                        display_name: image.display_name,
                        mask_targets: 0,
                    },
                );
                self.phase = RefreshPhase::Loading;
                NextRefresh::Open { source, display_name }
            },
            None => NextRefresh::Finished,
        }
    }

    /// The image that was to be opened could not start loading.
    pub fn open_failed_to_start(&mut self)
        requires
            old(self).wf(),
            old(self).current is Some,
        ensures
            final(self).wf(),
            final(self).current is None,
            texts(final(self).failures@) == texts(old(self).failures@).push(
                failure_text(old(self).current->Some_0.source@, "could not start RAW load"@),
            ),
            final(self).completed == old(self).completed + 1,
            final(self).pending@ == old(self).pending@,
    {
        proof {
            reveal_strlit("could not start RAW load");
        }
        self.fail_current("could not start RAW load");
    }

    /// The document opener reported `error` for the current image. A
    /// cancelled batch drops the image without recording a failure.
    pub fn open_failed(&mut self, error: &str)
        requires
            old(self).wf(),
        ensures
            final(self).wf(),
            final(self).current is None || old(self).current is None,
            old(self).current is Some && !old(self).cancel_requested ==> texts(final(self).failures@)
                == texts(old(self).failures@).push(
                failure_text(old(self).current->Some_0.source@, error@),
            ) && final(self).completed == old(self).completed + 1,
            (old(self).current is None || old(self).cancel_requested) ==> final(self).failures@
                == old(self).failures@ && final(self).completed == old(self).completed,
            final(self).pending@ == old(self).pending@,
            final(self).cancel_requested == old(self).cancel_requested,
    {
        if self.current.is_none() {
            return;
        }
        if self.cancel_requested {
            self.current = None;
        } else {
            self.fail_current(error);
        }
    }

    /// A load event of the batch's current image: `mask_targets` is the
    /// count of AI-mask targets in the loaded edits.
    pub fn load_finished(&mut self, success: bool, mask_targets: usize) -> (action: LoadFinishedAction)
        requires
            old(self).wf(),
            old(self).mask_total - old(self).current_targets() + mask_targets <= usize::MAX,
        ensures
            final(self).wf(),
            old(self).current is None ==> action == LoadFinishedAction::Ignore && *final(self) == *old(self),
            old(self).current is Some && old(self).cancel_requested ==> action
                == LoadFinishedAction::StartNext && final(self).current is None
                && final(self).failures@ == old(self).failures@ && final(self).completed == old(self).completed,
            old(self).current is Some && !old(self).cancel_requested && !success ==> action
                == LoadFinishedAction::StartNext && final(self).current is None
                && texts(final(self).failures@) == texts(old(self).failures@).push(
                failure_text(old(self).current->Some_0.source@, "RAW load failed"@),
            ) && final(self).completed == old(self).completed + 1,
            old(self).current is Some && !old(self).cancel_requested && success ==> {
                &&& action == LoadFinishedAction::UpdateAiMasks
                &&& final(self).current matches Some(job)
                &&& job.source == old(self).current->Some_0.source
                &&& job.mask_targets == mask_targets
                &&& final(self).mask_total == old(self).mask_total - old(self).current_targets() + mask_targets
                &&& final(self).phase == RefreshPhase::Updating
                &&& final(self).failures@ == old(self).failures@
                &&& final(self).completed == old(self).completed
            },
            final(self).pending@ == old(self).pending@,
            final(self).cancel_requested == old(self).cancel_requested,
    {
        if self.current.is_none() {
            return LoadFinishedAction::Ignore;
        }
        if self.cancel_requested {
            self.current = None;
            return LoadFinishedAction::StartNext;
        }
        if !success {
            proof {
                reveal_strlit("RAW load failed");
            }
            self.fail_current("RAW load failed");
            return LoadFinishedAction::StartNext;
        }
        let previous = match &self.current {
            Some(job) => job.mask_targets,
            None => 0,
        };
        self.mask_total = self.mask_total.saturating_sub(previous).saturating_add(mask_targets);
        match &mut self.current {
            Some(job) => {
                job.mask_targets = mask_targets;
            },
            None => {},
        }
        self.phase = RefreshPhase::Updating;
        LoadFinishedAction::UpdateAiMasks
    }

    /// One poll of the batch. `update_busy`: the AI-mask update still runs;
    /// `masks_need_update`: AI masks remain stale; `notice`: the current user
    /// notice; `save_in_progress`: the edits are still being written;
    /// `save_failed`: the last save of the current edits failed.
    pub fn poll(
        &mut self,
        update_busy: bool,
        masks_need_update: bool,
        notice: Option<&str>,
        save_in_progress: bool,
        save_failed: bool,
    ) -> (action: RefreshPollAction)
        requires
            old(self).wf(),
        ensures
            final(self).wf(),
            final(self).pending@ == old(self).pending@,
            final(self).cancel_requested == old(self).cancel_requested,
            final(self).total == old(self).total,
            old(self).cancel_requested && old(self).current is None ==> action
                == RefreshPollAction::Finish && *final(self) == *old(self),
            !old(self).cancel_requested && old(self).current is None ==> action
                == RefreshPollAction::Wait && *final(self) == *old(self),
            old(self).current is Some && old(self).cancel_requested && old(self).phase
                == RefreshPhase::Updating && !update_busy ==> action == RefreshPollAction::StartNext
                && final(self).current is None && final(self).failures@ == old(self).failures@
                && final(self).completed == old(self).completed,
            old(self).current is Some && old(self).phase == RefreshPhase::Loading ==> action
                == RefreshPollAction::Wait && *final(self) == *old(self),
            old(self).current is Some && old(self).phase == RefreshPhase::Updating && update_busy
                ==> action == RefreshPollAction::Wait && *final(self) == *old(self),
            old(self).current is Some && !old(self).cancel_requested && old(self).phase
                == RefreshPhase::Updating && !update_busy && masks_need_update ==> {
                &&& action == RefreshPollAction::StartNext
                &&& final(self).current is None
                &&& texts(final(self).failures@) == texts(old(self).failures@).push(
                    failure_text(
                        old(self).current->Some_0.source@,
                        match notice {
                            Some(text) => text@,
                            None => "AI masks still need an update"@,
                        },
                    ),
                )
                &&& final(self).completed == old(self).completed + 1
            },
            old(self).current is Some && !old(self).cancel_requested && old(self).phase
                == RefreshPhase::Updating && !update_busy && !masks_need_update ==> {
                &&& action == RefreshPollAction::SaveEdits
                &&& final(self).phase == RefreshPhase::Saving
                &&& final(self).current == old(self).current
                &&& final(self).failures@ == old(self).failures@
                &&& final(self).completed == old(self).completed
            },
            old(self).current is Some && old(self).phase == RefreshPhase::Saving && save_in_progress
                ==> action == RefreshPollAction::Wait && *final(self) == *old(self),
            old(self).current is Some && old(self).phase == RefreshPhase::Saving && !save_in_progress
                ==> {
                &&& action == RefreshPollAction::StartNext
                &&& final(self).current is None
                &&& final(self).completed == old(self).completed + 1
                &&& final(self).mask_completed == old(self).mask_completed + old(self).current_targets()
                &&& texts(final(self).failures@) == if save_failed {
                    texts(old(self).failures@).push(
                        failure_text(
                            old(self).current->Some_0.source@,
                            match notice {
                                Some(text) => text@,
                                None => "could not save regenerated AI masks"@,
                            },
                        ),
                    )
                } else {
                    texts(old(self).failures@)
                }
            },
    {
        if self.current.is_none() {
            if self.cancel_requested {
                return RefreshPollAction::Finish;
            }
            return RefreshPollAction::Wait;
        }
        if self.cancel_requested && self.phase == RefreshPhase::Updating && !update_busy {
            self.current = None;
            return RefreshPollAction::StartNext;
        }
        match self.phase {
            RefreshPhase::Loading => RefreshPollAction::Wait,
            RefreshPhase::Updating => {
                if update_busy {
                    return RefreshPollAction::Wait;
                }
                if masks_need_update {
                    let reason = match notice {
                        Some(text) => text,
                        None => "AI masks still need an update",
                    };
                    proof {
                        reveal_strlit("AI masks still need an update");
                    }
                    self.fail_current(reason);
                    return RefreshPollAction::StartNext;
                }
                self.phase = RefreshPhase::Saving;
                RefreshPollAction::SaveEdits
            },
            RefreshPhase::Saving => {
                if save_in_progress {
                    return RefreshPollAction::Wait;
                }
                if save_failed {
                    let reason = match notice {
                        Some(text) => text,
                        None => "could not save regenerated AI masks",
                    };
                    proof {
                        reveal_strlit("could not save regenerated AI masks");
                    }
                    self.fail_current(reason);
                } else {
                    self.complete_current();
                }
                RefreshPollAction::StartNext
            },
        }
    }

    /// Progress of the batch for the library's status line: masks
    /// regenerated, masks counted, failures, and the current image's name.
    /// `update_busy`, `masks_need_update` and `remaining_targets` describe
    /// the AI-mask update of the current image.
    pub fn status(&self, update_busy: bool, masks_need_update: bool, remaining_targets: usize) -> (status: (usize, usize, usize, Option<String>))
        requires
            self.wf(),
        ensures
            status.0 == self.mask_completed + match self.current {
                None => 0,
                Some(job) => if self.phase == RefreshPhase::Loading || (self.phase
                    == RefreshPhase::Updating && masks_need_update && !update_busy) {
                    0
                } else if remaining_targets <= job.mask_targets {
                    job.mask_targets - remaining_targets
                } else {
                    0
                },
            },
            status.1 == self.mask_total,
            status.2 == self.failures@.len(),
            match status.3 {
                Some(name) => self.current matches Some(job) && name@ == job.display_name@,
                None => self.current is None,
            },
    {
        let (progress, name) = match &self.current {
            None => (0, None),
            Some(job) => {
                let progress = if self.phase == RefreshPhase::Loading {
                    0
                } else if self.phase == RefreshPhase::Updating && masks_need_update && !update_busy {
                    0
                } else {
                    job.mask_targets.saturating_sub(remaining_targets)
                };
                (progress, Some(job.display_name.clone()))
            },
        };
        (self.mask_completed + progress, self.mask_total, self.failures.len(), name)
    }

    /// The summary shown when the batch ends, and the failure reason of its
    /// background task, if it failed. `cancelled`: the batch or its task was
    /// cancelled.
    pub fn summary(&self, cancelled: bool) -> (summary: (String, Option<String>))
        ensures
            summary.0@ == refresh_summary(
                cancelled,
                self.completed as nat,
                self.total as nat,
                texts(self.failures@),
            ),
            match summary.1 {
                Some(reason) => refresh_task_failure(cancelled, texts(self.failures@)) == Some(
                    reason@,
                ),
                None => refresh_task_failure(cancelled, texts(self.failures@)) is None,
            },
    {
        let failures = self.failures.len();
        let succeeded = self.completed.saturating_sub(failures);
        let joined = join_texts(&self.failures, " · ");
        proof {
            reveal_strlit(" · ");
            reveal_strlit("AI-mask refresh cancelled after ");
            reveal_strlit("/");
            reveal_strlit(" images.");
            reveal_strlit("Regenerated AI masks for ");
            reveal_strlit(" ");
            reveal_strlit(".");
            reveal_strlit(" of ");
            reveal_strlit(" images. ");
            reveal_strlit(" AI-mask refresh item(s) failed: ");
        }
        let text = if cancelled {
            let mut text = String::from_str("AI-mask refresh cancelled after ");
            text.append(decimal_text(self.completed as u64).as_str());
            text.append("/");
            text.append(decimal_text(self.total as u64).as_str());
            text.append(" images.");
            text
        } else if failures == 0 {
            let mut text = String::from_str("Regenerated AI masks for ");
            text.append(decimal_text(succeeded as u64).as_str());
            text.append(" ");
            text.append(image_noun_text(succeeded));
            text.append(".");
            text
        } else {
            let mut text = String::from_str("Regenerated AI masks for ");
            text.append(decimal_text(succeeded as u64).as_str());
            text.append(" of ");
            text.append(decimal_text(self.total as u64).as_str());
            text.append(" images. ");
            text.append(joined.as_str());
            text
        };
        let reason = if cancelled || failures == 0 {
            None
        } else {
            let mut reason = decimal_text(failures as u64);
            reason.append(" AI-mask refresh item(s) failed: ");
            reason.append(joined.as_str());
            Some(reason)
        };
        (text, reason)
    }
}

/// Whether a new batch may start: not while one is queued or running
/// (`batch_queued`), nor while edits are being saved, nor on Android while
/// a document picker is open. The refusal's text is the notice.
pub fn check_refresh_start(
    batch_queued: bool,
    saving_edits: bool,
    picker_pending: bool,
    platform: Platform,
) -> (checked: Result<(), String>)
    ensures
        checked is Ok <==> (!batch_queued && !saving_edits && (platform == Platform::Desktop
            || !picker_pending)),
        checked matches Err(message) ==> message@
            == "AI-mask refresh is already queued, or edits are still being saved."@,
{
    let ready = !batch_queued && !saving_edits;
    let ready = match platform {
        Platform::Desktop => ready,
        Platform::Android => ready && !picker_pending,
    };
    if ready {
        Ok(())
    } else {
        Err(String::from_str("AI-mask refresh is already queued, or edits are still being saved."))
    }
}

} // verus!
