//! The "update all AI masks" batch: which generated masks are regenerated,
//! in which order, and how the batch ends.
use crate::ai_masks::targets::{
    class_predicate, positions, stack_view, GeometrySummary, MaskKind, MaskStackSummary,
    TargetClass,
};
use std::collections::VecDeque;
use vstd::prelude::*;

verus! {

/// Progress of an "update all" batch, and whether the editor still offers
/// the update.
#[derive(Debug)]
pub struct AiMaskUpdate {
    pub active: bool,
    pub subject_pending: bool,
    pub object_queue: VecDeque<(usize, usize)>,
    pub landscape_queue: VecDeque<(usize, usize)>,
    pub failed: bool,
    pub needs_update: bool,
}

/// The plain-value state of a batch.
pub struct AiMaskUpdateView {
    pub active: bool,
    pub subject_pending: bool,
    pub object_queue: Seq<(usize, usize)>,
    pub landscape_queue: Seq<(usize, usize)>,
    pub failed: bool,
    pub needs_update: bool,
}

/// What a request to update every AI mask finds.
#[derive(Debug, PartialEq, Eq)]
pub enum UpdateAllPlan {
    /// Another AI-mask operation is running.
    Busy,
    /// There are no masks; nothing needs an update.
    NoMasks,
    /// The targets to regenerate. The caller validates the model runtime
    /// when `subject` or any object or landscape is present, captures a
    /// fresh canonical source when anything is present, and then gives the
    /// range masks that source when `ranges`.
    Targets {
        subject: bool,
        objects: VecDeque<(usize, usize)>,
        landscapes: VecDeque<(usize, usize)>,
        ranges: bool,
    },
}

/// How a started batch proceeds.
#[derive(Clone, Copy, Debug, PartialEq, Eq, Structural)]
pub enum UpdateAllStart {
    /// Only range masks needed a new source; the batch is already complete.
    RangesRefreshed,
    /// Regenerate the subject matte first.
    Subject,
    /// Proceed with the queued objects and landscapes.
    Continue,
}

/// The next job of a batch.
#[derive(Clone, Copy, Debug, PartialEq, Eq, Structural)]
pub enum NextAiMaskJob {
    /// A job or consent dialog is still outstanding, or no batch runs.
    Idle,
    Object { mask_index: usize, component_index: usize },
    Landscape { mask_index: usize, component_index: usize },
    /// The batch ended; `failed` if any item failed.
    Finished { failed: bool },
}

pub open spec fn object_still_valid(stack: Seq<Seq<crate::ai_masks::targets::MaskComponentSummary>>, target: (usize, usize)) -> bool {
    &&& target.0 < stack.len()
    &&& target.1 < stack[target.0 as int].len()
    &&& stack[target.0 as int][target.1 as int].geometry matches GeometrySummary::Object { has_positive_stroke: true }
}

pub open spec fn landscape_still_valid(stack: Seq<Seq<crate::ai_masks::targets::MaskComponentSummary>>, target: (usize, usize)) -> bool {
    &&& target.0 < stack.len()
    &&& target.1 < stack[target.0 as int].len()
    &&& stack[target.0 as int][target.1 as int].kind == MaskKind::Landscape
    &&& stack[target.0 as int][target.1 as int].geometry is Landscape
}

pub open spec fn object_validity(stack: Seq<Seq<crate::ai_masks::targets::MaskComponentSummary>>) -> spec_fn((usize, usize)) -> bool {
    |t: (usize, usize)| object_still_valid(stack, t)
}

pub open spec fn landscape_validity(stack: Seq<Seq<crate::ai_masks::targets::MaskComponentSummary>>) -> spec_fn((usize, usize)) -> bool {
    |t: (usize, usize)| landscape_still_valid(stack, t)
}

/// Index of the first entry satisfying `valid`, or the length if none does.
pub open spec fn first_valid(queue: Seq<(usize, usize)>, valid: spec_fn((usize, usize)) -> bool) -> nat
    decreases queue.len(),
{
    if queue.len() == 0 {
        0
    } else if valid(queue[0]) {
        0
    } else {
        1 + first_valid(queue.drop_first(), valid)
    }
}

pub proof fn lemma_first_valid_bounds(queue: Seq<(usize, usize)>, valid: spec_fn((usize, usize)) -> bool)
    ensures
        first_valid(queue, valid) <= queue.len(),
        first_valid(queue, valid) < queue.len() ==> valid(queue[first_valid(queue, valid) as int]),
        forall|i: int| 0 <= i < first_valid(queue, valid) ==> !valid(#[trigger] queue[i]),
    decreases queue.len(),
{
    if queue.len() > 0 && !valid(queue[0]) {
        lemma_first_valid_bounds(queue.drop_first(), valid);
        assert forall|i: int| 0 <= i < first_valid(queue, valid) implies !valid(#[trigger] queue[i]) by {
            if i > 0 {
                assert(queue[i] == queue.drop_first()[i - 1]);
            }
        }
    }
}

/// The first valid entry is at `k` when every earlier entry is invalid and
/// the entry at `k` (if any) is valid.
pub proof fn lemma_first_valid_is(queue: Seq<(usize, usize)>, valid: spec_fn((usize, usize)) -> bool, k: int)
    requires
        0 <= k <= queue.len(),
        forall|i: int| 0 <= i < k ==> !valid(#[trigger] queue[i]),
        k < queue.len() ==> valid(queue[k]),
    ensures
        first_valid(queue, valid) == k,
    decreases queue.len(),
{
    if queue.len() > 0 && k > 0 {
        assert(!valid(queue[0]));
        assert forall|i: int| 0 <= i < k - 1 implies !valid(#[trigger] queue.drop_first()[i]) by {
            assert(queue.drop_first()[i] == queue[i + 1]);
        }
        if k - 1 < queue.drop_first().len() {
            assert(queue.drop_first()[k - 1] == queue[k]);
        }
        lemma_first_valid_is(queue.drop_first(), valid, k - 1);
    }
}

impl AiMaskUpdate {
    pub open spec fn view(&self) -> AiMaskUpdateView {
        AiMaskUpdateView {
            active: self.active,
            subject_pending: self.subject_pending,
            object_queue: self.object_queue@,
            landscape_queue: self.landscape_queue@,
            failed: self.failed,
            needs_update: self.needs_update,
        }
    }

    /// An idle batch whose update is not offered.
    pub fn new() -> (update: Self)
        ensures
            !update.active,
            !update.subject_pending,
            update.object_queue@.len() == 0,
            update.landscape_queue@.len() == 0,
            !update.failed,
            !update.needs_update,
    {
        AiMaskUpdate {
            active: false,
            subject_pending: false,
            object_queue: VecDeque::new(),
            landscape_queue: VecDeque::new(),
            failed: false,
            needs_update: false,
        }
    }

    /// The update is offered while it is needed and masks exist.
    pub fn needs_update_visible(&self, has_masks: bool) -> (visible: bool)
        ensures
            visible == (self.needs_update && has_masks),
    {
        self.needs_update && has_masks
    }

    /// Whether the batch itself keeps AI-mask tools busy.
    pub fn is_active(&self) -> (active: bool)
        ensures
            active == self.active,
    {
        self.active
    }

    /// First step of "update all": refuse while busy, clear the offer when
    /// no masks exist, and otherwise report the targets.
    pub fn plan_update_all(&mut self, busy: bool, masks: &MaskStackSummary) -> (plan: UpdateAllPlan)
        ensures
            busy ==> plan == UpdateAllPlan::Busy && final(self).view() == old(self).view(),
            !busy && masks@.len() == 0 ==> plan == UpdateAllPlan::NoMasks && final(self).view() == (AiMaskUpdateView { needs_update: false, ..old(self).view() }),
            !busy && masks@.len() > 0 ==> {
                &&& final(self).view() == old(self).view()
                &&& plan matches UpdateAllPlan::Targets { subject, objects, landscapes, ranges }
                &&& subject == (positions(stack_view(*masks), class_predicate(TargetClass::Subject)).len() > 0)
                &&& objects@ == positions(stack_view(*masks), class_predicate(TargetClass::Object))
                &&& landscapes@ == positions(stack_view(*masks), class_predicate(TargetClass::Landscape))
                &&& ranges == crate::ai_masks::targets::any_component(stack_view(*masks), |c: crate::ai_masks::targets::MaskComponentSummary| crate::ai_masks::targets::is_range_geometry(c.geometry))
            },
    {
        if busy {
            return UpdateAllPlan::Busy;
        }
        if masks.len() == 0 {
            self.needs_update = false;
            return UpdateAllPlan::NoMasks;
        }
        let (subject, objects, landscapes) = crate::ai_masks::targets::generated_ai_mask_targets(masks);
        let ranges = crate::ai_masks::targets::has_range_mask_targets(masks);
        UpdateAllPlan::Targets { subject, objects, landscapes, ranges }
    }

    /// Second step, once the canonical source is ready: a batch with only
    /// range masks is complete; otherwise the batch starts with the subject
    /// (if any) and queues the objects and landscapes.
    pub fn start_update_all(&mut self, subject: bool, objects: VecDeque<(usize, usize)>, landscapes: VecDeque<(usize, usize)>) -> (start: UpdateAllStart)
        ensures
            (!subject && objects@.len() == 0 && landscapes@.len() == 0) ==> {
                &&& start == UpdateAllStart::RangesRefreshed
                &&& final(self).view() == (AiMaskUpdateView { needs_update: false, ..old(self).view() })
            },
            (subject || objects@.len() > 0 || landscapes@.len() > 0) ==> {
                &&& start == (if subject { UpdateAllStart::Subject } else { UpdateAllStart::Continue })
                &&& final(self).view() == (AiMaskUpdateView {
                    active: true,
                    subject_pending: subject,
                    object_queue: objects@,
                    landscape_queue: landscapes@,
                    failed: false,
                    needs_update: old(self).needs_update,
                })
            },
    {
        if !subject && objects.len() == 0 && landscapes.len() == 0 {
            self.needs_update = false;
            return UpdateAllStart::RangesRefreshed;
        }
        self.active = true;
        self.subject_pending = subject;
        self.object_queue = objects;
        self.landscape_queue = landscapes;
        self.failed = false;
        if subject { UpdateAllStart::Subject } else { UpdateAllStart::Continue }
    }

    /// Ends the batch: the update stays offered exactly when an item failed.
    pub fn finish(&mut self) -> (failed: Option<bool>)
        ensures
            !old(self).active ==> failed is None && final(self).view() == old(self).view(),
            old(self).active ==> {
                &&& failed == Some(old(self).failed)
                &&& final(self).view() == (AiMaskUpdateView {
                    active: false,
                    subject_pending: false,
                    object_queue: Seq::empty(),
                    landscape_queue: Seq::empty(),
                    failed: old(self).failed,
                    needs_update: old(self).failed,
                })
            },
    {
        if !self.active {
            return None;
        }
        self.active = false;
        self.subject_pending = false;
        self.object_queue.clear();
        self.landscape_queue.clear();
        self.needs_update = self.failed;
        Some(self.failed)
    }

    /// Abandons the batch; the update stays offered.
    pub fn cancel(&mut self)
        ensures
            final(self).view() == (AiMaskUpdateView {
                active: false,
                subject_pending: false,
                object_queue: Seq::empty(),
                landscape_queue: Seq::empty(),
                failed: false,
                needs_update: true,
            }),
    {
        self.active = false;
        self.subject_pending = false;
        self.object_queue.clear();
        self.landscape_queue.clear();
        self.failed = false;
        self.needs_update = true;
    }

    /// Forgets a running batch because the image under the masks changed.
    pub fn invalidate(&mut self)
        ensures
            final(self).view() == (AiMaskUpdateView {
                active: false,
                subject_pending: false,
                object_queue: Seq::empty(),
                landscape_queue: Seq::empty(),
                failed: false,
                needs_update: old(self).needs_update,
            }),
    {
        self.active = false;
        self.subject_pending = false;
        self.object_queue.clear();
        self.landscape_queue.clear();
        self.failed = false;
    }

    /// After inpainting or lens correction changed the image: forget any
    /// batch and offer an update exactly when a source-dependent mask exists.
    pub fn note_source_changed(&mut self, masks: &MaskStackSummary)
        ensures
            final(self).view() == (AiMaskUpdateView {
                active: false,
                subject_pending: false,
                object_queue: Seq::empty(),
                landscape_queue: Seq::empty(),
                failed: false,
                needs_update: positions(stack_view(*masks), class_predicate(TargetClass::Subject)).len() > 0
                    || positions(stack_view(*masks), class_predicate(TargetClass::Object)).len() > 0
                    || positions(stack_view(*masks), class_predicate(TargetClass::Landscape)).len() > 0
                    || crate::ai_masks::targets::any_component(stack_view(*masks), |c: crate::ai_masks::targets::MaskComponentSummary| crate::ai_masks::targets::is_range_geometry(c.geometry)),
            }),
    {
        let (subject, objects, landscapes) = crate::ai_masks::targets::generated_ai_mask_targets(masks);
        let ranges = crate::ai_masks::targets::has_range_mask_targets(masks);
        self.invalidate();
        self.needs_update = subject || objects.len() > 0 || landscapes.len() > 0 || ranges;
    }

    /// The subject matte of the batch finished.
    pub fn note_subject_finished(&mut self, succeeded: bool)
        ensures
            final(self).view() == (AiMaskUpdateView {
                subject_pending: false,
                failed: old(self).failed || !succeeded,
                ..old(self).view()
            }),
    {
        self.subject_pending = false;
        self.failed = self.failed || !succeeded;
    }

    /// An object of the batch finished; a failure abandons the remaining objects.
    pub fn note_object_finished(&mut self, succeeded: bool)
        ensures
            final(self).view() == (AiMaskUpdateView {
                object_queue: if succeeded { old(self).object_queue@ } else { Seq::empty() },
                failed: old(self).failed || !succeeded,
                ..old(self).view()
            }),
    {
        self.failed = self.failed || !succeeded;
        if !succeeded {
            self.object_queue.clear();
        }
    }

    /// A landscape of the batch finished.
    pub fn note_landscape_finished(&mut self, succeeded: bool)
        ensures
            final(self).view() == (AiMaskUpdateView {
                failed: old(self).failed || !succeeded,
                ..old(self).view()
            }),
    {
        self.failed = self.failed || !succeeded;
    }

    /// Picks the next job: nothing while a job or dialog is outstanding;
    /// otherwise the first queued object still in place, then the first
    /// queued landscape still in place (stale entries are dropped); when
    /// both queues are exhausted the batch finishes.
    pub fn next_job(&mut self, outstanding: bool, masks: &MaskStackSummary) -> (job: NextAiMaskJob)
        ensures
            ({
                let stack = stack_view(*masks);
                let ov = object_validity(stack);
                let lv = landscape_validity(stack);
                let before = old(self).view();
                let oi = first_valid(before.object_queue, ov);
                let li = first_valid(before.landscape_queue, lv);
                if !before.active || before.subject_pending || outstanding {
                    job == NextAiMaskJob::Idle && final(self).view() == before
                } else if oi < before.object_queue.len() {
                    &&& job == (NextAiMaskJob::Object {
                        mask_index: before.object_queue[oi as int].0,
                        component_index: before.object_queue[oi as int].1,
                    })
                    &&& final(self).view() == (AiMaskUpdateView {
                        object_queue: before.object_queue.subrange(oi + 1int, before.object_queue.len() as int),
                        ..before
                    })
                } else if li < before.landscape_queue.len() {
                    &&& job == (NextAiMaskJob::Landscape {
                        mask_index: before.landscape_queue[li as int].0,
                        component_index: before.landscape_queue[li as int].1,
                    })
                    &&& final(self).view() == (AiMaskUpdateView {
                        object_queue: Seq::empty(),
                        landscape_queue: before.landscape_queue.subrange(li + 1int, before.landscape_queue.len() as int),
                        ..before
                    })
                } else {
                    &&& job == (NextAiMaskJob::Finished { failed: before.failed })
                    &&& final(self).view() == (AiMaskUpdateView {
                        active: false,
                        subject_pending: false,
                        object_queue: Seq::empty(),
                        landscape_queue: Seq::empty(),
                        failed: before.failed,
                        needs_update: before.failed,
                    })
                }
            }),
    {
        let ghost stack = stack_view(*masks);
        let ghost ov = object_validity(stack);
        let ghost lv = landscape_validity(stack);
        let ghost before = self.view();
        assert(before == old(self).view());
        if !self.active || self.subject_pending || outstanding {
            return NextAiMaskJob::Idle;
        }
        let ghost mut k: int = 0;
        loop
            invariant
                before == old(self).view(),
                !outstanding,
                before.active,
                !before.subject_pending,
                self.active == before.active,
                self.subject_pending == before.subject_pending,
                self.failed == before.failed,
                self.needs_update == before.needs_update,
                self.landscape_queue@ == before.landscape_queue,
                stack == stack_view(*masks),
                ov == object_validity(stack),
                0 <= k <= before.object_queue.len(),
                self.object_queue@ == before.object_queue.subrange(k, before.object_queue.len() as int),
                forall|i: int| 0 <= i < k ==> !ov(#[trigger] before.object_queue[i]),
            ensures
                self.object_queue@.len() == 0,
                k == before.object_queue.len(),
                forall|i: int| 0 <= i < k ==> !ov(#[trigger] before.object_queue[i]),
                self.active == before.active,
                self.subject_pending == before.subject_pending,
                self.failed == before.failed,
                self.needs_update == before.needs_update,
                self.landscape_queue@ == before.landscape_queue,
            decreases self.object_queue@.len(),
        {
            let ghost q = self.object_queue@;
            match self.object_queue.pop_front() {
                None => {
                    break;
                },
                Some(target) => {
                    let valid = object_target_valid(masks, target);
                    assert(q[0] == before.object_queue[k]);
                    if valid {
                        proof {
                            assert(ov(before.object_queue[k]));
                            lemma_first_valid_is(before.object_queue, ov, k);
                            assert(first_valid(before.object_queue, ov) == k);
                            assert(self.object_queue@ =~= before.object_queue.subrange(k + 1, before.object_queue.len() as int));
                            assert(target == before.object_queue[k]);
                            assert(k < before.object_queue.len());
                            assert(self.view() == (AiMaskUpdateView {
                                object_queue: before.object_queue.subrange(k + 1, before.object_queue.len() as int),
                                ..before
                            }));
                        }
                        return NextAiMaskJob::Object { mask_index: target.0, component_index: target.1 };
                    }
                    proof {
                        k = k + 1;
                        assert(self.object_queue@ =~= before.object_queue.subrange(k, before.object_queue.len() as int));
                    }
                }
            }
        }
        proof {
            lemma_first_valid_is(before.object_queue, ov, before.object_queue.len() as int);
        }
        let ghost mut j: int = 0;
        loop
            invariant
                before == old(self).view(),
                !outstanding,
                before.active,
                !before.subject_pending,
                self.active == before.active,
                self.subject_pending == before.subject_pending,
                self.failed == before.failed,
                self.needs_update == before.needs_update,
                self.object_queue@.len() == 0,
                first_valid(before.object_queue, ov) == before.object_queue.len(),
                ov == object_validity(stack),
                stack == stack_view(*masks),
                lv == landscape_validity(stack),
                0 <= j <= before.landscape_queue.len(),
                self.landscape_queue@ == before.landscape_queue.subrange(j, before.landscape_queue.len() as int),
                forall|i: int| 0 <= i < j ==> !lv(#[trigger] before.landscape_queue[i]),
            ensures
                self.landscape_queue@.len() == 0,
                j == before.landscape_queue.len(),
                forall|i: int| 0 <= i < j ==> !lv(#[trigger] before.landscape_queue[i]),
                self.object_queue@.len() == 0,
                self.active == before.active,
                self.subject_pending == before.subject_pending,
                self.failed == before.failed,
                self.needs_update == before.needs_update,
            decreases self.landscape_queue@.len(),
        {
            let ghost q = self.landscape_queue@;
            match self.landscape_queue.pop_front() {
                None => {
                    break;
                },
                Some(target) => {
                    let valid = landscape_target_valid(masks, target);
                    assert(q[0] == before.landscape_queue[j]);
                    if valid {
                        proof {
                            assert(lv(before.landscape_queue[j]));
                            lemma_first_valid_is(before.landscape_queue, lv, j);
                            assert(first_valid(before.landscape_queue, lv) == j);
                            assert(self.landscape_queue@ =~= before.landscape_queue.subrange(j + 1, before.landscape_queue.len() as int));
                            assert(self.object_queue@ =~= Seq::<(usize, usize)>::empty());
                            assert(target == before.landscape_queue[j]);
                            assert(self.view() == (AiMaskUpdateView {
                                object_queue: Seq::empty(),
                                landscape_queue: before.landscape_queue.subrange(j + 1, before.landscape_queue.len() as int),
                                ..before
                            }));
                        }
                        return NextAiMaskJob::Landscape { mask_index: target.0, component_index: target.1 };
                    }
                    proof {
                        j = j + 1;
                        assert(self.landscape_queue@ =~= before.landscape_queue.subrange(j, before.landscape_queue.len() as int));
                    }
                }
            }
        }
        proof {
            lemma_first_valid_is(before.landscape_queue, lv, before.landscape_queue.len() as int);
        }
        let failed = self.failed;
        self.finish();
        NextAiMaskJob::Finished { failed }
    }

    /// Masks the batch still has to produce: the subject mattes while the
    /// subject is pending, every queued object and landscape, and the one
    /// currently being generated of each.
    pub fn remaining_target_count(&self, subject_targets: usize, object_in_progress: bool, landscape_in_progress: bool) -> (count: usize)
        requires
            subject_targets + self.object_queue@.len() + self.landscape_queue@.len() + 2 <= usize::MAX,
        ensures
            count == (if !self.active {
                0
            } else {
                (if self.subject_pending { subject_targets as int } else { 0 })
                    + self.object_queue@.len() + (if object_in_progress { 1int } else { 0 })
                    + self.landscape_queue@.len() + (if landscape_in_progress { 1int } else { 0 })
            }),
    {
        if !self.active {
            return 0;
        }
        let subject_remaining = if self.subject_pending { subject_targets } else { 0 };
        subject_remaining + self.object_queue.len() + if object_in_progress { 1 } else { 0 }
            + self.landscape_queue.len() + if landscape_in_progress { 1 } else { 0 }
    }
}

fn object_target_valid(masks: &MaskStackSummary, target: (usize, usize)) -> (valid: bool)
    ensures
        valid == object_still_valid(stack_view(*masks), target),
{
    if target.0 >= masks.len() {
        return false;
    }
    let mask = &masks[target.0];
    if target.1 >= mask.len() {
        return false;
    }
    match mask[target.1].geometry {
        GeometrySummary::Object { has_positive_stroke } => has_positive_stroke,
        _ => false,
    }
}

fn landscape_target_valid(masks: &MaskStackSummary, target: (usize, usize)) -> (valid: bool)
    ensures
        valid == landscape_still_valid(stack_view(*masks), target),
{
    if target.0 >= masks.len() {
        return false;
    }
    let mask = &masks[target.0];
    if target.1 >= mask.len() {
        return false;
    }
    mask[target.1].kind == MaskKind::Landscape && match mask[target.1].geometry {
        GeometrySummary::Landscape => true,
        _ => false,
    }
}

/// The notice when a batch ends, `failed` if any item failed.
pub open spec fn spec_finish_notice(failed: bool) -> Seq<char> {
    if failed {
        "Some AI masks could not be updated. The update button will remain available."@
    } else {
        "Masks were refreshed for the current image geometry."@
    }
}

/// The notice when a batch ends, `failed` if any item failed.
pub fn finish_notice(failed: bool) -> (notice: String)
    ensures
        notice@ == spec_finish_notice(failed),
{
    if failed {
        String::from_str(
            "Some AI masks could not be updated. The update button will remain available.",
        )
    } else {
        String::from_str("Masks were refreshed for the current image geometry.")
    }
}

/// The notice when the user cancels a batch.
pub fn cancel_notice() -> (notice: String)
    ensures
        notice@ == "AI-mask update canceled."@,
{
    String::from_str("AI-mask update canceled.")
}

} // verus!
