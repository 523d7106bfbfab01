//! Pasting copied adjustments: which parts of the open document change and
//! what must follow, the order in which a library selection is pasted, and
//! the tally of what the paste did.
use vstd::prelude::*;

verus! {

/// The categories of copied adjustments that a paste applies.
#[derive(Clone, Copy, Debug, PartialEq, Eq, Structural)]
pub struct AdjustmentCopySettings {
    pub adjustments: bool,
    pub geometry: bool,
    pub camera_profile: bool,
    pub masks: bool,
    pub ai_masks: bool,
    pub inpainting: bool,
    pub lens_correction: bool,
}

/// What a paste into the open document does.
#[derive(Clone, Copy, Debug, PartialEq, Eq, Structural)]
pub struct PastePlan {
    /// Install the pasted global adjustments.
    pub adjustments: bool,
    /// Install the pasted crop and geometry.
    pub geometry: bool,
    /// Install the pasted camera-profile choice.
    pub camera_profile: bool,
    /// Any category that the render pipeline reads changed.
    pub pipeline_adjustments: bool,
    /// Install the pasted masks.
    pub masks: bool,
    /// Install the pasted inpainting strokes.
    pub inpainting: bool,
    /// The inpainting strokes differ, so generated masks must be refreshed.
    pub inpainting_content: bool,
    /// Install the pasted lens-correction choice.
    pub lens_category: bool,
    /// The lens correction differs, so it must be applied again.
    pub lens_changed: bool,
    /// Check that the resulting masks and strokes can be saved first.
    pub preflight: bool,
    /// Re-render the pipeline (a lens change re-renders on its own).
    pub mark_pipeline_dirty: bool,
}

/// Plans a paste into the open document. A replacing paste applies every
/// category; otherwise the copy settings choose. `strokes_differ` and
/// `lens_differs` compare the pasted strokes and lens choice with the
/// document's.
pub fn plan_adjustment_paste(settings: AdjustmentCopySettings, replace: bool, strokes_differ: bool, lens_differs: bool) -> (plan: PastePlan)
    ensures
        plan.adjustments == (settings.adjustments || replace),
        plan.geometry == (settings.geometry || replace),
        plan.camera_profile == (settings.camera_profile || replace),
        plan.pipeline_adjustments == (plan.adjustments || plan.geometry || plan.camera_profile),
        plan.masks == (settings.masks || settings.ai_masks || replace),
        plan.inpainting == (settings.inpainting || replace),
        plan.inpainting_content == (plan.inpainting && strokes_differ),
        plan.lens_category == (settings.lens_correction || replace),
        plan.lens_changed == (plan.lens_category && lens_differs),
        plan.preflight == (plan.masks || plan.inpainting),
        plan.mark_pipeline_dirty == (plan.pipeline_adjustments && !plan.lens_changed),
{
    let adjustments = settings.adjustments || replace;
    let geometry = settings.geometry || replace;
    let camera_profile = settings.camera_profile || replace;
    let pipeline_adjustments = adjustments || geometry || camera_profile;
    let masks = settings.masks || settings.ai_masks || replace;
    let inpainting = settings.inpainting || replace;
    let lens_category = settings.lens_correction || replace;
    let lens_changed = lens_category && lens_differs;
    PastePlan {
        adjustments,
        geometry,
        camera_profile,
        pipeline_adjustments,
        masks,
        inpainting,
        inpainting_content: inpainting && strokes_differ,
        lens_category,
        lens_changed,
        preflight: masks || inpainting,
        mark_pipeline_dirty: pipeline_adjustments && !lens_changed,
    }
}

/// The positions whose flag is unset, then those whose flag is set, each in
/// increasing order.
pub open spec fn partition_order(flags: Seq<bool>) -> Seq<usize> {
    positions_with(flags, false) + positions_with(flags, true)
}

/// The positions whose flag equals `value`, in increasing order.
pub open spec fn positions_with(flags: Seq<bool>, value: bool) -> Seq<usize>
    decreases flags.len(),
{
    if flags.len() == 0 {
        Seq::empty()
    } else if flags.last() == value {
        positions_with(flags.drop_last(), value).push((flags.len() - 1) as usize)
    } else {
        positions_with(flags.drop_last(), value)
    }
}

/// The order in which a library selection is pasted: every image other
/// than the open document first, then the open document, whose paste may
/// start a reload that must not interrupt the others. `is_current[i]` says
/// whether image `i` is the open document.
pub fn paste_order(is_current: &Vec<bool>) -> (order: Vec<usize>)
    ensures
        order@ == partition_order(is_current@),
{
    let mut others: Vec<usize> = Vec::new();
    let mut current: Vec<usize> = Vec::new();
    let mut i: usize = 0;
    while i < is_current.len()
        invariant
            i <= is_current.len(),
            others@ == positions_with(is_current@.subrange(0, i as int), false),
            current@ == positions_with(is_current@.subrange(0, i as int), true),
        decreases is_current.len() - i,
    {
        proof {
            let next = is_current@.subrange(0, i + 1);
            assert(next.drop_last() =~= is_current@.subrange(0, i as int));
            assert(next.last() == is_current@[i as int]);
        }
        if is_current[i] {
            current.push(i);
        } else {
            others.push(i);
        }
        i += 1;
    }
    proof {
        assert(is_current@.subrange(0, is_current.len() as int) =~= is_current@);
    }
    let mut order = others;
    let mut k: usize = 0;
    let ghost head = order@;
    while k < current.len()
        invariant
            k <= current.len(),
            order@ == head + current@.subrange(0, k as int),
        decreases current.len() - k,
    {
        order.push(current[k]);
        proof {
            assert(current@.subrange(0, k + 1) =~= current@.subrange(0, k as int).push(current@[k as int]));
        }
        k += 1;
    }
    proof {
        assert(current@.subrange(0, current.len() as int) =~= current@);
    }
    order
}

/// Every position is pasted exactly once: the order lists each position of
/// the selection once.
pub proof fn lemma_paste_order_is_a_permutation(flags: Seq<bool>)
    requires
        flags.len() <= usize::MAX,
    ensures
        partition_order(flags).len() == flags.len(),
        forall|i: usize| i < flags.len() ==> #[trigger] partition_order(flags).contains(i),
        forall|a: int, b: int|
            0 <= a < b < partition_order(flags).len() ==> partition_order(flags)[a] != partition_order(
                flags,
            )[b],
{
    lemma_positions_with(flags, false);
    lemma_positions_with(flags, true);
    let f = positions_with(flags, false);
    let t = positions_with(flags, true);
    let all = f + t;
    assert forall|i: usize| i < flags.len() implies #[trigger] all.contains(i) by {
        if flags[i as int] {
            assert(t.contains(i as int as usize));
            let k = choose|k: int| 0 <= k < t.len() && t[k] == i;
            assert(all[f.len() + k] == i);
        } else {
            assert(f.contains(i as int as usize));
            let k = choose|k: int| 0 <= k < f.len() && f[k] == i;
            assert(all[k] == i);
        }
    }
    assert forall|a: int, b: int| 0 <= a < b < all.len() implies all[a] != all[b] by {
        if b < f.len() {
        } else if a >= f.len() {
            assert(all[a] == t[a - f.len()] && all[b] == t[b - f.len()]);
        } else {
            assert(all[a] == f[a] && all[b] == t[b - f.len()]);
            assert(!flags[f[a] as int] && flags[t[b - f.len()] as int]);
        }
    }
}

proof fn lemma_positions_with(flags: Seq<bool>, value: bool)
    requires
        flags.len() <= usize::MAX,
    ensures
        positions_with(flags, value).len() + positions_with(flags, !value).len() == flags.len(),
        forall|k: int|
            0 <= k < positions_with(flags, value).len() ==> {
                &&& (#[trigger] positions_with(flags, value)[k]) < flags.len()
                &&& flags[positions_with(flags, value)[k] as int] == value
            },
        forall|a: int, b: int|
            0 <= a < b < positions_with(flags, value).len() ==> #[trigger] positions_with(flags, value)[a]
                < #[trigger] positions_with(flags, value)[b],
        forall|i: int|
            0 <= i < flags.len() && flags[i] == value ==> positions_with(flags, value).contains(i as usize),
    decreases flags.len(),
{
    if flags.len() > 0 {
        let earlier = flags.drop_last();
        lemma_positions_with(earlier, value);
        lemma_positions_with(earlier, !value);
        let before = positions_with(earlier, value);
        let now = positions_with(flags, value);
        let last = (flags.len() - 1) as usize;
        if flags.last() == value {
            assert(now == before.push(last));
            assert forall|k: int| 0 <= k < now.len() implies {
                &&& (#[trigger] now[k]) < flags.len()
                &&& flags[now[k] as int] == value
            } by {
                if k < before.len() {
                    assert(now[k] == before[k]);
                    assert(before[k] < earlier.len());
                    assert(flags[before[k] as int] == earlier[before[k] as int]);
                }
            }
            assert forall|a: int, b: int| 0 <= a < b < now.len() implies #[trigger] now[a] < #[trigger] now[b] by {
                assert(now[a] == before[a]);
                assert(before[a] < earlier.len());
                if b < before.len() {
                    assert(now[b] == before[b]);
                }
            }
            assert forall|i: int| 0 <= i < flags.len() && flags[i] == value implies now.contains(i as usize) by {
                if i < flags.len() - 1 {
                    assert(earlier[i] == flags[i]);
                    assert(before.contains(i as usize));
                    let k = choose|k: int| 0 <= k < before.len() && before[k] == i as usize;
                    assert(now[k] == before[k]);
                } else {
                    assert(now[now.len() - 1] == i as usize);
                }
            }
        } else {
            assert(now == before);
            assert forall|k: int| 0 <= k < now.len() implies {
                &&& (#[trigger] now[k]) < flags.len()
                &&& flags[now[k] as int] == value
            } by {
                assert(before[k] < earlier.len());
                assert(flags[before[k] as int] == earlier[before[k] as int]);
            }
            assert forall|i: int| 0 <= i < flags.len() && flags[i] == value implies now.contains(i as usize) by {
                assert(i < flags.len() - 1);
                assert(earlier[i] == flags[i]);
                assert(before.contains(i as usize));
            }
        }
        if flags.last() == !value {
            assert(positions_with(flags, !value) == positions_with(earlier, !value).push(last));
        } else {
            assert(positions_with(flags, !value) == positions_with(earlier, !value));
        }
    }
}

/// How one image's failure is listed: its name, then the error.
pub open spec fn asset_failure(name: Seq<char>, error: Seq<char>) -> Seq<char> {
    name + ": "@ + error
}

/// How one image's failure is listed.
pub fn asset_failure_text(name: &str, error: &str) -> (text: String)
    ensures
        text@ == asset_failure(name@, error@),
{
    let mut text = String::from_str(name);
    text.append(": ");
    text.append(error);
    text
}

/// The views of a list of texts.
pub open spec fn text_views(texts: Seq<String>) -> Seq<Seq<char>> {
    texts.map_values(|t: String| t@)
}

/// What pasting into a library selection did: how many images took the
/// paste, which of them (by position in the selection) now need their AI
/// masks refreshed, and one line per image that failed.
pub struct PasteTally {
    pub completed: usize,
    pub ai_refresh: Vec<usize>,
    pub failures: Vec<String>,
}

impl PasteTally {
    /// Nothing pasted yet.
    pub fn new() -> (tally: Self)
        ensures
            tally.completed == 0,
            tally.ai_refresh@.len() == 0,
            tally.failures@.len() == 0,
    {
        PasteTally { completed: 0, ai_refresh: Vec::new(), failures: Vec::new() }
    }

    /// The outcome of a paste with nothing copied.
    pub fn nothing_copied() -> (tally: Self)
        ensures
            tally.completed == 0,
            tally.ai_refresh@.len() == 0,
            text_views(tally.failures@) == seq!["Copy adjustments from an image first."@],
    {
        let mut failures: Vec<String> = Vec::new();
        failures.push(String::from_str("Copy adjustments from an image first."));
        proof {
            assert(text_views(failures@) =~= seq!["Copy adjustments from an image first."@]);
        }
        PasteTally { completed: 0, ai_refresh: Vec::new(), failures }
    }

    /// Records the image at `position`, named `name`: `Ok(needs_refresh)`
    /// when the paste was saved, or the error that stopped it.
    pub fn record(&mut self, position: usize, name: &str, result: Result<bool, String>)
        requires
            old(self).completed < usize::MAX,
        ensures
            match result {
                Ok(needs_refresh) => {
                    &&& final(self).completed == old(self).completed + 1
                    &&& final(self).ai_refresh@ == (if needs_refresh {
                        old(self).ai_refresh@.push(position)
                    } else {
                        old(self).ai_refresh@
                    })
                    &&& final(self).failures@ == old(self).failures@
                },
                Err(error) => {
                    &&& final(self).completed == old(self).completed
                    &&& final(self).ai_refresh@ == old(self).ai_refresh@
                    &&& text_views(final(self).failures@) == text_views(old(self).failures@).push(
                        asset_failure(name@, error@),
                    )
                },
            },
    {
        match result {
            Ok(needs_refresh) => {
                self.completed = self.completed + 1;
                if needs_refresh {
                    self.ai_refresh.push(position);
                }
            },
            Err(error) => {
                let ghost before = self.failures@;
                self.failures.push(asset_failure_text(name, error.as_str()));
                proof {
                    assert(text_views(self.failures@) =~= text_views(before).push(
                        asset_failure(name@, error@),
                    ));
                }
            },
        }
    }
}

/// The open document can take a paste only once its RAW and its sidecar
/// target are loaded.
pub fn check_paste_destination(raw_loaded: bool, has_sidecar_target: bool) -> (checked: Result<
    (),
    String,
>)
    ensures
        checked is Ok <==> (raw_loaded && has_sidecar_target),
        checked matches Err(message) ==> message@ == "The destination image is not loaded."@,
{
    if !raw_loaded || !has_sidecar_target {
        return Err(String::from_str("The destination image is not loaded."));
    }
    Ok(())
}

/// The error when the pasted masks or strokes could not be saved, for
/// `error`.
pub fn paste_preflight_error(error: &str) -> (message: String)
    ensures
        message@ == "Paste was not applied because the resulting edit could not be saved: "@
            + error@,
{
    let mut message = String::from_str(
        "Paste was not applied because the resulting edit could not be saved: ",
    );
    message.append(error);
    message
}

/// The notice when the document could not be reopened with the pasted
/// camera profile, for `error`.
pub fn profile_reload_error(error: &str) -> (message: String)
    ensures
        message@ == "Adjustments were pasted, but the camera profile could not be reloaded: "@
            + error@,
{
    let mut message = String::from_str(
        "Adjustments were pasted, but the camera profile could not be reloaded: ",
    );
    message.append(error);
    message
}

/// The open document is reopened after a paste exactly when the camera
/// profile category was pasted and the chosen profile changed.
pub fn needs_profile_reload(plan: PastePlan, profile_unchanged: bool) -> (reload: bool)
    ensures
        reload == (plan.camera_profile && !profile_unchanged),
{
    plan.camera_profile && !profile_unchanged
}

/// How many images of a library selection carry adjustments, with one line
/// per image whose edits could not be read.
pub struct EditCount {
    pub edited: usize,
    pub failures: Vec<String>,
}

impl EditCount {
    /// Nothing counted yet.
    pub fn new() -> (count: Self)
        ensures
            count.edited == 0,
            count.failures@.len() == 0,
    {
        EditCount { edited: 0, failures: Vec::new() }
    }

    /// Records the image named `name`: `Ok(has_adjustments)` when its edits
    /// were read, or the error met.
    pub fn record(&mut self, name: &str, result: Result<bool, String>)
        requires
            old(self).edited < usize::MAX,
        ensures
            match result {
                Ok(has_adjustments) => {
                    &&& final(self).edited == old(self).edited + (if has_adjustments {
                        1int
                    } else {
                        0int
                    })
                    &&& final(self).failures@ == old(self).failures@
                },
                Err(error) => {
                    &&& final(self).edited == old(self).edited
                    &&& text_views(final(self).failures@) == text_views(old(self).failures@).push(
                        asset_failure(name@, error@),
                    )
                },
            },
    {
        match result {
            Ok(has_adjustments) => {
                if has_adjustments {
                    self.edited = self.edited + 1;
                }
            },
            Err(error) => {
                let ghost before = self.failures@;
                self.failures.push(asset_failure_text(name, error.as_str()));
                proof {
                    assert(text_views(self.failures@) =~= text_views(before).push(
                        asset_failure(name@, error@),
                    ));
                }
            },
        }
    }
}

} // verus!
