//! Display colour management on the desktop: when the display's ICC
//! profile is probed again, which profile the probe settles on, and whether
//! the preview's output transform must change. The application reads the
//! clock, the window position and the profile files, and builds and
//! installs the transform; the library decides how an install concludes.
use vstd::prelude::*;
use vstd::string::*;

verus! {

/// The display profile the preview's output transform was built from.
pub struct DisplayProfileRecord {
    pub label: String,
    pub source: Option<String>,
    /// A hash of the profile's bytes; zero for the built-in sRGB transform.
    /// Unknown before the first probe.
    pub fingerprint: Option<u64>,
}

/// The profile a probe settles on.
pub struct DisplayTarget {
    pub label: String,
    pub source: Option<String>,
    pub fingerprint: u64,
}

/// What probing the display found.
pub enum ProfileProbe {
    /// A profile, with its label, where it came from and a hash of its bytes.
    Found { label: String, source: String, fingerprint: u64 },
    /// No profile: colour management is off, or the display has none.
    Absent,
    /// Discovery failed with this error.
    Failed { error: String },
}

/// Where the next probe looks for the display's profile.
pub enum ProbeSource {
    /// Colour management is off.
    Disabled,
    /// The profile file the user chose.
    Override(String),
    /// The profile the system assigns to the display under the window.
    Discover,
}

/// The desktop's display colour settings and probe bookkeeping. `Moment` is
/// the application's clock reading.
pub struct DisplayColorSettings<Moment> {
    pub color_management: bool,
    pub profile_override: Option<String>,
    pub last_probe: Option<Moment>,
    pub last_screen_point: Option<(i32, i32)>,
    pub record: DisplayProfileRecord,
}

/// The label of the built-in sRGB transform used in place of a profile.
pub open spec fn fallback_label() -> Seq<char> {
    "sRGB fallback"@
}

pub open spec fn opt_text(text: Option<String>) -> Option<Seq<char>> {
    match text {
        Some(t) => Some(t@),
        None => None,
    }
}

/// The profile a probe settles on.
pub open spec fn spec_probe_target(probe: ProfileProbe, color_management: bool) -> (Seq<char>, Option<Seq<char>>, u64) {
    match probe {
        ProfileProbe::Found { label, source, fingerprint } => (label@, Some(source@), fingerprint),
        ProfileProbe::Absent => (
            if color_management {
                fallback_label()
            } else {
                "sRGB (color management disabled)"@
            },
            None,
            0,
        ),
        ProfileProbe::Failed { error } => (
            fallback_label(),
            Some("Profile discovery error: "@ + error@),
            0,
        ),
    }
}

pub open spec fn target_view(target: DisplayTarget) -> (Seq<char>, Option<Seq<char>>, u64) {
    (target.label@, opt_text(target.source), target.fingerprint)
}

/// Whether the screen point under the window differs from the last one:
/// appearing or vanishing counts as a change.
pub fn screen_point_changed(current: Option<(i32, i32)>, previous: Option<(i32, i32)>) -> (changed: bool)
    ensures
        changed == (current != previous),
{
    match (current, previous) {
        (Some(a), Some(b)) => a.0 != b.0 || a.1 != b.1,
        (None, None) => false,
        _ => true,
    }
}

/// Whether the display's profile is due to be probed, `elapsed_millis`
/// after the last probe (never probed: `None`): never within a second,
/// within ten seconds only when the window moved to another screen point,
/// and always after that.
pub fn probe_due(elapsed_millis: Option<u64>, screen_changed: bool) -> (due: bool)
    ensures
        due == match elapsed_millis {
            None => true,
            Some(ms) => !(ms < 1000 || (!screen_changed && ms < 10000)),
        },
{
    match elapsed_millis {
        None => true,
        Some(ms) => !(ms < 1000 || (!screen_changed && ms < 10000)),
    }
}

/// The profile a probe settles on: a found profile as found; otherwise the
/// built-in sRGB transform, labelled by why.
pub fn probe_target(probe: &ProfileProbe, color_management: bool) -> (target: DisplayTarget)
    ensures
        target_view(target) == spec_probe_target(*probe, color_management),
{
    match probe {
        ProfileProbe::Found { label, source, fingerprint } => DisplayTarget {
            label: label.clone(),
            source: Some(source.clone()),
            fingerprint: *fingerprint,
        },
        ProfileProbe::Absent => DisplayTarget {
            label: if color_management {
                String::from_str("sRGB fallback")
            } else {
                String::from_str("sRGB (color management disabled)")
            },
            source: None,
            fingerprint: 0,
        },
        ProfileProbe::Failed { error } => {
            let mut source = String::from_str("Profile discovery error: ");
            source.append(error.as_str());
            DisplayTarget { label: String::from_str("sRGB fallback"), source: Some(source), fingerprint: 0 }
        },
    }
}

/// The target used when the found profile cannot be turned into a
/// transform: the built-in sRGB transform, with the error as its source.
pub fn icc_failure_target(error: &str) -> (target: DisplayTarget)
    ensures
        target_view(target) == (fallback_label(), Some("ICC error: "@ + error@), 0u64),
{
    let mut source = String::from_str("ICC error: ");
    source.append(error);
    DisplayTarget { label: String::from_str("sRGB fallback"), source: Some(source), fingerprint: 0 }
}

/// The notice shown when some preview kept its previous transform.
pub fn display_update_failed_notice() -> (notice: String)
    ensures
        notice@ == "Could not update every preview color profile. The previous display transform remains active."@,
{
    String::from_str(
        "Could not update every preview color profile. The previous display transform remains active.",
    )
}

/// Whether the transform recorded in `record` was built from `target`.
pub open spec fn is_current(record: DisplayProfileRecord, target: DisplayTarget) -> bool {
    record.fingerprint == Some(target.fingerprint) && record.label@ == target.label@ && opt_text(
        record.source,
    ) == opt_text(target.source)
}

/// The record of a transform built from `target`.
pub open spec fn record_of(target: DisplayTarget) -> DisplayProfileRecord {
    DisplayProfileRecord {
        label: target.label,
        source: target.source,
        fingerprint: Some(target.fingerprint),
    }
}

/// What a probe's target asks of the application.
pub enum DisplayInstall {
    /// The transform in use was built from the target: nothing to do.
    Keep,
    /// There is no GPU renderer: the target was recorded as in use, and its
    /// transform only has to be kept for later.
    Recorded,
    /// Write the target's transform to every preview pipeline, then report
    /// how that went to `finish_install`.
    Install(DisplayTarget),
}

/// What the application does after the writes of an install.
pub struct InstallFollowUp {
    /// The notice for the user.
    pub notice: Option<String>,
    /// Some preview refused the transform and the previous one was written
    /// back: the previews' output stage is left pending.
    pub pending_output_stage: bool,
    /// Every preview took the transform: redraw the main preview's output
    /// stage.
    pub queue_output_stage: bool,
}

fn same_text(a: &Option<String>, b: &Option<String>) -> (same: bool)
    ensures
        same == (opt_text(*a) == opt_text(*b)),
{
    match (a, b) {
        (Some(x), Some(y)) => *x == *y,
        (None, None) => true,
        _ => false,
    }
}

impl<Moment> DisplayColorSettings<Moment> {
    /// Whether the transform in use was built from `target`, so that nothing
    /// needs to be installed.
    pub fn target_is_current(&self, target: &DisplayTarget) -> (current: bool)
        ensures
            current == is_current(self.record, *target),
    {
        match self.record.fingerprint {
            Some(fingerprint) => fingerprint == target.fingerprint && self.record.label
                == target.label && same_text(&self.record.source, &target.source),
            None => false,
        }
    }

    /// Settles on `target`: nothing changes when its transform is the one in
    /// use; without a GPU renderer (`gpu_available` false) it is only
    /// recorded; otherwise it is handed back to be written to the previews.
    pub fn settle_target(&mut self, target: DisplayTarget, gpu_available: bool) -> (step: DisplayInstall)
        ensures
            is_current(old(self).record, target) ==> step is Keep && *final(self) == *old(self),
            !is_current(old(self).record, target) && !gpu_available ==> {
                &&& step is Recorded
                &&& final(self).record == record_of(target)
                &&& final(self).color_management == old(self).color_management
                &&& final(self).profile_override == old(self).profile_override
                &&& final(self).last_probe == old(self).last_probe
                &&& final(self).last_screen_point == old(self).last_screen_point
            },
            !is_current(old(self).record, target) && gpu_available ==> step == DisplayInstall::Install(
                target,
            ) && *final(self) == *old(self),
    {
        if self.target_is_current(&target) {
            return DisplayInstall::Keep;
        }
        if !gpu_available {
            self.installed(target);
            return DisplayInstall::Recorded;
        }
        DisplayInstall::Install(target)
    }

    /// Concludes writing `target`'s transform to the previews (`main_preview`:
    /// the main preview has a pipeline). When every write succeeded the
    /// target is recorded and the main preview's output is redrawn;
    /// otherwise, with the previous transform written back, the record stays,
    /// the user is told, and the output stage is left pending.
    pub fn finish_install(&mut self, target: DisplayTarget, all_written: bool, main_preview: bool) -> (follow_up: InstallFollowUp)
        ensures
            all_written ==> {
                &&& final(self).record == record_of(target)
                &&& follow_up.notice is None
                &&& !follow_up.pending_output_stage
                &&& follow_up.queue_output_stage == main_preview
            },
            !all_written ==> {
                &&& final(self).record == old(self).record
                &&& follow_up.notice matches Some(text) && text@
                    == "Could not update every preview color profile. The previous display transform remains active."@
                &&& follow_up.pending_output_stage
                &&& !follow_up.queue_output_stage
            },
            final(self).color_management == old(self).color_management,
            final(self).profile_override == old(self).profile_override,
            final(self).last_probe == old(self).last_probe,
            final(self).last_screen_point == old(self).last_screen_point,
    {
        if !all_written {
            return InstallFollowUp {
                notice: Some(display_update_failed_notice()),
                pending_output_stage: true,
                queue_output_stage: false,
            };
        }
        self.installed(target);
        InstallFollowUp { notice: None, pending_output_stage: false, queue_output_stage: main_preview }
    }

    /// Records that the transform built from `target` is installed.
    pub fn installed(&mut self, target: DisplayTarget)
        ensures
            final(self).record.label == target.label,
            final(self).record.source == target.source,
            final(self).record.fingerprint == Some(target.fingerprint),
            final(self).color_management == old(self).color_management,
            final(self).profile_override == old(self).profile_override,
            final(self).last_probe == old(self).last_probe,
            final(self).last_screen_point == old(self).last_screen_point,
    {
        self.record.label = target.label;
        self.record.source = target.source;
        self.record.fingerprint = Some(target.fingerprint);
    }

    /// Starts a probe when one is due (see `probe_due`), `elapsed_millis`
    /// after the last one, at `now`, with the window over `screen_point`.
    pub fn begin_probe(&mut self, now: Moment, elapsed_millis: Option<u64>, screen_point: Option<(i32, i32)>) -> (due: bool)
        ensures
            due == match elapsed_millis {
                None => true,
                Some(ms) => !(ms < 1000 || (screen_point == old(self).last_screen_point && ms < 10000)),
            },
            due ==> final(self).last_probe == Some(now) && final(self).last_screen_point == screen_point,
            !due ==> final(self).last_probe == old(self).last_probe && final(self).last_screen_point
                == old(self).last_screen_point,
            final(self).record == old(self).record,
            final(self).color_management == old(self).color_management,
            final(self).profile_override == old(self).profile_override,
    {
        let changed = screen_point_changed(screen_point, self.last_screen_point);
        if !probe_due(elapsed_millis, changed) {
            return false;
        }
        self.last_probe = Some(now);
        self.last_screen_point = screen_point;
        true
    }

    /// Where the next probe looks: nowhere with colour management off, the
    /// chosen profile when there is one, else the system's.
    pub fn probe_source(&self) -> (source: ProbeSource)
        ensures
            !self.color_management ==> source is Disabled,
            self.color_management && self.profile_override is Some ==> (source matches ProbeSource::Override(
                path,
            ) && path@ == self.profile_override->Some_0@),
            self.color_management && self.profile_override is None ==> source is Discover,
    {
        if !self.color_management {
            return ProbeSource::Disabled;
        }
        match &self.profile_override {
            Some(path) => ProbeSource::Override(path.clone()),
            None => ProbeSource::Discover,
        }
    }

    /// Turns colour management on or off; a change asks for a fresh probe.
    /// Returns whether the settings changed and must be saved.
    pub fn set_color_management(&mut self, enabled: bool) -> (changed: bool)
        ensures
            changed == (old(self).color_management != enabled),
            final(self).color_management == enabled,
            changed ==> final(self).last_probe is None && final(self).record.fingerprint is None,
            !changed ==> *final(self) == *old(self),
            final(self).profile_override == old(self).profile_override,
    {
        if self.color_management == enabled {
            return false;
        }
        self.color_management = enabled;
        self.last_probe = None;
        self.record.fingerprint = None;
        true
    }

    /// Uses the profile file at `path` from now on, probing it at once.
    pub fn apply_override(&mut self, path: String)
        ensures
            final(self).profile_override == Some(path),
            final(self).last_probe is None,
            final(self).record.fingerprint is None,
            final(self).color_management == old(self).color_management,
    {
        self.profile_override = Some(path);
        self.last_probe = None;
        self.record.fingerprint = None;
    }

    /// Stops using a chosen profile file; returns whether one was in use
    /// (the settings changed and must be saved).
    pub fn clear_override(&mut self) -> (changed: bool)
        ensures
            changed == old(self).profile_override is Some,
            final(self).profile_override is None,
            changed ==> final(self).last_probe is None && final(self).record.fingerprint is None,
            !changed ==> *final(self) == *old(self),
            final(self).color_management == old(self).color_management,
    {
        if self.profile_override.is_none() {
            return false;
        }
        self.profile_override = None;
        self.last_probe = None;
        self.record.fingerprint = None;
        true
    }
}

} // verus!
