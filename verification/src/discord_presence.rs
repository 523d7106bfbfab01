//! Discord Rich Presence: which activity the editor publishes, and the
//! decisions of the background worker that talks to Discord.
use crate::text::{parse_u64, str_parse_u64, str_trim, trim};
use crate::ui_state::AppTab;
use vstd::prelude::*;
use vstd::string::*;

verus! {

/// What the user is doing, as far as presence is concerned.
#[derive(Clone, Copy, Debug, PartialEq, Eq, Structural)]
pub enum PresenceContext {
    Browsing,
    Editing { document_id: u64 },
}

/// The activity published to Discord. It never names the document.
#[derive(Clone, Copy, Debug, PartialEq, Eq, Structural)]
pub enum PresenceActivity {
    Browsing,
    Editing { started_at: i64 },
}

/// A message to the presence worker.
#[derive(Clone, Copy, Debug, PartialEq, Eq, Structural)]
pub enum PresenceCommand {
    Publish(PresenceActivity),
    Shutdown,
}

/// A command the app must deliver to the worker on behalf of `sync`.
#[derive(Clone, Copy, Debug, PartialEq, Eq, Structural)]
pub struct PresenceDelivery {
    /// The context that becomes current once the command is delivered.
    pub context: PresenceContext,
    pub activity: PresenceActivity,
    /// No worker is running: start one before delivering.
    pub start_worker: bool,
}

/// Presence state of the editor. The worker thread and its channel are held
/// by the caller; this value records whether one is running.
#[derive(Debug)]
pub struct DiscordPresence {
    application_id: Option<String>,
    enabled: bool,
    worker_running: bool,
    current_context: Option<PresenceContext>,
    last_non_settings_context: Option<PresenceContext>,
}

/// The context a tab stands for: the Library is browsing, Develop is editing
/// the open document (if any), and Settings keeps the last other context.
pub open spec fn tab_context(tab: AppTab, document_id: Option<u64>, last_non_settings: Option<PresenceContext>) -> Option<PresenceContext> {
    match tab {
        AppTab::Library => Some(PresenceContext::Browsing),
        AppTab::Develop => match document_id {
            Some(id) => Some(PresenceContext::Editing { document_id: id }),
            None => None,
        },
        AppTab::Settings => last_non_settings,
    }
}

impl DiscordPresence {
    pub closed spec fn spec_application_id(&self) -> Option<Seq<char>> {
        match self.application_id {
            Some(id) => Some(id@),
            None => None,
        }
    }

    pub closed spec fn spec_enabled(&self) -> bool {
        self.enabled
    }

    pub closed spec fn spec_worker_running(&self) -> bool {
        self.worker_running
    }

    pub closed spec fn spec_current_context(&self) -> Option<PresenceContext> {
        self.current_context
    }

    pub closed spec fn spec_last_non_settings_context(&self) -> Option<PresenceContext> {
        self.last_non_settings_context
    }

    /// Presence is only ever enabled with an application ID.
    pub open spec fn wf(&self) -> bool {
        self.spec_enabled() ==> self.spec_application_id() is Some
    }

    /// Presence for a build configured with `application_id`; it is enabled
    /// only if requested and configured.
    pub fn new(enabled: bool, application_id: Option<String>) -> (presence: Self)
        ensures
            presence.wf(),
            presence.spec_application_id() == (match application_id {
                Some(id) => Some(id@),
                None => None::<Seq<char>>,
            }),
            presence.spec_enabled() == (enabled && application_id is Some),
            !presence.spec_worker_running(),
            presence.spec_current_context() is None,
            presence.spec_last_non_settings_context() is None,
    {
        let enabled = enabled && application_id.is_some();
        DiscordPresence {
            application_id,
            enabled,
            worker_running: false,
            current_context: None,
            last_non_settings_context: None,
        }
    }

    pub fn is_configured(&self) -> (configured: bool)
        ensures
            configured == self.spec_application_id() is Some,
    {
        self.application_id.is_some()
    }

    pub fn is_enabled(&self) -> (enabled: bool)
        ensures
            enabled == self.spec_enabled(),
    {
        self.enabled
    }

    pub fn application_id(&self) -> (id: Option<&str>)
        ensures
            match id {
                Some(text) => self.spec_application_id() == Some(text@),
                None => self.spec_application_id() is None,
            },
    {
        match &self.application_id {
            Some(id) => Some(id.as_str()),
            None => None,
        }
    }

    pub fn last_non_settings_context(&self) -> (context: Option<PresenceContext>)
        ensures
            context == self.spec_last_non_settings_context(),
    {
        self.last_non_settings_context
    }

    pub fn current_context(&self) -> (context: Option<PresenceContext>)
        ensures
            context == self.spec_current_context(),
    {
        self.current_context
    }

    /// Turns presence on or off. Enabling an unconfigured build fails; a
    /// change forgets the published context, and turning it off asks for the
    /// running worker (if any) to be shut down: `Ok(true)`.
    pub fn set_enabled(&mut self, enabled: bool) -> (result: Result<bool, String>)
        requires
            old(self).wf(),
        ensures
            final(self).wf(),
            final(self).spec_application_id() == old(self).spec_application_id(),
            final(self).spec_last_non_settings_context() == old(self).spec_last_non_settings_context(),
            enabled && old(self).spec_application_id() is None ==> {
                &&& result is Err
                &&& result->Err_0@ == "Discord Rich Presence is unavailable because this build has no AURAW_DISCORD_APPLICATION_ID."@
                &&& *final(self) == *old(self)
            },
            !(enabled && old(self).spec_application_id() is None) ==> {
                &&& result is Ok
                &&& final(self).spec_enabled() == enabled
                &&& if old(self).spec_enabled() == enabled {
                    &&& *final(self) == *old(self)
                    &&& result == Ok::<bool, String>(false)
                } else {
                    &&& final(self).spec_current_context() is None
                    &&& result == Ok::<bool, String>(!enabled && old(self).spec_worker_running())
                    &&& final(self).spec_worker_running() == (enabled && old(self).spec_worker_running())
                }
            },
    {
        if enabled && self.application_id.is_none() {
            return Err(
                String::from_str(
                    "Discord Rich Presence is unavailable because this build has no AURAW_DISCORD_APPLICATION_ID.",
                ),
            );
        }
        if self.enabled == enabled {
            return Ok(false);
        }
        self.enabled = enabled;
        self.current_context = None;
        if !enabled {
            return Ok(self.shutdown_worker());
        }
        Ok(false)
    }

    /// Decides what to publish for the visible tab. Remembers the last
    /// Library or Develop context for Settings, and returns the command to
    /// deliver when presence is enabled and the context changed.
    pub fn sync(&mut self, tab: AppTab, document_id: Option<u64>) -> (delivery: Option<PresenceDelivery>)
        requires
            old(self).wf(),
        ensures
            final(self).wf(),
            ({
                let context = tab_context(tab, document_id, old(self).spec_last_non_settings_context());
                &&& final(self).spec_last_non_settings_context() == (if tab != AppTab::Settings && context is Some {
                    context
                } else {
                    old(self).spec_last_non_settings_context()
                })
                &&& final(self).spec_application_id() == old(self).spec_application_id()
                &&& final(self).spec_enabled() == old(self).spec_enabled()
                &&& final(self).spec_worker_running() == old(self).spec_worker_running()
                &&& final(self).spec_current_context() == old(self).spec_current_context()
                &&& if !old(self).spec_enabled() || context is None || old(self).spec_current_context() == context {
                    delivery is None
                } else {
                    &&& delivery is Some
                    &&& Some(delivery->Some_0.context) == context
                    &&& delivery->Some_0.start_worker == !old(self).spec_worker_running()
                    &&& match delivery->Some_0.context {
                        PresenceContext::Browsing => delivery->Some_0.activity == PresenceActivity::Browsing,
                        PresenceContext::Editing { .. } => delivery->Some_0.activity is Editing
                            && delivery->Some_0.activity->started_at >= 0,
                    }
                }
            }),
    {
        let context = match tab {
            AppTab::Library => Some(PresenceContext::Browsing),
            AppTab::Develop => match document_id {
                Some(document_id) => Some(PresenceContext::Editing { document_id }),
                None => None,
            },
            AppTab::Settings => self.last_non_settings_context,
        };
        if tab != AppTab::Settings {
            if let Some(context) = context {
                self.last_non_settings_context = Some(context);
            }
        }
        let context = match context {
            Some(context) => context,
            None => return None,
        };
        if !self.enabled || self.current_context == Some(context) {
            return None;
        }
        let activity = match context {
            PresenceContext::Browsing => PresenceActivity::Browsing,
            PresenceContext::Editing { .. } => PresenceActivity::Editing {
                started_at: unix_timestamp_seconds(),
            },
        };
        Some(PresenceDelivery { context, activity, start_worker: !self.worker_running })
    }

    /// Delivers a command to the worker, which must be started first when
    /// none runs: `started` says whether that start succeeded (it cannot
    /// without an application ID; it is not consulted when a worker already
    /// runs), and `delivered` whether the worker's channel accepted the
    /// command. A failed delivery leaves no worker running.
    pub fn send(&mut self, started: bool, delivered: bool) -> (sent: bool)
        requires
            old(self).wf(),
        ensures
            final(self).wf(),
            sent == ((old(self).spec_worker_running() || (started && old(self).spec_application_id() is Some))
                && delivered),
            final(self).spec_worker_running() == (if !old(self).spec_worker_running() && !(started
                && old(self).spec_application_id() is Some) {
                false
            } else {
                sent
            }),
            final(self).spec_application_id() == old(self).spec_application_id(),
            final(self).spec_enabled() == old(self).spec_enabled(),
            final(self).spec_current_context() == old(self).spec_current_context(),
            final(self).spec_last_non_settings_context() == old(self).spec_last_non_settings_context(),
    {
        if !self.worker_running {
            if !(started && self.application_id.is_some()) {
                return false;
            }
            self.worker_running = true;
        }
        if delivered {
            return true;
        }
        self.worker_running = false;
        false
    }

    /// Records the outcome of delivering a `sync` command: a command that
    /// reached the worker makes its context the published one.
    pub fn note_delivery(&mut self, context: PresenceContext, sent: bool)
        requires
            old(self).wf(),
        ensures
            final(self).wf(),
            final(self).spec_current_context() == (if sent {
                Some(context)
            } else {
                old(self).spec_current_context()
            }),
            final(self).spec_worker_running() == old(self).spec_worker_running(),
            final(self).spec_application_id() == old(self).spec_application_id(),
            final(self).spec_enabled() == old(self).spec_enabled(),
            final(self).spec_last_non_settings_context() == old(self).spec_last_non_settings_context(),
    {
        if sent {
            self.current_context = Some(context);
        }
    }

    /// Turns presence off for good; `true` asks for the running worker to be
    /// shut down.
    pub fn shutdown(&mut self) -> (stop_worker: bool)
        requires
            old(self).wf(),
        ensures
            final(self).wf(),
            stop_worker == old(self).spec_worker_running(),
            !final(self).spec_enabled(),
            !final(self).spec_worker_running(),
            final(self).spec_current_context() is None,
            final(self).spec_application_id() == old(self).spec_application_id(),
            final(self).spec_last_non_settings_context() == old(self).spec_last_non_settings_context(),
    {
        self.enabled = false;
        self.current_context = None;
        self.shutdown_worker()
    }

    /// Forgets the worker; `true` if one was running and must be told to stop.
    pub fn shutdown_worker(&mut self) -> (stop_worker: bool)
        ensures
            stop_worker == old(self).spec_worker_running(),
            !final(self).spec_worker_running(),
            final(self).spec_application_id() == old(self).spec_application_id(),
            final(self).spec_enabled() == old(self).spec_enabled(),
            final(self).spec_current_context() == old(self).spec_current_context(),
            final(self).spec_last_non_settings_context() == old(self).spec_last_non_settings_context(),
    {
        let running = self.worker_running;
        self.worker_running = false;
        running
    }
}

/// Seconds since the Unix epoch, or `None` when the clock is set before it.
#[verifier::external_body]
fn system_seconds_since_epoch() -> (seconds: Option<u64>) {
    std::time::SystemTime::now().duration_since(std::time::UNIX_EPOCH).ok().map(|elapsed| elapsed.as_secs())
}

/// Epoch seconds as a signed timestamp: zero when the clock is before the
/// epoch or beyond the `i64` range.
pub fn timestamp_from_elapsed(seconds: Option<u64>) -> (timestamp: i64)
    ensures
        timestamp == (match seconds {
            Some(s) => if s <= i64::MAX { s as int } else { 0 },
            None => 0,
        }),
{
    match seconds {
        Some(s) => if s <= i64::MAX as u64 { s as i64 } else { 0 },
        None => 0,
    }
}

/// The current Unix time in seconds, never negative.
pub fn unix_timestamp_seconds() -> (timestamp: i64)
    ensures
        timestamp >= 0,
{
    timestamp_from_elapsed(system_seconds_since_epoch())
}

/// What the presence worker publishes for an activity.
#[derive(Debug, PartialEq, Eq)]
pub struct PresencePayload {
    pub details: String,
    pub start_timestamp: Option<i64>,
    pub button_label: String,
    pub button_url: String,
}

pub open spec fn spec_payload_details(activity: PresenceActivity) -> Seq<char> {
    match activity {
        PresenceActivity::Browsing => "Browsing RAW Photos"@,
        PresenceActivity::Editing { .. } => "Editing a Picture"@,
    }
}

/// The payload for an activity: a "Playing" activity with a download
/// button linking to `button_url` (the project's repository), the
/// activity's description and, while editing, its start time.
pub fn activity_payload(presence: PresenceActivity, button_url: &str) -> (payload: PresencePayload)
    ensures
        payload.details@ == spec_payload_details(presence),
        payload.button_label@ == "Get AuRaw"@,
        payload.button_url@ == button_url@,
        payload.start_timestamp == (match presence {
            PresenceActivity::Browsing => None,
            PresenceActivity::Editing { started_at } => Some(started_at),
        }),
{
    match presence {
        PresenceActivity::Browsing => PresencePayload {
            details: String::from_str("Browsing RAW Photos"),
            start_timestamp: None,
            button_label: String::from_str("Get AuRaw"),
            button_url: String::from_str(button_url),
        },
        PresenceActivity::Editing { started_at } => PresencePayload {
            details: String::from_str("Editing a Picture"),
            start_timestamp: Some(started_at),
            button_label: String::from_str("Get AuRaw"),
            button_url: String::from_str(button_url),
        },
    }
}

/// The application ID a build is configured with: the configured text,
/// trimmed, if it is a non-zero unsigned decimal number.
pub open spec fn spec_normalized_application_id(configured: Option<Seq<char>>) -> Option<Seq<char>> {
    match configured {
        Some(raw) => {
            let text = trim(raw);
            match parse_u64(text) {
                Some(value) => if value != 0 { Some(text) } else { None },
                None => None,
            }
        },
        None => None,
    }
}

/// Keeps a configured Discord application ID only if it is a valid one.
pub fn normalized_application_id(configured: Option<&str>) -> (id: Option<String>)
    ensures
        match id {
            Some(text) => spec_normalized_application_id(match configured {
                Some(raw) => Some(raw@),
                None => None,
            }) == Some(text@),
            None => spec_normalized_application_id(match configured {
                Some(raw) => Some(raw@),
                None => None,
            }) is None,
        },
{
    match configured {
        None => None,
        Some(raw) => {
            let text = str_trim(raw);
            match str_parse_u64(text.as_str()) {
                Some(value) => if value != 0 { Some(text) } else { None },
                None => None,
            }
        },
    }
}

/// Seconds the worker waits for a command: a minute between refreshes while
/// connected, half a minute between reconnection attempts otherwise.
pub open spec fn spec_wait_timeout_secs(connected: bool) -> u64 {
    if connected { 60 } else { 30 }
}

/// What the worker heard while waiting.
#[derive(Clone, Copy, Debug, PartialEq, Eq, Structural)]
pub enum WaitOutcome {
    Received(PresenceCommand),
    /// Every sender is gone.
    Disconnected,
    TimedOut,
}

/// The worker's next step.
#[derive(Clone, Copy, Debug, PartialEq, Eq, Structural)]
pub enum WorkerAction {
    /// Clear the published activity, close the connection and stop.
    Exit,
    /// Wait for the next command or timeout.
    Wait,
    /// Open a connection to Discord.
    Connect,
    /// Publish the activity on the open connection.
    Publish(PresenceActivity),
}

/// Connection and desired activity of the presence worker.
#[derive(Clone, Copy, Debug, PartialEq, Eq, Structural)]
pub struct PresenceWorker {
    pub connected: bool,
    pub desired: Option<PresenceActivity>,
}

/// The step after a wait: stop on shutdown or when abandoned; otherwise
/// adopt a newly requested activity and, if there is one to show, connect
/// first or publish it.
pub open spec fn spec_after_wait(worker: PresenceWorker, outcome: WaitOutcome) -> (PresenceWorker, WorkerAction) {
    match outcome {
        WaitOutcome::Received(PresenceCommand::Shutdown) | WaitOutcome::Disconnected => (worker, WorkerAction::Exit),
        _ => {
            let desired = match outcome {
                WaitOutcome::Received(PresenceCommand::Publish(activity)) => Some(activity),
                _ => worker.desired,
            };
            let next = PresenceWorker { connected: worker.connected, desired };
            match desired {
                None => (next, WorkerAction::Wait),
                Some(activity) => if worker.connected {
                    (next, WorkerAction::Publish(activity))
                } else {
                    (next, WorkerAction::Connect)
                },
            }
        },
    }
}

impl PresenceWorker {
    pub fn new() -> (worker: Self)
        ensures
            !worker.connected,
            worker.desired is None,
    {
        PresenceWorker { connected: false, desired: None }
    }

    /// How long to wait for the next command, in seconds.
    pub fn wait_timeout_secs(&self) -> (seconds: u64)
        ensures
            seconds == spec_wait_timeout_secs(self.connected),
    {
        if self.connected { 60 } else { 30 }
    }

    pub fn after_wait(&mut self, outcome: WaitOutcome) -> (action: WorkerAction)
        ensures
            (*final(self), action) == spec_after_wait(*old(self), outcome),
    {
        match outcome {
            WaitOutcome::Received(PresenceCommand::Shutdown) | WaitOutcome::Disconnected => {
                return WorkerAction::Exit;
            },
            WaitOutcome::Received(PresenceCommand::Publish(activity)) => {
                self.desired = Some(activity);
            },
            WaitOutcome::TimedOut => {},
        }
        match self.desired {
            None => WorkerAction::Wait,
            Some(activity) => if self.connected {
                WorkerAction::Publish(activity)
            } else {
                WorkerAction::Connect
            },
        }
    }

    /// The step after a connection attempt: publish on success, wait for the
    /// retry interval on failure.
    pub fn after_connect(&mut self, connected: bool) -> (action: WorkerAction)
        requires
            old(self).desired is Some,
        ensures
            final(self).desired == old(self).desired,
            final(self).connected == (old(self).connected || connected),
            action == (if connected {
                WorkerAction::Publish(old(self).desired->Some_0)
            } else {
                WorkerAction::Wait
            }),
    {
        if connected {
            self.connected = true;
            match self.desired {
                Some(activity) => WorkerAction::Publish(activity),
                None => WorkerAction::Wait,
            }
        } else {
            WorkerAction::Wait
        }
    }

    /// Records a publication; a failed one drops the connection, which the
    /// caller clears and closes (`true`).
    pub fn after_publish(&mut self, published: bool) -> (close_connection: bool)
        ensures
            close_connection == !published,
            final(self).connected == (old(self).connected && published),
            final(self).desired == old(self).desired,
    {
        if !published {
            self.connected = false;
        }
        !published
    }
}

/// The worker only publishes over an open connection, and only the activity
/// it was last asked to show.
pub proof fn lemma_worker_publishes_only_when_connected(worker: PresenceWorker, outcome: WaitOutcome)
    ensures
        spec_after_wait(worker, outcome).1 is Publish ==> worker.connected
            && spec_after_wait(worker, outcome).0.desired == Some(spec_after_wait(worker, outcome).1->Publish_0),
        spec_after_wait(worker, outcome).1 is Exit <==> (outcome == WaitOutcome::Disconnected
            || outcome == WaitOutcome::Received(PresenceCommand::Shutdown)),
{
}

/// A requested activity is kept until replaced, so every later wake-up
/// shows it again.
pub proof fn lemma_worker_remembers_activity(worker: PresenceWorker, activity: PresenceActivity)
    ensures
        spec_after_wait(
            spec_after_wait(worker, WaitOutcome::Received(PresenceCommand::Publish(activity))).0,
            WaitOutcome::TimedOut,
        ).0.desired == Some(activity),
{
}

/// A worker that has an activity to show but no connection tries to connect
/// on every wake-up that does not stop it, the retry timeout included; once
/// connected, it publishes the activity it is to show.
pub proof fn lemma_disconnected_worker_retries_connection(
    worker: PresenceWorker,
    outcome: WaitOutcome,
)
    requires
        !(outcome is Disconnected),
        outcome != WaitOutcome::Received(PresenceCommand::Shutdown),
        worker.desired is Some || outcome matches WaitOutcome::Received(PresenceCommand::Publish(_)),
    ensures
        !worker.connected ==> spec_after_wait(worker, outcome).1 == WorkerAction::Connect,
        worker.connected ==> spec_after_wait(worker, outcome).1 == WorkerAction::Publish(
            match outcome {
                WaitOutcome::Received(PresenceCommand::Publish(activity)) => activity,
                _ => worker.desired->Some_0,
            },
        ),
        spec_after_wait(worker, outcome).0.connected == worker.connected,
{
}

} // verus!
