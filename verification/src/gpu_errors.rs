use vstd::prelude::*;
use vstd::string::*;

verus! {

/// Edge-triggered out-of-memory flag. Raising it any number of times is
/// observed by exactly one subsequent `take`.
#[derive(Debug)]
pub struct OomSignal {
    raised: bool,
}

impl OomSignal {
    /// Whether an out-of-memory event is waiting to be observed.
    pub closed spec fn is_raised(&self) -> bool {
        self.raised
    }

    /// The signal after `raise`.
    pub closed spec fn after_raise(self) -> Self {
        OomSignal { raised: true }
    }

    /// What `take` reports and the signal it leaves behind.
    pub closed spec fn after_take(self) -> (bool, Self) {
        (self.raised, OomSignal { raised: false })
    }

    pub fn new() -> (signal: Self)
        ensures
            !signal.is_raised(),
    {
        OomSignal { raised: false }
    }

    pub fn raise(&mut self)
        ensures
            *final(self) == old(self).after_raise(),
            final(self).is_raised(),
    {
        self.raised = true;
    }

    /// Reports whether the flag was raised and clears it.
    pub fn take(&mut self) -> (was_raised: bool)
        ensures
            (was_raised, *final(self)) == old(self).after_take(),
            was_raised == old(self).is_raised(),
            !final(self).is_raised(),
    {
        let was_raised = self.raised;
        self.raised = false;
        was_raised
    }
}

/// The signal is edge-triggered: after any number of raises, the next take
/// reports the event and the take after it reports nothing.
pub proof fn lemma_oom_signal_is_edge_triggered(signal: OomSignal)
    ensures
        signal.after_raise().after_take().0,
        !signal.after_raise().after_take().1.after_take().0,
        signal.after_raise().after_raise() == signal.after_raise(),
{
}

/// A fresh signal has nothing to report.
pub proof fn lemma_fresh_oom_signal_is_quiet(signal: OomSignal)
    requires
        !signal.is_raised(),
    ensures
        !signal.after_take().0,
{
}

/// Observes (and clears) the process-wide GPU out-of-memory signal.
pub fn take_gpu_out_of_memory(signal: &mut OomSignal) -> (was_raised: bool)
    ensures
        was_raised == old(signal).is_raised(),
        !final(signal).is_raised(),
{
    signal.take()
}

/// A GPU error as the device reports it.
#[derive(Debug, PartialEq, Eq)]
pub enum GpuErrorKind {
    OutOfMemory,
    Validation { description: String },
    Internal { description: String },
}

/// The diagnostic text recorded for a GPU error raised during `context`.
pub open spec fn gpu_error_message(kind: GpuErrorKind, context: Seq<char>) -> Seq<char> {
    match kind {
        GpuErrorKind::OutOfMemory => context + " ran out of GPU memory; the operation was cancelled"@,
        GpuErrorKind::Validation { description } => context + " failed GPU validation: "@
            + description@,
        GpuErrorKind::Internal { description } => context + " hit an internal GPU error: "@
            + description@,
    }
}

/// Records a GPU error: an out-of-memory error raises the signal, and the
/// returned text is the diagnostic for the log.
pub fn record_gpu_error(signal: &mut OomSignal, error: &GpuErrorKind, context: &str) -> (message:
    String)
    ensures
        message@ == gpu_error_message(*error, context@),
        final(signal).is_raised() == record_step(old(signal).is_raised(), *error),
{
    let mut message = String::from_str(context);
    match error {
        GpuErrorKind::OutOfMemory => {
            signal.raise();
            message.append(" ran out of GPU memory; the operation was cancelled");
        },
        GpuErrorKind::Validation { description } => {
            message.append(" failed GPU validation: ");
            message.append(description.as_str());
        },
        GpuErrorKind::Internal { description } => {
            message.append(" hit an internal GPU error: ");
            message.append(description.as_str());
        },
    }
    message
}

/// The error that an error-scope check reports: out-of-memory first, then
/// internal, then validation.
pub fn first_scope_error<E>(out_of_memory: Option<E>, internal: Option<E>, validation: Option<E>) -> (error: Option<E>)
    ensures
        error == (if out_of_memory is Some {
            out_of_memory
        } else if internal is Some {
            internal
        } else {
            validation
        }),
{
    match out_of_memory {
        Some(error) => Some(error),
        None => match internal {
            Some(error) => Some(error),
            None => validation,
        },
    }
}

/// The notice after the GPU ran out of memory and the optional preview
/// textures were released.
pub fn out_of_memory_notice() -> (notice: String)
    ensures
        notice@ == "GPU memory was exhausted. AuRaw cancelled the operation and released optional preview textures. Close other GPU-heavy apps or lower Preview Quality before retrying."@,
{
    String::from_str(
        "GPU memory was exhausted. AuRaw cancelled the operation and released optional preview textures. Close other GPU-heavy apps or lower Preview Quality before retrying.",
    )
}

/// Whether the signal is raised after recording `error`, from `raised`.
pub open spec fn record_step(raised: bool, error: GpuErrorKind) -> bool {
    raised || error is OutOfMemory
}

/// Whether the signal is raised after recording `errors` in order, from
/// `raised`.
pub open spec fn raised_after(raised: bool, errors: Seq<GpuErrorKind>) -> bool
    decreases errors.len(),
{
    if errors.len() == 0 {
        raised
    } else {
        record_step(raised_after(raised, errors.drop_last()), errors.last())
    }
}

/// A take reports exactly whether an out-of-memory error was recorded
/// since the previous take (or since the signal was made): starting from a
/// quiet signal, recording `errors` one after another leaves it raised
/// exactly when one of them is an out-of-memory error; validation and
/// internal errors never raise it.
pub proof fn lemma_take_reports_out_of_memory_since_last_take(errors: Seq<GpuErrorKind>)
    ensures
        raised_after(false, errors) <==> exists|i: int|
            0 <= i < errors.len() && #[trigger] errors[i] is OutOfMemory,
    decreases errors.len(),
{
    if errors.len() > 0 {
        let earlier = errors.drop_last();
        lemma_take_reports_out_of_memory_since_last_take(earlier);
        if raised_after(false, earlier) {
            let i = choose|i: int| 0 <= i < earlier.len() && #[trigger] earlier[i] is OutOfMemory;
            assert(errors[i] == earlier[i]);
        }
        if errors.last() is OutOfMemory {
            assert(errors[errors.len() - 1] is OutOfMemory);
        }
        if exists|i: int| 0 <= i < errors.len() && #[trigger] errors[i] is OutOfMemory {
            let i = choose|i: int| 0 <= i < errors.len() && #[trigger] errors[i] is OutOfMemory;
            if i < errors.len() - 1 {
                assert(earlier[i] == errors[i]);
            }
        }
    }
}


/// The same law over calls. `signals[k]` is the signal after the first `k`
/// errors were recorded, each by a call of `record_gpu_error` (whose
/// contract relates consecutive states by `record_step`), starting from the
/// quiet signal that the previous take left. The next take then reports
/// exactly whether one of the errors was an out-of-memory error, and a take
/// right after it reports nothing.
pub proof fn lemma_take_after_recorded_errors(errors: Seq<GpuErrorKind>, signals: Seq<OomSignal>)
    requires
        signals.len() == errors.len() + 1,
        !signals[0].is_raised(),
        forall|k: int|
            0 <= k < errors.len() ==> #[trigger] signals[k + 1].is_raised() == record_step(
                signals[k].is_raised(),
                errors[k],
            ),
    ensures
        signals.last().after_take().0 <==> exists|i: int|
            0 <= i < errors.len() && #[trigger] errors[i] is OutOfMemory,
        !signals.last().after_take().1.after_take().0,
{
    lemma_signals_follow_recorded_errors(errors, signals, errors.len() as int);
    assert(errors.take(errors.len() as int) =~= errors);
    lemma_take_reports_out_of_memory_since_last_take(errors);
}

proof fn lemma_signals_follow_recorded_errors(
    errors: Seq<GpuErrorKind>,
    signals: Seq<OomSignal>,
    n: int,
)
    requires
        signals.len() == errors.len() + 1,
        !signals[0].is_raised(),
        forall|k: int|
            0 <= k < errors.len() ==> #[trigger] signals[k + 1].is_raised() == record_step(
                signals[k].is_raised(),
                errors[k],
            ),
        0 <= n <= errors.len(),
    ensures
        signals[n].is_raised() == raised_after(false, errors.take(n)),
    decreases n,
{
    if n > 0 {
        lemma_signals_follow_recorded_errors(errors, signals, n - 1);
        assert(errors.take(n).drop_last() =~= errors.take(n - 1));
        assert(signals[(n - 1) + 1].is_raised() == record_step(
            signals[n - 1].is_raised(),
            errors[n - 1],
        ));
    }
}

} // verus!
