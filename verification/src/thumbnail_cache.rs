//! What the settings page shows of the thumbnail cache: its measured size,
//! measured by a worker, and the outcome of clearing it.
use vstd::prelude::*;

verus! {

/// What the worker's channel answered when polled.
pub enum CacheSizeAnswer {
    /// The worker sent its measurement, or the error it met.
    Measured(Result<u64, String>),
    /// The worker went away without sending anything.
    WorkerStopped,
    /// Nothing has arrived yet.
    Pending,
}

/// What the size line of the settings page says.
#[derive(Clone, Copy, Debug, PartialEq, Eq, Structural)]
pub enum CacheSizeLabel {
    /// The cache is empty.
    Empty,
    /// Under a tenth of a megabyte.
    UnderATenth,
    /// This many bytes, shown in megabytes with one decimal.
    Megabytes(u64),
    /// The size could not be measured.
    Unavailable,
    /// A measurement is under way.
    Calculating,
}

/// Smallest size shown in megabytes rather than as under a tenth.
pub const TENTH_OF_A_MEGABYTE: u64 = 100_000;

/// The label for what is known of the size.
pub open spec fn spec_label(size: Option<Result<u64, String>>) -> CacheSizeLabel {
    match size {
        Some(Ok(bytes)) => if bytes == 0 {
            CacheSizeLabel::Empty
        } else if bytes < TENTH_OF_A_MEGABYTE {
            CacheSizeLabel::UnderATenth
        } else {
            CacheSizeLabel::Megabytes(bytes)
        },
        Some(Err(_)) => CacheSizeLabel::Unavailable,
        None => CacheSizeLabel::Calculating,
    }
}

/// The text of a label, for all but `Megabytes`, whose number is written
/// with one decimal by the caller.
pub open spec fn spec_label_text(label: CacheSizeLabel) -> Option<Seq<char>> {
    match label {
        CacheSizeLabel::Empty => Some("0 MB used"@),
        CacheSizeLabel::UnderATenth => Some("<0.1 MB used"@),
        CacheSizeLabel::Megabytes(_) => None,
        CacheSizeLabel::Unavailable => Some("Size unavailable"@),
        CacheSizeLabel::Calculating => Some("Calculating size…"@),
    }
}

/// The error kept when the worker stops without answering.
pub open spec fn stopped_worker_error() -> Seq<char> {
    "thumbnail cache size worker stopped unexpectedly"@
}

/// The error kept when no worker could be started.
pub open spec fn worker_start_error(error: Seq<char>) -> Seq<char> {
    "could not start cache size worker: "@ + error
}

/// The notice after clearing the cache.
pub open spec fn clear_notice(result: Result<(), Seq<char>>) -> Seq<char> {
    match result {
        Ok(()) => "Thumbnail cache cleared. Rebuilding previews…"@,
        Err(error) => "Could not clear thumbnail cache: "@ + error,
    }
}

/// The view of a kept size, its error taken as text.
pub open spec fn size_view(size: Option<Result<u64, String>>) -> Option<Result<u64, Seq<char>>> {
    match size {
        Some(Ok(bytes)) => Some(Ok(bytes)),
        Some(Err(error)) => Some(Err(error@)),
        None => None,
    }
}

impl CacheSizeLabel {
    /// The label's text; `None` for `Megabytes`.
    pub fn text(self) -> (text: Option<String>)
        ensures
            match (text, spec_label_text(self)) {
                (Some(t), Some(s)) => t@ == s,
                (None, None) => true,
                _ => false,
            },
    {
        match self {
            CacheSizeLabel::Empty => {
                proof {
                    reveal_strlit("0 MB used");
                }
                Some(String::from_str("0 MB used"))
            },
            CacheSizeLabel::UnderATenth => {
                proof {
                    reveal_strlit("<0.1 MB used");
                }
                Some(String::from_str("<0.1 MB used"))
            },
            CacheSizeLabel::Megabytes(_) => None,
            CacheSizeLabel::Unavailable => {
                proof {
                    reveal_strlit("Size unavailable");
                }
                Some(String::from_str("Size unavailable"))
            },
            CacheSizeLabel::Calculating => {
                proof {
                    reveal_strlit("Calculating size…");
                }
                Some(String::from_str("Calculating size…"))
            },
        }
    }
}

/// What is known of the cache's size, and whether a worker is measuring it.
pub struct ThumbnailCacheSize {
    pub size: Option<Result<u64, String>>,
    pub measuring: bool,
}

impl ThumbnailCacheSize {
    /// Nothing measured and no worker.
    pub fn new() -> (state: Self)
        ensures
            state.size is None,
            !state.measuring,
    {
        ThumbnailCacheSize { size: None, measuring: false }
    }

    /// Takes in the worker's answer, when a worker is measuring: a
    /// measurement or an error is kept and the worker is done; a worker
    /// that stopped leaves an error; with nothing yet, nothing changes.
    pub fn poll(&mut self, answer: CacheSizeAnswer)
        ensures
            !old(self).measuring ==> *final(self) == *old(self),
            old(self).measuring ==> match answer {
                CacheSizeAnswer::Measured(result) => {
                    &&& final(self).size == Some(result)
                    &&& !final(self).measuring
                },
                CacheSizeAnswer::WorkerStopped => {
                    &&& size_view(final(self).size) == Some(
                        Err::<u64, Seq<char>>(stopped_worker_error()),
                    )
                    &&& !final(self).measuring
                },
                CacheSizeAnswer::Pending => *final(self) == *old(self),
            },
    {
        if !self.measuring {
            return;
        }
        match answer {
            CacheSizeAnswer::Measured(result) => {
                self.size = Some(result);
                self.measuring = false;
            },
            CacheSizeAnswer::WorkerStopped => {
                proof {
                    reveal_strlit("thumbnail cache size worker stopped unexpectedly");
                }
                self.size = Some(
                    Err(String::from_str("thumbnail cache size worker stopped unexpectedly")),
                );
                self.measuring = false;
            },
            CacheSizeAnswer::Pending => {},
        }
    }

    /// Whether a worker should start measuring: nothing is known and none
    /// is at work.
    pub fn needs_worker(&self) -> (needed: bool)
        ensures
            needed == (self.size is None && !self.measuring),
    {
        self.size.is_none() && !self.measuring
    }

    /// A worker was started.
    pub fn worker_started(&mut self)
        ensures
            final(self).measuring,
            final(self).size == old(self).size,
    {
        self.measuring = true;
    }

    /// No worker could be started, for `error`; the size is then
    /// unavailable.
    pub fn worker_failed(&mut self, error: &str)
        ensures
            size_view(final(self).size) == Some(Err::<u64, Seq<char>>(worker_start_error(error@))),
            final(self).measuring == old(self).measuring,
    {
        let mut text = String::from_str("could not start cache size worker: ");
        text.append(error);
        proof {
            reveal_strlit("could not start cache size worker: ");
        }
        self.size = Some(Err(text));
    }

    /// What the size line says.
    pub fn label(&self) -> (label: CacheSizeLabel)
        ensures
            label == spec_label(self.size),
    {
        match &self.size {
            Some(Ok(bytes)) => {
                if *bytes == 0 {
                    CacheSizeLabel::Empty
                } else if *bytes < TENTH_OF_A_MEGABYTE {
                    CacheSizeLabel::UnderATenth
                } else {
                    CacheSizeLabel::Megabytes(*bytes)
                }
            },
            Some(Err(_)) => CacheSizeLabel::Unavailable,
            None => CacheSizeLabel::Calculating,
        }
    }

    /// Clearing begins: what was measured, and any worker's answer, no
    /// longer count.
    pub fn clearing(&mut self)
        ensures
            final(self).size is None,
            !final(self).measuring,
    {
        self.size = None;
        self.measuring = false;
    }

    /// Clearing ended with `result`. On success the cache is known to be
    /// empty. Returns the notice to show.
    pub fn cleared(&mut self, result: Result<(), String>) -> (notice: String)
        ensures
            notice@ == clear_notice(match result {
                Ok(()) => Ok(()),
                Err(error) => Err(error@),
            }),
            result is Ok ==> final(self).size == Some(Ok::<u64, String>(0)),
            result is Err ==> final(self).size == old(self).size,
            final(self).measuring == old(self).measuring,
    {
        match result {
            Ok(()) => {
                self.size = Some(Ok(0));
                proof {
                    reveal_strlit("Thumbnail cache cleared. Rebuilding previews…");
                }
                String::from_str("Thumbnail cache cleared. Rebuilding previews…")
            },
            Err(error) => {
                let mut notice = String::from_str("Could not clear thumbnail cache: ");
                notice.append(error.as_str());
                proof {
                    reveal_strlit("Could not clear thumbnail cache: ");
                }
                notice
            },
        }
    }
}

/// The library status after clearing the cache failed.
pub fn clear_failure_status() -> (status: String)
    ensures
        status@ == "Could not clear the thumbnail cache."@,
{
    String::from_str("Could not clear the thumbnail cache.")
}

/// The notice after AI GPU acceleration was switched on or off.
pub open spec fn spec_acceleration_notice(enabled: bool) -> Seq<char> {
    if enabled {
        "AI GPU acceleration enabled. New AI model sessions will use it when available."@
    } else {
        "AI GPU acceleration disabled. New AI model sessions will run on CPU."@
    }
}

/// The notice after AI GPU acceleration was switched on or off.
pub fn acceleration_notice(enabled: bool) -> (notice: String)
    ensures
        notice@ == spec_acceleration_notice(enabled),
{
    if enabled {
        String::from_str(
            "AI GPU acceleration enabled. New AI model sessions will use it when available.",
        )
    } else {
        String::from_str("AI GPU acceleration disabled. New AI model sessions will run on CPU.")
    }
}

} // verus!
