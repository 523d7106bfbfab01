//! The thumbnail shown in Develop while a RAW opens: taken from the
//! library's cache when it has one, else decoded by a worker; a decoded
//! thumbnail for another document, or one that arrives after a texture was
//! found, is discarded.
use vstd::prelude::*;

verus! {

/// What the decoding worker reported for a document.
#[derive(Clone, Copy, Debug, PartialEq, Eq, Structural)]
pub enum ThumbnailOutcome {
    /// A cached thumbnail was decoded.
    Found,
    /// The cache holds no thumbnail for the document.
    NotFound,
    /// Reading the cache failed.
    Failed,
}

/// What polling the worker gave.
pub enum ThumbnailAnswer {
    /// Nothing has arrived yet.
    Pending,
    /// The worker went away without an answer.
    Stopped,
    /// The worker's answer for the document `source`.
    Loaded { source: String, outcome: ThumbnailOutcome },
}

/// What to do with the worker's answer.
#[derive(Clone, Copy, Debug, PartialEq, Eq, Structural)]
pub enum ThumbnailAction {
    /// Keep waiting.
    Wait,
    /// Drop the answer.
    Discard,
    /// Make a texture of the decoded thumbnail and `install` it.
    Install,
    /// Drop the answer and log the error it carries.
    Report,
}

/// The loading thumbnail of the document being opened. `Texture` is the
/// GUI's texture handle.
pub struct LoadingThumbnail<Texture> {
    /// The document being opened.
    pub source: Option<String>,
    pub texture: Option<Texture>,
    pub texture_size: Option<[u32; 2]>,
    /// A decoding worker was started and has not answered.
    pub worker_running: bool,
}

/// The action for `answer` while `source` opens, with or without a texture.
pub open spec fn spec_answer_action(
    source: Option<Seq<char>>,
    has_texture: bool,
    answer: ThumbnailAnswer,
) -> ThumbnailAction {
    match answer {
        ThumbnailAnswer::Pending => ThumbnailAction::Wait,
        ThumbnailAnswer::Stopped => ThumbnailAction::Discard,
        ThumbnailAnswer::Loaded { source: loaded, outcome } => if source != Some(loaded@)
            || has_texture {
            ThumbnailAction::Discard
        } else {
            match outcome {
                ThumbnailOutcome::Found => ThumbnailAction::Install,
                ThumbnailOutcome::NotFound => ThumbnailAction::Discard,
                ThumbnailOutcome::Failed => ThumbnailAction::Report,
            }
        },
    }
}

pub open spec fn source_view(source: Option<String>) -> Option<Seq<char>> {
    match source {
        Some(s) => Some(s@),
        None => None,
    }
}

impl<Texture> LoadingThumbnail<Texture> {
    /// No document, no texture, no worker.
    pub fn new() -> (state: Self)
        ensures
            state.source is None,
            state.texture is None,
            state.texture_size is None,
            !state.worker_running,
    {
        LoadingThumbnail { source: None, texture: None, texture_size: None, worker_running: false }
    }

    /// Forgets the loading thumbnail; an answer still on its way is ignored.
    pub fn clear(&mut self)
        ensures
            final(self).source is None,
            final(self).texture is None,
            final(self).texture_size is None,
            !final(self).worker_running,
    {
        self.source = None;
        self.texture = None;
        self.texture_size = None;
        self.worker_running = false;
    }

    /// Starts showing the loading thumbnail of `source`, with the library's
    /// cached texture when it has one. Returns whether a worker must decode
    /// the thumbnail: exactly when no cached texture was found.
    pub fn prepare(&mut self, source: String, cached: Option<(Texture, [u32; 2])>) -> (start_worker:
        bool)
        ensures
            source_view(final(self).source) == Some(source@),
            !final(self).worker_running,
            match cached {
                Some((texture, size)) => {
                    &&& final(self).texture == Some(texture)
                    &&& final(self).texture_size == Some(size)
                    &&& !start_worker
                },
                None => {
                    &&& final(self).texture is None
                    &&& final(self).texture_size is None
                    &&& start_worker
                },
            },
    {
        self.clear();
        self.source = Some(source);
        match cached {
            Some((texture, size)) => {
                self.texture = Some(texture);
                self.texture_size = Some(size);
                false
            },
            None => true,
        }
    }

    /// A decoding worker was started.
    pub fn worker_started(&mut self)
        ensures
            final(self).worker_running,
            final(self).source == old(self).source,
            final(self).texture == old(self).texture,
            final(self).texture_size == old(self).texture_size,
    {
        self.worker_running = true;
    }

    /// The library's cache may have the texture by now: it is taken while a
    /// document opens and no texture is shown.
    pub fn offer_cached(&mut self, cached: Option<(Texture, [u32; 2])>)
        ensures
            final(self).source == old(self).source,
            final(self).worker_running == old(self).worker_running,
            (old(self).source is Some && old(self).texture is None && cached is Some) ==> {
                &&& final(self).texture == Some(cached->Some_0.0)
                &&& final(self).texture_size == Some(cached->Some_0.1)
            },
            !(old(self).source is Some && old(self).texture is None && cached is Some) ==> {
                &&& final(self).texture == old(self).texture
                &&& final(self).texture_size == old(self).texture_size
            },
    {
        if self.source.is_none() || self.texture.is_some() {
            return;
        }
        match cached {
            Some((texture, size)) => {
                self.texture = Some(texture);
                self.texture_size = Some(size);
            },
            None => {},
        }
    }

    /// Takes in the worker's answer while a document opens (with no
    /// document, or no worker, nothing is polled). A delivered answer ends
    /// the worker; it is installed only for the document still opening and
    /// only while no texture is shown.
    pub fn worker_answer(&mut self, answer: ThumbnailAnswer) -> (action: ThumbnailAction)
        ensures
            final(self).source == old(self).source,
            final(self).texture == old(self).texture,
            final(self).texture_size == old(self).texture_size,
            (old(self).source is None || !old(self).worker_running) ==> {
                &&& action == ThumbnailAction::Wait
                &&& final(self).worker_running == old(self).worker_running
            },
            (old(self).source is Some && old(self).worker_running) ==> {
                &&& action == spec_answer_action(
                    source_view(old(self).source),
                    old(self).texture is Some,
                    answer,
                )
                &&& final(self).worker_running == (answer is Pending)
            },
    {
        if self.source.is_none() || !self.worker_running {
            return ThumbnailAction::Wait;
        }
        match answer {
            ThumbnailAnswer::Pending => ThumbnailAction::Wait,
            ThumbnailAnswer::Stopped => {
                self.worker_running = false;
                ThumbnailAction::Discard
            },
            ThumbnailAnswer::Loaded { source, outcome } => {
                self.worker_running = false;
                let same = match &self.source {
                    Some(current) => current.eq(&source),
                    None => false,
                };
                if !same || self.texture.is_some() {
                    ThumbnailAction::Discard
                } else {
                    match outcome {
                        ThumbnailOutcome::Found => ThumbnailAction::Install,
                        ThumbnailOutcome::NotFound => ThumbnailAction::Discard,
                        ThumbnailOutcome::Failed => ThumbnailAction::Report,
                    }
                }
            },
        }
    }

    /// Shows the texture made of the decoded thumbnail.
    pub fn install(&mut self, texture: Texture, size: [u32; 2])
        ensures
            final(self).texture == Some(texture),
            final(self).texture_size == Some(size),
            final(self).source == old(self).source,
            final(self).worker_running == old(self).worker_running,
    {
        self.texture = Some(texture);
        self.texture_size = Some(size);
    }
}

} // verus!
