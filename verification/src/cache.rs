//! Resolving one tile against the cache on disk and the tile service.
//!
//! The cache keeps one file for each key. A resolution looks the file up; if
//! it is missing, the tile is fetched, made ready and stored; then the file
//! is read and decoded. Reading, writing and fetching are done by the caller:
//! the resolution says what to do next and takes the answer as an event.

use crate::error::TileError;
use crate::key::{cache_directory, cache_directory_text, cache_path, file_name_text, path_text,
    url_text, TileKey};
use crate::raster::{load_cached, loaded, prepare_for_cache, prepared, Raster, RasterView};
use vstd::prelude::*;

verus! {

/// How far a resolution has come.
#[derive(Clone, Copy, Debug, PartialEq, Eq, Structural)]
pub enum Phase {
    /// Waiting to learn whether the cache holds the file.
    Probing,
    /// Waiting for the answer of the tile service.
    Fetching,
    /// Waiting for the prepared file to be written.
    Storing,
    /// Waiting for the content of the cached file.
    Loading,
    /// The outcome has been given.
    Finished,
}

/// What the caller reports back to a resolution.
#[derive(Debug, PartialEq, Eq)]
pub enum Event {
    /// The cache holds the file.
    Found,
    /// The cache does not hold the file.
    Missing,
    /// The tile service answered with these bytes.
    Body(Vec<u8>),
    /// The file has been written.
    Stored,
    /// The file holds these bytes.
    Content(Vec<u8>),
    /// The tile service could not be reached or answered with a failure.
    NetworkFailed,
    /// The answer of the tile service was longer than the limit.
    BodyTooLong,
    /// The cache could not be read or written.
    StorageFailed,
}

/// What an event is to a contract.
pub enum EventView {
    Found,
    Missing,
    Body(Seq<u8>),
    Stored,
    Content(Seq<u8>),
    NetworkFailed,
    BodyTooLong,
    StorageFailed,
}

impl View for Event {
    type V = EventView;

    open spec fn view(&self) -> EventView {
        match *self {
            Event::Found => EventView::Found,
            Event::Missing => EventView::Missing,
            Event::Body(bytes) => EventView::Body(bytes@),
            Event::Stored => EventView::Stored,
            Event::Content(bytes) => EventView::Content(bytes@),
            Event::NetworkFailed => EventView::NetworkFailed,
            Event::BodyTooLong => EventView::BodyTooLong,
            Event::StorageFailed => EventView::StorageFailed,
        }
    }
}

/// What a resolution asks the caller to do.
#[derive(Debug, PartialEq, Eq)]
pub enum Action {
    /// Look whether the file of the resolution exists.
    Probe,
    /// Fetch the address of the resolution, reading no more than the
    /// accepted number of bytes.
    Fetch,
    /// Write these bytes to the file of the resolution.
    Store(Vec<u8>),
    /// Read the file of the resolution.
    Load,
    /// Nothing more: this is the outcome.
    Done(Result<Raster, TileError>),
}

/// What an action is to a contract.
pub enum ActionView {
    Probe,
    Fetch,
    Store(Seq<u8>),
    Load,
    Done(Result<RasterView, TileError>),
}

impl View for Action {
    type V = ActionView;

    open spec fn view(&self) -> ActionView {
        match *self {
            Action::Probe => ActionView::Probe,
            Action::Fetch => ActionView::Fetch,
            Action::Store(bytes) => ActionView::Store(bytes@),
            Action::Load => ActionView::Load,
            Action::Done(Ok(raster)) => ActionView::Done(Ok(raster@)),
            Action::Done(Err(failure)) => ActionView::Done(Err(failure)),
        }
    }
}

/// The outcome of a resolution that fails.
pub open spec fn failed(failure: TileError) -> (Phase, ActionView) {
    (Phase::Finished, ActionView::Done(Err(failure)))
}

/// The next phase and action of a resolution in `phase` that is told `event`.
///
/// A file that is found is read; one that is missing is fetched. A fetched
/// body is made ready and stored, a stored file is read, and the content
/// read is decoded into the outcome. A failure of the network or of the
/// cache ends the resolution, and so does an event that does not answer the
/// action of the phase: it counts as a failure of the cache.
pub open spec fn next_step(phase: Phase, event: EventView) -> (Phase, ActionView) {
    match event {
        EventView::NetworkFailed => failed(TileError::Network),
        EventView::BodyTooLong => failed(TileError::OversizedBody),
        EventView::StorageFailed => failed(TileError::Storage),
        EventView::Found => if phase == Phase::Probing {
            (Phase::Loading, ActionView::Load)
        } else {
            failed(TileError::Storage)
        },
        EventView::Missing => if phase == Phase::Probing {
            (Phase::Fetching, ActionView::Fetch)
        } else {
            failed(TileError::Storage)
        },
        EventView::Body(body) => if phase == Phase::Fetching {
            match prepared(body) {
                Ok(encoded) => (Phase::Storing, ActionView::Store(encoded)),
                Err(failure) => failed(failure),
            }
        } else {
            failed(TileError::Storage)
        },
        EventView::Stored => if phase == Phase::Storing {
            (Phase::Loading, ActionView::Load)
        } else {
            failed(TileError::Storage)
        },
        EventView::Content(content) => if phase == Phase::Loading {
            (Phase::Finished, ActionView::Done(loaded(content)))
        } else {
            failed(TileError::Storage)
        },
    }
}

/// What the caller of a resolution answers to an action, over a cache that
/// nobody else touches: `cached` is what the file of the key holds, if it
/// exists, and `service` the event that a fetch ends with. Given are the
/// event and what the file holds after the action.
pub open spec fn answer(action: ActionView, cached: Option<Seq<u8>>, service: EventView) -> (
    EventView,
    Option<Seq<u8>>,
) {
    match action {
        ActionView::Probe => (
            if cached is Some {
                EventView::Found
            } else {
                EventView::Missing
            },
            cached,
        ),
        ActionView::Fetch => (service, cached),
        ActionView::Store(bytes) => (EventView::Stored, Some(bytes)),
        ActionView::Load => (
            match cached {
                Some(content) => EventView::Content(content),
                None => EventView::StorageFailed,
            },
            cached,
        ),
        ActionView::Done(_) => (EventView::StorageFailed, cached),
    }
}

/// How a resolution ended: its outcome, what the file of the key holds
/// afterwards, and how often the tile service was asked.
pub struct Run {
    pub outcome: Result<RasterView, TileError>,
    pub cached: Option<Seq<u8>>,
    pub fetches: nat,
}

/// A resolution in `phase` that has just asked for `action`, carried on for
/// at most `steps` answers.
pub open spec fn run_from(
    phase: Phase,
    action: ActionView,
    cached: Option<Seq<u8>>,
    service: EventView,
    steps: nat,
) -> Run
    decreases steps,
{
    match action {
        ActionView::Done(outcome) => Run { outcome, cached, fetches: 0 },
        _ => if steps == 0 {
            Run { outcome: Err(TileError::Storage), cached, fetches: 0 }
        } else {
            let (event, cached_after) = answer(action, cached, service);
            let (next_phase, next_action) = next_step(phase, event);
            let rest = run_from(next_phase, next_action, cached_after, service, (steps - 1) as nat);
            Run {
                outcome: rest.outcome,
                cached: rest.cached,
                fetches: rest.fetches + if action is Fetch {
                    1nat
                } else {
                    0nat
                },
            }
        },
    }
}

/// A whole resolution, from its first action to its outcome. No resolution
/// takes more than four answers.
pub open spec fn resolution_run(cached: Option<Seq<u8>>, service: EventView) -> Run {
    run_from(Phase::Probing, ActionView::Probe, cached, service, 4)
}

/// A resolution that reads a file which exists ends with what the file
/// decodes to, and neither fetches nor writes.
proof fn lemma_run_loading(content: Seq<u8>, service: EventView, steps: nat)
    requires
        steps >= 1,
    ensures
        run_from(Phase::Loading, ActionView::Load, Some(content), service, steps) == (Run {
            outcome: loaded(content),
            cached: Some(content),
            fetches: 0,
        }),
{
    reveal_with_fuel(run_from, 2);
}

/// A resolution that stores a prepared file ends with what that file
/// decodes to, and leaves it in the cache.
proof fn lemma_run_storing(
    encoded: Seq<u8>,
    cached: Option<Seq<u8>>,
    service: EventView,
    steps: nat,
)
    requires
        steps >= 2,
    ensures
        run_from(Phase::Storing, ActionView::Store(encoded), cached, service, steps) == (Run {
            outcome: loaded(encoded),
            cached: Some(encoded),
            fetches: 0,
        }),
{
    reveal_with_fuel(run_from, 1);
    lemma_run_loading(encoded, service, (steps - 1) as nat);
}

/// A resolution that finds the file in the cache does not ask the tile
/// service, and its outcome is what the file decodes to.
pub proof fn lemma_cache_hit(content: Seq<u8>, service: EventView)
    ensures
        resolution_run(Some(content), service) == (Run {
            outcome: loaded(content),
            cached: Some(content),
            fetches: 0,
        }),
{
    reveal_with_fuel(run_from, 1);
    lemma_run_loading(content, service, 3);
}

/// A resolution that does not find the file asks the tile service once. It
/// stores what it made of the answer and ends with what the stored file
/// decodes to; where the fetch fails or the answer cannot be made ready, it
/// ends with that failure and stores nothing.
pub proof fn lemma_cache_miss(service: EventView)
    ensures
        resolution_run(None, service) == (match service {
            EventView::Body(body) => match prepared(body) {
                Ok(encoded) => Run {
                    outcome: loaded(encoded),
                    cached: Some(encoded),
                    fetches: 1,
                },
                Err(failure) => Run { outcome: Err(failure), cached: None, fetches: 1 },
            },
            EventView::NetworkFailed => Run {
                outcome: Err(TileError::Network),
                cached: None,
                fetches: 1,
            },
            EventView::BodyTooLong => Run {
                outcome: Err(TileError::OversizedBody),
                cached: None,
                fetches: 1,
            },
            _ => Run { outcome: Err(TileError::Storage), cached: None, fetches: 1 },
        }),
{
    reveal_with_fuel(run_from, 3);
    let fetched = next_step(Phase::Fetching, service);
    assert(resolution_run(None, service) == (Run {
        outcome: run_from(fetched.0, fetched.1, None, service, 2).outcome,
        cached: run_from(fetched.0, fetched.1, None, service, 2).cached,
        fetches: run_from(fetched.0, fetched.1, None, service, 2).fetches + 1,
    }));
    match service {
        EventView::Body(body) => match prepared(body) {
            Ok(encoded) => {
                lemma_run_storing(encoded, None, service, 2);
            },
            Err(_) => {},
        },
        _ => {},
    }
}

/// Resolving is idempotent. Over a cache that nobody else touches, a
/// resolution that gives an image leaves the cache such that a second
/// resolution of the same key gives the same image, asks the tile service
/// for nothing and leaves the cache as it is, whatever the tile service
/// would answer then. The two together ask the tile service at most once.
pub proof fn lemma_resolve_idempotent(
    cached: Option<Seq<u8>>,
    first_service: EventView,
    second_service: EventView,
)
    requires
        resolution_run(cached, first_service).outcome is Ok,
    ensures
        ({
            let first = resolution_run(cached, first_service);
            let second = resolution_run(first.cached, second_service);
            &&& second.outcome == first.outcome
            &&& second.cached == first.cached
            &&& second.fetches == 0
            &&& first.fetches + second.fetches <= 1
        }),
{
    match cached {
        Some(content) => {
            lemma_cache_hit(content, first_service);
            lemma_cache_hit(content, second_service);
        },
        None => {
            lemma_cache_miss(first_service);
            let first = resolution_run(cached, first_service);
            assert(first.cached is Some);
            lemma_cache_hit(first.cached->0, second_service);
        },
    }
}

/// The directory of the cache.
pub struct TileCache {
    pub directory: String,
}

/// The resolution of one tile: the file and the address that its actions
/// speak of, and how far it has come.
pub struct Resolution {
    pub key: TileKey,
    pub path: String,
    pub url: String,
    pub phase: Phase,
}

impl TileCache {
    /// The cache in the directory that the environment gives: `cache_home`
    /// is the cache directory that it names, if it names one, and `user` the
    /// name of the user.
    pub fn locate(cache_home: Option<&str>, user: &str) -> (cache: TileCache)
        ensures
            cache.directory@ == cache_directory_text(
                match cache_home {
                    Some(home) => Some(home@),
                    None => None,
                },
                user@,
            ),
    {
        TileCache { directory: cache_directory(cache_home, user) }
    }

    /// Starts the resolution of the tile of `key`. Its first action is to
    /// look whether the file exists.
    pub fn resolve(&self, key: TileKey) -> (start: (Resolution, Action))
        ensures
            start.0.key == key,
            start.0.path@ == path_text(self.directory@, file_name_text(key)),
            start.0.url@ == url_text(key),
            start.0.phase == Phase::Probing,
            start.1@ == ActionView::Probe,
    {
        let resolution = Resolution {
            key,
            path: cache_path(self.directory.as_str(), &key),
            url: key.url(),
            phase: Phase::Probing,
        };
        (resolution, Action::Probe)
    }
}

impl Resolution {
    /// Takes the answer to the last action and says what to do next.
    pub fn step(&mut self, event: Event) -> (action: Action)
        ensures
            (final(self).phase, action@) == next_step(old(self).phase, event@),
            final(self).key == old(self).key,
            final(self).path == old(self).path,
            final(self).url == old(self).url,
            action matches Action::Done(Ok(raster)) ==> raster.wf(),
    {
        let phase = self.phase;
        self.phase = Phase::Finished;
        match event {
            Event::NetworkFailed => Action::Done(Err(TileError::Network)),
            Event::BodyTooLong => Action::Done(Err(TileError::OversizedBody)),
            Event::StorageFailed => Action::Done(Err(TileError::Storage)),
            Event::Found => match phase {
                Phase::Probing => {
                    self.phase = Phase::Loading;
                    Action::Load
                },
                _ => Action::Done(Err(TileError::Storage)),
            },
            Event::Missing => match phase {
                Phase::Probing => {
                    self.phase = Phase::Fetching;
                    Action::Fetch
                },
                _ => Action::Done(Err(TileError::Storage)),
            },
            Event::Body(body) => match phase {
                Phase::Fetching => match prepare_for_cache(body.as_slice()) {
                    Ok(encoded) => {
                        self.phase = Phase::Storing;
                        Action::Store(encoded)
                    },
                    Err(failure) => Action::Done(Err(failure)),
                },
                _ => Action::Done(Err(TileError::Storage)),
            },
            Event::Stored => match phase {
                Phase::Storing => {
                    self.phase = Phase::Loading;
                    Action::Load
                },
                _ => Action::Done(Err(TileError::Storage)),
            },
            Event::Content(content) => match phase {
                Phase::Loading => Action::Done(load_cached(content.as_slice())),
                _ => Action::Done(Err(TileError::Storage)),
            },
        }
    }
}

} // verus!
