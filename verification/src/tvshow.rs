//! The metadata-resolution pipeline for one classified episode.
//!
//! The pipeline is a step machine: `process` takes the machine and the event
//! the caller observed (a sidecar read, a network refresh, a write, …) and
//! answers with the next step to perform. The caller performs every network
//! and filesystem effect; the machine makes every decision, computes every
//! canonical path, and its contract pins the whole order of the pipeline:
//! a failed fetch is terminal before anything is written, the show sidecar
//! is written before its thumbnails are fetched, the move is handed off
//! before the episode sidecar is written, and thumbnail trouble never rolls
//! back a completed write.

use vstd::prelude::*;

use crate::matcher::ProviderKnown;
use crate::naming::{
    episode_stem, extension_of, file_name_of, join_path, make_valid_pathname, season_folder_name,
    spec_episode_stem, spec_extension, spec_file_name, spec_sanitize, spec_season_folder,
};

verus! {

// ---------------------------------------------------------------------------
// Records
// ---------------------------------------------------------------------------

/// A show-level thumbnail the provider refers to: where to put it (a file
/// name inside the show folder) and where to get it.
pub struct ThumbRef {
    pub file_name: String,
    pub url: String,
}

/// The show-level metadata record the sidecar codec and the provider client
/// exchange with the pipeline. Only what the pipeline itself reads is
/// modeled; the sidecar's full schema belongs to the codec.
pub struct ShowRecord {
    pub id: String,
    pub provider: ProviderKnown,
    pub fallback_lang: String,
    pub thumbs: Vec<ThumbRef>,
}

/// An episode-level thumbnail: where to get it, and the extension (with its
/// leading dot) to append to the canonical `-thumb` file.
pub struct EpisodeThumb {
    pub url: String,
    pub ext: String,
}

/// The episode-level metadata record.
pub struct EpisodeRecord {
    pub id: String,
    pub provider: ProviderKnown,
    pub title: String,
    pub thumb: Option<EpisodeThumb>,
}

/// One show-thumbnail download: the full destination path and the source.
pub struct ThumbJob {
    pub path: String,
    pub url: String,
}

/// How a pipeline run fails.
#[derive(Clone, Copy, Debug, PartialEq, Eq, Structural)]
pub enum TvshowNfoServiceError {
    /// A provider fetch failed; the run is over and nothing of that level
    /// was written.
    NetworkError,
    /// The episode thumbnail could not be placed beside the episode; the
    /// already-written files stand.
    NfoCreateError,
}

fn clone_thumbs(v: &Vec<ThumbRef>) -> (r: Vec<ThumbRef>)
    ensures
        r@ == v@,
{
    let mut r: Vec<ThumbRef> = Vec::new();
    let n: usize = v.len();
    let mut i: usize = 0;
    while i < n
        invariant
            i <= n,
            n == v@.len(),
            r@ == v@.take(i as int),
        decreases n - i,
    {
        r.push(ThumbRef { file_name: v[i].file_name.clone(), url: v[i].url.clone() });
        proof {
            assert(v@.take(i + 1) =~= v@.take(i as int).push(v@[i as int]));
            assert(v@[i as int] == (ThumbRef {
                file_name: v@[i as int].file_name,
                url: v@[i as int].url,
            }));
        }
        i = i + 1;
    }
    proof {
        assert(v@.take(n as int) =~= v@);
    }
    r
}

/// Two show records with the same content (their thumbnail lists compared
/// by view, as two vectors are).
pub open spec fn show_eq(a: ShowRecord, b: ShowRecord) -> bool {
    a.id == b.id && a.provider == b.provider && a.fallback_lang == b.fallback_lang && a.thumbs@
        == b.thumbs@
}

fn clone_show(r: &ShowRecord) -> (c: ShowRecord)
    ensures
        show_eq(c, *r),
{
    ShowRecord {
        id: r.id.clone(),
        provider: r.provider,
        fallback_lang: r.fallback_lang.clone(),
        thumbs: clone_thumbs(&r.thumbs),
    }
}

fn clone_episode(r: &EpisodeRecord) -> (c: EpisodeRecord)
    ensures
        c == *r,
{
    let thumb = match &r.thumb {
        Option::Some(t) => Option::Some(EpisodeThumb { url: t.url.clone(), ext: t.ext.clone() }),
        Option::None => Option::None,
    };
    let c = EpisodeRecord {
        id: r.id.clone(),
        provider: r.provider,
        title: r.title.clone(),
        thumb,
    };
    proof {
        assert(c == (EpisodeRecord {
            id: r.id,
            provider: r.provider,
            title: r.title,
            thumb: r.thumb,
        }));
    }
    c
}

// ---------------------------------------------------------------------------
// Canonical paths of one run
// ---------------------------------------------------------------------------

/// Everything one pipeline run is given: the classification, the rule's
/// identity, and the injected settings (library root, interface language).
pub struct PipelineInput {
    pub id: String,
    pub provider: ProviderKnown,
    pub title: String,
    pub lang: String,
    pub season: u64,
    pub episode: u64,
    pub source_path: String,
    pub library_root: String,
}

/// The show's folder: the sanitized show title under the library root.
pub open spec fn spec_show_path(root: Seq<char>, title: Seq<char>) -> Seq<char> {
    root + "/"@ + spec_sanitize(title)
}

/// The show sidecar: `tvshow.nfo` inside the show folder.
pub open spec fn spec_show_nfo_path(root: Seq<char>, title: Seq<char>) -> Seq<char> {
    spec_show_path(root, title) + "/"@ + "tvshow.nfo"@
}

/// The shared stem of an episode's files, as a full path: the season folder
/// inside the show folder, then the canonical episode file-name stem.
pub open spec fn spec_episode_stem_path(
    root: Seq<char>,
    title: Seq<char>,
    season: int,
    episode: int,
    episode_title: Seq<char>,
) -> Seq<char> {
    spec_show_path(root, title) + "/"@ + spec_season_folder(season) + "/"@ + spec_episode_stem(
        spec_sanitize(title),
        season,
        episode,
        spec_sanitize(episode_title),
    )
}

/// The extension the destination keeps from the source file; a source whose
/// file name has none contributes an empty extension.
pub open spec fn spec_source_ext(source_path: Seq<char>) -> Seq<char> {
    match spec_extension(spec_file_name(source_path)) {
        Option::Some(e) => e,
        Option::None => Seq::empty(),
    }
}

/// The destination of the media file itself.
pub open spec fn spec_episode_media_path(input: PipelineInput, episode_title: Seq<char>) -> Seq<
    char,
> {
    spec_episode_stem_path(
        input.library_root@,
        input.title@,
        input.season as int,
        input.episode as int,
        episode_title,
    ) + "."@ + spec_source_ext(input.source_path@)
}

/// The episode sidecar beside the media file.
pub open spec fn spec_episode_nfo_path(input: PipelineInput, episode_title: Seq<char>) -> Seq<
    char,
> {
    spec_episode_stem_path(
        input.library_root@,
        input.title@,
        input.season as int,
        input.episode as int,
        episode_title,
    ) + ".nfo"@
}

/// The episode thumbnail beside the media file.
pub open spec fn spec_episode_thumb_path(
    input: PipelineInput,
    episode_title: Seq<char>,
    thumb_ext: Seq<char>,
) -> Seq<char> {
    spec_episode_stem_path(
        input.library_root@,
        input.title@,
        input.season as int,
        input.episode as int,
        episode_title,
    ) + "-thumb"@ + thumb_ext
}

fn show_path_of(input: &PipelineInput) -> (r: String)
    ensures
        r@ == spec_show_path(input.library_root@, input.title@),
{
    let folder = make_valid_pathname(input.title.as_str());
    join_path(input.library_root.as_str(), folder.as_str())
}

fn show_nfo_path_of(input: &PipelineInput) -> (r: String)
    ensures
        r@ == spec_show_nfo_path(input.library_root@, input.title@),
{
    let show_path = show_path_of(input);
    join_path(show_path.as_str(), "tvshow.nfo")
}

fn episode_stem_path_of(input: &PipelineInput, episode_title: &str) -> (r: String)
    ensures
        r@ == spec_episode_stem_path(
            input.library_root@,
            input.title@,
            input.season as int,
            input.episode as int,
            episode_title@,
        ),
{
    let show_path = show_path_of(input);
    let season_folder = season_folder_name(input.season);
    let folder_path = join_path(show_path.as_str(), season_folder.as_str());
    let show_folder = make_valid_pathname(input.title.as_str());
    let file_title = make_valid_pathname(episode_title);
    let stem = episode_stem(
        show_folder.as_str(),
        input.season,
        input.episode,
        file_title.as_str(),
    );
    join_path(folder_path.as_str(), stem.as_str())
}

fn episode_media_path_of(input: &PipelineInput, episode_title: &str) -> (r: String)
    ensures
        r@ == spec_episode_media_path(*input, episode_title@),
{
    let mut r = episode_stem_path_of(input, episode_title);
    r.append(".");
    let name = file_name_of(input.source_path.as_str());
    match extension_of(name) {
        Option::Some(e) => {
            r.append(e);
        },
        Option::None => {
            proof {
                assert(r@ =~= r@ + Seq::<char>::empty());
            }
        },
    }
    r
}

fn episode_nfo_path_of(input: &PipelineInput, episode_title: &str) -> (r: String)
    ensures
        r@ == spec_episode_nfo_path(*input, episode_title@),
{
    let mut r = episode_stem_path_of(input, episode_title);
    r.append(".nfo");
    r
}

fn episode_thumb_path_of(input: &PipelineInput, episode_title: &str, thumb_ext: &str) -> (r:
    String)
    ensures
        r@ == spec_episode_thumb_path(*input, episode_title@, thumb_ext@),
{
    let mut r = episode_stem_path_of(input, episode_title);
    r.append("-thumb");
    r.append(thumb_ext);
    r
}

fn build_thumb_jobs(show_path: &str, thumbs: &Vec<ThumbRef>) -> (jobs: Vec<ThumbJob>)
    ensures
        jobs@.len() == thumbs@.len(),
        forall|j: int|
            0 <= j < jobs@.len() ==> jobs@[j].path@ == show_path@ + "/"@ + thumbs@[j].file_name@
                && jobs@[j].url@ == thumbs@[j].url@,
{
    let mut jobs: Vec<ThumbJob> = Vec::new();
    let n: usize = thumbs.len();
    let mut i: usize = 0;
    while i < n
        invariant
            i <= n,
            n == thumbs@.len(),
            jobs@.len() == i,
            forall|j: int|
                0 <= j < i ==> jobs@[j].path@ == show_path@ + "/"@ + thumbs@[j].file_name@
                    && jobs@[j].url@ == thumbs@[j].url@,
        decreases n - i,
    {
        let path = join_path(show_path, thumbs[i].file_name.as_str());
        jobs.push(ThumbJob { path, url: thumbs[i].url.clone() });
        i = i + 1;
    }
    jobs
}

// ---------------------------------------------------------------------------
// The step machine
// ---------------------------------------------------------------------------

/// Where one pipeline run stands.
#[derive(Clone, Copy, Debug, PartialEq, Eq, Structural)]
pub enum PipelinePhase {
    /// Nothing happened yet.
    Start,
    /// Waiting for the existing show sidecar, if any, to be read.
    AwaitShowSidecar,
    /// Waiting for the show record to be refreshed from the provider.
    AwaitShowRefresh,
    /// Waiting for the refreshed show sidecar to be persisted.
    AwaitShowWrite,
    /// Waiting for the show-level thumbnail downloads to be joined.
    AwaitThumbs,
    /// Waiting for the episode record to be fetched from the provider.
    AwaitEpisode,
    /// Waiting for the move hand-off to be queued.
    AwaitQueueMove,
    /// Waiting for the episode sidecar to be persisted.
    AwaitEpisodeWrite,
    /// Waiting for the episode thumbnail download.
    AwaitEpisodeThumb,
    /// The run is over.
    Finished,
}

/// What the caller observed and hands back to the machine.
pub enum PipelineEvent {
    /// Start the run.
    Begin,
    /// The show sidecar was read (`None`: no sidecar exists yet).
    ShowSidecar(Option<ShowRecord>),
    /// The provider refresh of the show record came back (`None`: the fetch
    /// failed).
    ShowRefreshed(Option<ShowRecord>),
    /// The show sidecar write finished, well or not.
    ShowWritten(bool),
    /// Every show-thumbnail task was awaited to completion.
    ThumbsDone,
    /// The provider fetch of the episode record came back (`None`: the
    /// fetch failed).
    EpisodeFetched(Option<EpisodeRecord>),
    /// The move hand-off was queued.
    MoveQueued,
    /// The episode sidecar write finished, well or not.
    EpisodeWritten(bool),
    /// The episode thumbnail download finished, well or not.
    EpisodeThumbDone(bool),
}

/// The next effect the caller must perform.
pub enum PipelineStep {
    /// Read the show sidecar at this path if it exists, then report
    /// `ShowSidecar`.
    ReadShowSidecar { path: String },
    /// Refresh this record from the provider in this language (fields the
    /// provider knows overwrite the base), then report `ShowRefreshed`.
    RefreshShow { base: ShowRecord, lang: String },
    /// Persist the refreshed show record at this path — atomic in effect:
    /// write, then rename — then report `ShowWritten`.
    WriteShowSidecar { path: String, record: ShowRecord },
    /// Download every job concurrently, await them all — a failed download
    /// is logged, never fatal — then report `ThumbsDone`.
    DownloadThumbs { jobs: Vec<ThumbJob> },
    /// Fetch the episode record, then report `EpisodeFetched`.
    FetchEpisode {
        id: String,
        provider: ProviderKnown,
        lang: String,
        season: u64,
        episode: u64,
        fallback_lang: String,
    },
    /// Hand the move over to the relocation coordinator (do not wait for
    /// it), then report `MoveQueued`.
    QueueMove { src_path: String, target_path: String },
    /// Persist the episode record at this path, then report
    /// `EpisodeWritten`.
    WriteEpisodeSidecar { path: String, record: EpisodeRecord },
    /// Download the episode thumbnail to this path, then report
    /// `EpisodeThumbDone`.
    DownloadEpisodeThumb { path: String, url: String },
    /// The run is over with this outcome.
    Finish { result: Result<(), TvshowNfoServiceError> },
}

/// One pipeline run: the input it was created for, where it stands, and the
/// records it carries between steps.
pub struct Pipeline {
    pub input: PipelineInput,
    pub phase: PipelinePhase,
    pub show: Option<ShowRecord>,
    pub episode: Option<EpisodeRecord>,
}

/// Whether an event is the one the machine's phase waits for.
pub open spec fn event_fits(phase: PipelinePhase, event: PipelineEvent) -> bool {
    match event {
        PipelineEvent::Begin => phase is Start,
        PipelineEvent::ShowSidecar(_) => phase is AwaitShowSidecar,
        PipelineEvent::ShowRefreshed(_) => phase is AwaitShowRefresh,
        PipelineEvent::ShowWritten(_) => phase is AwaitShowWrite,
        PipelineEvent::ThumbsDone => phase is AwaitThumbs,
        PipelineEvent::EpisodeFetched(_) => phase is AwaitEpisode,
        PipelineEvent::MoveQueued => phase is AwaitQueueMove,
        PipelineEvent::EpisodeWritten(_) => phase is AwaitEpisodeWrite,
        PipelineEvent::EpisodeThumbDone(_) => phase is AwaitEpisodeThumb,
    }
}

impl Pipeline {
    /// The machine carries the show record from the refresh on, and the
    /// episode record from the fetch on.
    pub open spec fn wf(self) -> bool {
        &&& (self.phase is AwaitShowWrite || self.phase is AwaitThumbs
            || self.phase is AwaitEpisode) ==> self.show is Some
        &&& (self.phase is AwaitQueueMove || self.phase is AwaitEpisodeWrite
            || self.phase is AwaitEpisodeThumb) ==> self.episode is Some
    }

    /// A fresh run for one classified episode.
    pub fn new(input: PipelineInput) -> (p: Pipeline)
        ensures
            p.input == input,
            p.phase == PipelinePhase::Start,
            p.show is None,
            p.episode is None,
            p.wf(),
    {
        Pipeline { input, phase: PipelinePhase::Start, show: Option::None, episode: Option::None }
    }
}

/// Drive one pipeline run one step further.
///
/// Hand the machine the event it waits for and perform the step it answers
/// with; an event that does not fit the phase is answered with `None` and
/// the machine is left untouched. The contract pins the exact order of the
/// pipeline, every canonical path it computes, and that a failed fetch is
/// terminal with nothing of that level written.
pub fn process(p: &mut Pipeline, event: PipelineEvent) -> (step: Option<PipelineStep>)
    requires
        old(p).wf(),
    ensures
        final(p).wf(),
        final(p).input == old(p).input,
        !event_fits(old(p).phase, event) ==> step is None && *final(p) == *old(p),
        event_fits(old(p).phase, event) ==> step is Some,
        // Begin: ask for the existing show sidecar.
        (old(p).phase is Start && event is Begin) ==> final(p).phase is AwaitShowSidecar && (
        step matches Some(PipelineStep::ReadShowSidecar { path }) && path@ == spec_show_nfo_path(
            old(p).input.library_root@,
            old(p).input.title@,
        )),
        // The sidecar on disk, or a fresh record, is the base to refresh.
        old(p).phase is AwaitShowSidecar ==> (event matches PipelineEvent::ShowSidecar(loaded)
            ==> final(p).phase is AwaitShowRefresh && (step matches Some(
            PipelineStep::RefreshShow { base, lang },
        ) && lang@ == old(p).input.lang@ && (match loaded {
            Option::Some(rec) => base == rec,
            Option::None => base.id@ == old(p).input.id@ && base.provider == old(p).input.provider
                && base.fallback_lang@ == old(p).input.lang@ && base.thumbs@.len() == 0,
        }))),
        // A failed show refresh is terminal: nothing has been written.
        (old(p).phase is AwaitShowRefresh && event matches PipelineEvent::ShowRefreshed(
            Option::None,
        )) ==> final(p).phase is Finished && step == Some(
            PipelineStep::Finish {
                result: Result::<(), TvshowNfoServiceError>::Err(
                    TvshowNfoServiceError::NetworkError,
                ),
            },
        ),
        // The refreshed record is persisted before any thumbnail is fetched.
        old(p).phase is AwaitShowRefresh ==> (event matches PipelineEvent::ShowRefreshed(
            Option::Some(rec),
        ) ==> final(p).phase is AwaitShowWrite && (final(p).show matches Some(s) && show_eq(
            s,
            rec,
        )) && (step matches Some(PipelineStep::WriteShowSidecar { path, record }) && path@
            == spec_show_nfo_path(old(p).input.library_root@, old(p).input.title@) && record
            == rec)),
        // Then the show thumbnails, one job per reference, into the show
        // folder; a failed write was logged and does not stop the run.
        (old(p).phase is AwaitShowWrite && event matches PipelineEvent::ShowWritten(_)) ==> final(p).phase is AwaitThumbs && (step matches Some(PipelineStep::DownloadThumbs { jobs }) && {
            let show = old(p).show->0;
            &&& jobs@.len() == show.thumbs@.len()
            &&& forall|j: int|
                0 <= j < jobs@.len() ==> jobs@[j].path@ == spec_show_path(
                    old(p).input.library_root@,
                    old(p).input.title@,
                ) + "/"@ + show.thumbs@[j].file_name@ && jobs@[j].url@ == show.thumbs@[j].url@
        }),
        // Then the episode record, in the run's language, with the show's
        // fallback language.
        (old(p).phase is AwaitThumbs && event is ThumbsDone) ==> final(p).phase is AwaitEpisode && (step matches Some(
            PipelineStep::FetchEpisode { id, provider, lang, season, episode, fallback_lang },
        ) && id@ == old(p).input.id@ && provider == old(p).input.provider && lang@ == old(p).input.lang@ && season == old(p).input.season && episode == old(p).input.episode
            && fallback_lang@ == old(p).show->0.fallback_lang@),
        // A failed episode fetch is terminal: no move, no episode sidecar.
        (old(p).phase is AwaitEpisode && event matches PipelineEvent::EpisodeFetched(Option::None))
            ==> final(p).phase is Finished && step == Some(
            PipelineStep::Finish {
                result: Result::<(), TvshowNfoServiceError>::Err(
                    TvshowNfoServiceError::NetworkError,
                ),
            },
        ),
        // The move is handed off before the episode sidecar is written.
        old(p).phase is AwaitEpisode ==> (event matches PipelineEvent::EpisodeFetched(
            Option::Some(ep),
        ) ==> final(p).phase is AwaitQueueMove && final(p).episode == Some(ep) && (
        step matches Some(PipelineStep::QueueMove { src_path, target_path }) && src_path@ == old(p).input.source_path@ && target_path@ == spec_episode_media_path(old(p).input, ep.title@))),
        // Then the episode sidecar, beside the media file.
        (old(p).phase is AwaitQueueMove && event is MoveQueued) ==> final(p).phase is AwaitEpisodeWrite && (step matches Some(
            PipelineStep::WriteEpisodeSidecar { path, record },
        ) && path@ == spec_episode_nfo_path(old(p).input, old(p).episode->0.title@) && record
            == old(p).episode->0),
        // Then the episode thumbnail, if the record exposes one; a failed
        // sidecar write was logged and does not stop the run.
        (old(p).phase is AwaitEpisodeWrite && (event matches PipelineEvent::EpisodeWritten(_))
            && old(p).episode->0.thumb is Some) ==> final(p).phase is AwaitEpisodeThumb && (
        step matches Some(PipelineStep::DownloadEpisodeThumb { path, url }) && path@
            == spec_episode_thumb_path(
            old(p).input,
            old(p).episode->0.title@,
            old(p).episode->0.thumb->0.ext@,
        ) && url@ == old(p).episode->0.thumb->0.url@),
        (old(p).phase is AwaitEpisodeWrite && (event matches PipelineEvent::EpisodeWritten(_))
            && old(p).episode->0.thumb is None) ==> final(p).phase is Finished && step == Some(
            PipelineStep::Finish { result: Result::<(), TvshowNfoServiceError>::Ok(()) },
        ),
        // A thumbnail failure is reported, but rolls nothing back: the
        // sidecars and the queued move stand.
        old(p).phase is AwaitEpisodeThumb ==> (event matches PipelineEvent::EpisodeThumbDone(ok)
            ==> final(p).phase is Finished && step == Some(
            PipelineStep::Finish {
                result: (if ok {
                    Result::<(), TvshowNfoServiceError>::Ok(())
                } else {
                    Result::<(), TvshowNfoServiceError>::Err(TvshowNfoServiceError::NfoCreateError)
                }),
            },
        )),
{
    match event {
        PipelineEvent::Begin => {
            if p.phase == PipelinePhase::Start {
                let path = show_nfo_path_of(&p.input);
                p.phase = PipelinePhase::AwaitShowSidecar;
                Option::Some(PipelineStep::ReadShowSidecar { path })
            } else {
                Option::None
            }
        },
        PipelineEvent::ShowSidecar(loaded) => {
            if p.phase == PipelinePhase::AwaitShowSidecar {
                let base = match loaded {
                    Option::Some(rec) => rec,
                    // No sidecar yet: a fresh record, whose fallback is the
                    // requested language until the provider refresh fills it.
                    Option::None => ShowRecord {
                        id: p.input.id.clone(),
                        provider: p.input.provider,
                        fallback_lang: p.input.lang.clone(),
                        thumbs: Vec::new(),
                    },
                };
                let lang = p.input.lang.clone();
                p.phase = PipelinePhase::AwaitShowRefresh;
                Option::Some(PipelineStep::RefreshShow { base, lang })
            } else {
                Option::None
            }
        },
        PipelineEvent::ShowRefreshed(refreshed) => {
            if p.phase == PipelinePhase::AwaitShowRefresh {
                match refreshed {
                    Option::Some(rec) => {
                        let path = show_nfo_path_of(&p.input);
                        let stored = clone_show(&rec);
                        p.show = Option::Some(stored);
                        p.phase = PipelinePhase::AwaitShowWrite;
                        Option::Some(PipelineStep::WriteShowSidecar { path, record: rec })
                    },
                    Option::None => {
                        p.phase = PipelinePhase::Finished;
                        Option::Some(
                            PipelineStep::Finish {
                                result: Result::Err(TvshowNfoServiceError::NetworkError),
                            },
                        )
                    },
                }
            } else {
                Option::None
            }
        },
        PipelineEvent::ShowWritten(_) => {
            if p.phase == PipelinePhase::AwaitShowWrite {
                let show_path = show_path_of(&p.input);
                let jobs = match &p.show {
                    Option::Some(show) => build_thumb_jobs(show_path.as_str(), &show.thumbs),
                    // Unreachable: the machine carries the show record in
                    // this phase (`wf`).
                    Option::None => Vec::new(),
                };
                p.phase = PipelinePhase::AwaitThumbs;
                Option::Some(PipelineStep::DownloadThumbs { jobs })
            } else {
                Option::None
            }
        },
        PipelineEvent::ThumbsDone => {
            if p.phase == PipelinePhase::AwaitThumbs {
                let fallback_lang = match &p.show {
                    Option::Some(show) => show.fallback_lang.clone(),
                    // Unreachable: the machine carries the show record in
                    // this phase (`wf`).
                    Option::None => p.input.lang.clone(),
                };
                p.phase = PipelinePhase::AwaitEpisode;
                Option::Some(
                    PipelineStep::FetchEpisode {
                        id: p.input.id.clone(),
                        provider: p.input.provider,
                        lang: p.input.lang.clone(),
                        season: p.input.season,
                        episode: p.input.episode,
                        fallback_lang,
                    },
                )
            } else {
                Option::None
            }
        },
        PipelineEvent::EpisodeFetched(fetched) => {
            if p.phase == PipelinePhase::AwaitEpisode {
                match fetched {
                    Option::Some(ep) => {
                        let target_path = episode_media_path_of(&p.input, ep.title.as_str());
                        let src_path = p.input.source_path.clone();
                        p.episode = Option::Some(ep);
                        p.phase = PipelinePhase::AwaitQueueMove;
                        Option::Some(PipelineStep::QueueMove { src_path, target_path })
                    },
                    Option::None => {
                        p.phase = PipelinePhase::Finished;
                        Option::Some(
                            PipelineStep::Finish {
                                result: Result::Err(TvshowNfoServiceError::NetworkError),
                            },
                        )
                    },
                }
            } else {
                Option::None
            }
        },
        PipelineEvent::MoveQueued => {
            if p.phase == PipelinePhase::AwaitQueueMove {
                let (path, record) = match &p.episode {
                    Option::Some(ep) => (
                        episode_nfo_path_of(&p.input, ep.title.as_str()),
                        clone_episode(ep),
                    ),
                    // Unreachable: the machine carries the episode record
                    // in this phase (`wf`).
                    Option::None => (
                        String::new(),
                        EpisodeRecord {
                            id: String::new(),
                            provider: p.input.provider,
                            title: String::new(),
                            thumb: Option::None,
                        },
                    ),
                };
                p.phase = PipelinePhase::AwaitEpisodeWrite;
                Option::Some(PipelineStep::WriteEpisodeSidecar { path, record })
            } else {
                Option::None
            }
        },
        PipelineEvent::EpisodeWritten(_) => {
            if p.phase == PipelinePhase::AwaitEpisodeWrite {
                let thumb = match &p.episode {
                    Option::Some(ep) => match &ep.thumb {
                        Option::Some(t) => Option::Some(
                            (
                                episode_thumb_path_of(
                                    &p.input,
                                    ep.title.as_str(),
                                    t.ext.as_str(),
                                ),
                                t.url.clone(),
                            ),
                        ),
                        Option::None => Option::None,
                    },
                    // Unreachable: the machine carries the episode record
                    // in this phase (`wf`).
                    Option::None => Option::None,
                };
                match thumb {
                    Option::Some((path, url)) => {
                        p.phase = PipelinePhase::AwaitEpisodeThumb;
                        Option::Some(PipelineStep::DownloadEpisodeThumb { path, url })
                    },
                    Option::None => {
                        p.phase = PipelinePhase::Finished;
                        Option::Some(PipelineStep::Finish { result: Result::Ok(()) })
                    },
                }
            } else {
                Option::None
            }
        },
        PipelineEvent::EpisodeThumbDone(ok) => {
            if p.phase == PipelinePhase::AwaitEpisodeThumb {
                p.phase = PipelinePhase::Finished;
                if ok {
                    Option::Some(PipelineStep::Finish { result: Result::Ok(()) })
                } else {
                    Option::Some(
                        PipelineStep::Finish {
                            result: Result::Err(TvshowNfoServiceError::NfoCreateError),
                        },
                    )
                }
            } else {
                Option::None
            }
        },
    }
}

} // verus!
