use anime_repository::matcher::ProviderKnown;
use anime_repository::tvshow::{
    EpisodeRecord, EpisodeThumb, Pipeline, PipelineEvent, PipelineInput, PipelineStep, ShowRecord,
    ThumbRef, TvshowNfoServiceError, process,
};

fn input() -> PipelineInput {
    PipelineInput {
        id: "207965".to_string(),
        provider: ProviderKnown::TMDB,
        title: "Example: Show!".to_string(),
        lang: "en-US".to_string(),
        season: 1,
        episode: 7,
        source_path: "/downloads/Example Show - 07.mp4".to_string(),
        library_root: "/library".to_string(),
    }
}

fn show_record() -> ShowRecord {
    ShowRecord {
        id: "207965".to_string(),
        provider: ProviderKnown::TMDB,
        fallback_lang: "ja-JP".to_string(),
        thumbs: vec![
            ThumbRef { file_name: "poster.jpg".to_string(), url: "http://img/poster".to_string() },
            ThumbRef { file_name: "fanart.jpg".to_string(), url: "http://img/fanart".to_string() },
        ],
    }
}

fn episode_record() -> EpisodeRecord {
    EpisodeRecord {
        id: "207965".to_string(),
        provider: ProviderKnown::TMDB,
        title: "Pilot".to_string(),
        thumb: Some(EpisodeThumb {
            url: "http://img/ep7".to_string(),
            ext: ".jpg".to_string(),
        }),
    }
}

#[test]
fn full_run_in_canonical_order() {
    let mut p = Pipeline::new(input());

    let step = process(&mut p, PipelineEvent::Begin).unwrap();
    match step {
        PipelineStep::ReadShowSidecar { path } => {
            assert_eq!(path, "/library/Example_ Show!/tvshow.nfo");
        }
        _ => panic!("expected the show sidecar to be read first"),
    }

    let step = process(&mut p, PipelineEvent::ShowSidecar(None)).unwrap();
    match step {
        PipelineStep::RefreshShow { base, lang } => {
            assert_eq!(base.id, "207965");
            assert_eq!(base.provider, ProviderKnown::TMDB);
            assert_eq!(base.thumbs.len(), 0);
            assert_eq!(lang, "en-US");
        }
        _ => panic!("expected the show record to be refreshed next"),
    }

    let step = process(&mut p, PipelineEvent::ShowRefreshed(Some(show_record()))).unwrap();
    match step {
        PipelineStep::WriteShowSidecar { path, record } => {
            assert_eq!(path, "/library/Example_ Show!/tvshow.nfo");
            assert_eq!(record.fallback_lang, "ja-JP");
            assert_eq!(record.thumbs.len(), 2);
        }
        _ => panic!("expected the refreshed sidecar to be written before any thumbnail"),
    }

    let step = process(&mut p, PipelineEvent::ShowWritten(true)).unwrap();
    match step {
        PipelineStep::DownloadThumbs { jobs } => {
            assert_eq!(jobs.len(), 2);
            assert_eq!(jobs[0].path, "/library/Example_ Show!/poster.jpg");
            assert_eq!(jobs[0].url, "http://img/poster");
            assert_eq!(jobs[1].path, "/library/Example_ Show!/fanart.jpg");
            assert_eq!(jobs[1].url, "http://img/fanart");
        }
        _ => panic!("expected the show thumbnails next"),
    }

    let step = process(&mut p, PipelineEvent::ThumbsDone).unwrap();
    match step {
        PipelineStep::FetchEpisode { id, provider, lang, season, episode, fallback_lang } => {
            assert_eq!(id, "207965");
            assert_eq!(provider, ProviderKnown::TMDB);
            assert_eq!(lang, "en-US");
            assert_eq!(season, 1);
            assert_eq!(episode, 7);
            assert_eq!(fallback_lang, "ja-JP");
        }
        _ => panic!("expected the episode fetch next"),
    }

    let step = process(&mut p, PipelineEvent::EpisodeFetched(Some(episode_record()))).unwrap();
    match step {
        PipelineStep::QueueMove { src_path, target_path } => {
            assert_eq!(src_path, "/downloads/Example Show - 07.mp4");
            assert_eq!(
                target_path,
                "/library/Example_ Show!/Season 01/Example_ Show! - S01E07 - Pilot.mp4"
            );
        }
        _ => panic!("expected the move to be handed off before the episode sidecar"),
    }

    let step = process(&mut p, PipelineEvent::MoveQueued).unwrap();
    match step {
        PipelineStep::WriteEpisodeSidecar { path, record } => {
            assert_eq!(
                path,
                "/library/Example_ Show!/Season 01/Example_ Show! - S01E07 - Pilot.nfo"
            );
            assert_eq!(record.title, "Pilot");
        }
        _ => panic!("expected the episode sidecar next"),
    }

    let step = process(&mut p, PipelineEvent::EpisodeWritten(true)).unwrap();
    match step {
        PipelineStep::DownloadEpisodeThumb { path, url } => {
            assert_eq!(
                path,
                "/library/Example_ Show!/Season 01/Example_ Show! - S01E07 - Pilot-thumb.jpg"
            );
            assert_eq!(url, "http://img/ep7");
        }
        _ => panic!("expected the episode thumbnail next"),
    }

    let step = process(&mut p, PipelineEvent::EpisodeThumbDone(true)).unwrap();
    match step {
        PipelineStep::Finish { result } => assert_eq!(result, Ok(())),
        _ => panic!("expected the run to finish"),
    }
}

#[test]
fn failed_show_refresh_is_terminal() {
    let mut p = Pipeline::new(input());
    process(&mut p, PipelineEvent::Begin).unwrap();
    process(&mut p, PipelineEvent::ShowSidecar(None)).unwrap();
    let step = process(&mut p, PipelineEvent::ShowRefreshed(None)).unwrap();
    match step {
        PipelineStep::Finish { result } => {
            assert_eq!(result, Err(TvshowNfoServiceError::NetworkError));
        }
        _ => panic!("a failed refresh must end the run"),
    }
    // The machine is finished: no further event fits.
    assert!(process(&mut p, PipelineEvent::ShowWritten(true)).is_none());
}

#[test]
fn failed_episode_fetch_is_terminal() {
    let mut p = Pipeline::new(input());
    process(&mut p, PipelineEvent::Begin).unwrap();
    process(&mut p, PipelineEvent::ShowSidecar(Some(show_record()))).unwrap();
    process(&mut p, PipelineEvent::ShowRefreshed(Some(show_record()))).unwrap();
    process(&mut p, PipelineEvent::ShowWritten(true)).unwrap();
    process(&mut p, PipelineEvent::ThumbsDone).unwrap();
    let step = process(&mut p, PipelineEvent::EpisodeFetched(None)).unwrap();
    match step {
        PipelineStep::Finish { result } => {
            assert_eq!(result, Err(TvshowNfoServiceError::NetworkError));
        }
        _ => panic!("a failed episode fetch must end the run"),
    }
}

#[test]
fn loaded_sidecar_is_the_refresh_base() {
    let mut p = Pipeline::new(input());
    process(&mut p, PipelineEvent::Begin).unwrap();
    let step = process(&mut p, PipelineEvent::ShowSidecar(Some(show_record()))).unwrap();
    match step {
        PipelineStep::RefreshShow { base, lang } => {
            assert_eq!(base.fallback_lang, "ja-JP");
            assert_eq!(base.thumbs.len(), 2);
            assert_eq!(lang, "en-US");
        }
        _ => panic!("expected the loaded record as the base"),
    }
}

#[test]
fn season_zero_files_into_specials() {
    let mut p = Pipeline::new(PipelineInput { season: 0, episode: 3, ..input() });
    process(&mut p, PipelineEvent::Begin).unwrap();
    process(&mut p, PipelineEvent::ShowSidecar(None)).unwrap();
    process(&mut p, PipelineEvent::ShowRefreshed(Some(show_record()))).unwrap();
    process(&mut p, PipelineEvent::ShowWritten(true)).unwrap();
    process(&mut p, PipelineEvent::ThumbsDone).unwrap();
    let ep = EpisodeRecord { thumb: None, ..episode_record() };
    let step = process(&mut p, PipelineEvent::EpisodeFetched(Some(ep))).unwrap();
    match step {
        PipelineStep::QueueMove { target_path, .. } => {
            assert_eq!(
                target_path,
                "/library/Example_ Show!/Specials/Example_ Show! - S00E03 - Pilot.mp4"
            );
        }
        _ => panic!("expected the move hand-off"),
    }
}

#[test]
fn episode_without_thumb_finishes_after_its_sidecar() {
    let mut p = Pipeline::new(input());
    process(&mut p, PipelineEvent::Begin).unwrap();
    process(&mut p, PipelineEvent::ShowSidecar(None)).unwrap();
    process(&mut p, PipelineEvent::ShowRefreshed(Some(show_record()))).unwrap();
    process(&mut p, PipelineEvent::ShowWritten(true)).unwrap();
    process(&mut p, PipelineEvent::ThumbsDone).unwrap();
    let ep = EpisodeRecord { thumb: None, ..episode_record() };
    process(&mut p, PipelineEvent::EpisodeFetched(Some(ep))).unwrap();
    process(&mut p, PipelineEvent::MoveQueued).unwrap();
    let step = process(&mut p, PipelineEvent::EpisodeWritten(true)).unwrap();
    match step {
        PipelineStep::Finish { result } => assert_eq!(result, Ok(())),
        _ => panic!("expected the run to finish without a thumbnail step"),
    }
}

#[test]
fn failed_episode_thumb_is_reported_but_nothing_rolled_back() {
    let mut p = Pipeline::new(input());
    process(&mut p, PipelineEvent::Begin).unwrap();
    process(&mut p, PipelineEvent::ShowSidecar(None)).unwrap();
    process(&mut p, PipelineEvent::ShowRefreshed(Some(show_record()))).unwrap();
    process(&mut p, PipelineEvent::ShowWritten(true)).unwrap();
    process(&mut p, PipelineEvent::ThumbsDone).unwrap();
    process(&mut p, PipelineEvent::EpisodeFetched(Some(episode_record()))).unwrap();
    process(&mut p, PipelineEvent::MoveQueued).unwrap();
    process(&mut p, PipelineEvent::EpisodeWritten(true)).unwrap();
    let step = process(&mut p, PipelineEvent::EpisodeThumbDone(false)).unwrap();
    match step {
        PipelineStep::Finish { result } => {
            assert_eq!(result, Err(TvshowNfoServiceError::NfoCreateError));
        }
        _ => panic!("expected the run to finish with the reported failure"),
    }
}

#[test]
fn event_out_of_order_is_refused_and_changes_nothing() {
    let mut p = Pipeline::new(input());
    assert!(process(&mut p, PipelineEvent::ThumbsDone).is_none());
    assert!(process(&mut p, PipelineEvent::MoveQueued).is_none());
    // The machine still starts normally afterwards.
    let step = process(&mut p, PipelineEvent::Begin).unwrap();
    match step {
        PipelineStep::ReadShowSidecar { path } => {
            assert_eq!(path, "/library/Example_ Show!/tvshow.nfo");
        }
        _ => panic!("expected the normal first step"),
    }
}
