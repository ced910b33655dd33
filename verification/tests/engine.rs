use rustunes::backend::{AudioStream, PlaylistPage, ProbeOutcome, RelatedStream, StreamsPage};
use rustunes::config::MusicPlayerConfig;
use rustunes::failover::DomainFailover;
use rustunes::logic::{MusicPlayerLogic, UserInputOutcome};
use rustunes::resolver::RemoteSourceProcessor;
use rustunes::source::{Remote, Source};
use rustunes::Error;

fn domains(names: &[&str]) -> Vec<String> {
    names.iter().map(|s| s.to_string()).collect()
}

fn processor(piped: &[&str], invidious: &[&str], limit: u64) -> RemoteSourceProcessor {
    RemoteSourceProcessor::new(domains(piped), 0, domains(invidious), 0, limit).unwrap()
}

fn streams_page(bitrates: &[(u64, &str)], title: &str, duration: u64) -> StreamsPage {
    StreamsPage {
        audio_streams: bitrates
            .iter()
            .map(|(b, u)| AudioStream { url: u.to_string(), bitrate: *b })
            .collect(),
        related_streams: Vec::new(),
        title: title.to_string(),
        duration,
    }
}

fn related(url: &str, duration: Option<u64>) -> RelatedStream {
    RelatedStream { url: url.to_string(), duration }
}

fn test_config() -> MusicPlayerConfig {
    let mut config = MusicPlayerConfig::new().unwrap();
    config.shuffle_playlist = false;
    config
}

// Mirror rotation covers every domain exactly once before exhaustion: for
// three mirrors, two advances succeed, the third reports the family down.
#[test]
fn mirror_rotation_exhausts_after_full_cycle() {
    let mut failover = DomainFailover::new(domains(&["m0", "m1", "m2"]), 0);
    assert!(failover.advance().is_ok());
    assert_eq!(failover.index, 1);
    assert!(failover.advance().is_ok());
    assert_eq!(failover.index, 2);
    assert!(failover.advance().is_err());
    assert_eq!(failover.index, 2);
}

// A success in mid-cycle restarts exhaustion counting from the mirror that
// worked, not from mirror zero.
#[test]
fn mirror_success_restarts_cycle_from_last_good() {
    let mut failover = DomainFailover::new(domains(&["m0", "m1", "m2"]), 0);
    assert!(failover.advance().is_ok());
    failover.mark_success();
    assert_eq!(failover.cycle_start, 1);
    assert!(failover.advance().is_ok());
    assert!(failover.advance().is_ok());
    assert!(failover.advance().is_err());
    assert_eq!(failover.index, 0);
}

#[test]
fn mirror_rotation_through_processor() {
    let mut proc = processor(&["p0", "p1"], &["i0", "i1", "i2"], 600);
    assert!(proc.next_piped_api_domains_index().is_ok());
    assert_eq!(proc.get_piped_api_domain(), "p1");
    let err = proc.next_piped_api_domains_index().unwrap_err();
    assert!(matches!(err, Error::AllPipedApiDomainsDown(_)));
    assert!(proc.next_invidious_api_domains_index().is_ok());
    assert!(proc.next_invidious_api_domains_index().is_ok());
    let err = proc.next_invidious_api_domains_index().unwrap_err();
    assert!(matches!(err, Error::AllInvidiousApiDomainsDown(_)));
}

// Audio stream selection is max-bitrate: with [96, 320, 128] the 320 kbit
// stream wins regardless of input order.
#[test]
fn audio_selection_is_max_bitrate() {
    let orders: [&[(u64, &str)]; 3] = [
        &[(96, "u96"), (320, "u320"), (128, "u128")],
        &[(320, "u320"), (96, "u96"), (128, "u128")],
        &[(128, "u128"), (96, "u96"), (320, "u320")],
    ];
    for order in orders {
        let page = streams_page(order, "title", 100);
        let best = rustunes::backend::select_audio_stream(&page.audio_streams).unwrap();
        assert_eq!(page.audio_streams[best].bitrate, 320);
        assert_eq!(page.audio_streams[best].url, "u320");
    }
}

// Among equal maximal bitrates the last one in backend order wins, as a
// stable ascending sort followed by taking the last element would pick.
#[test]
fn audio_selection_tie_break_takes_last() {
    let page = streams_page(&[(320, "first"), (96, "low"), (320, "second")], "t", 1);
    let best = rustunes::backend::select_audio_stream(&page.audio_streams).unwrap();
    assert_eq!(page.audio_streams[best].url, "second");
}

#[test]
fn set_audio_url_title_fills_track() {
    let mut proc = processor(&["p0"], &["i0"], 600);
    let mut track = Remote::new("https://yt/watch?v=abc").unwrap();
    let page = streams_page(&[(96, "u96"), (320, "u320")], "My Song", 240);
    proc.set_audio_url_title(&mut track, &page).unwrap();
    assert_eq!(track.audio_stream_url, "u320");
    assert_eq!(track.title, "My Song");
    assert_eq!(track.length, 240);
    assert_eq!(track.video_id, "abc");
}

#[test]
fn set_audio_url_title_rejects_empty_stream_list() {
    let mut proc = processor(&["p0"], &["i0"], 600);
    let mut track = Remote::new("https://yt/watch?v=abc").unwrap();
    let page = streams_page(&[], "t", 1);
    let err = proc.set_audio_url_title(&mut track, &page).unwrap_err();
    assert!(matches!(err, Error::OtherError(_)));
    assert_eq!(track.audio_stream_url, "");
}

// Eligibility filters are conjunctive and order-preserving: the first entry
// passing all four filters is chosen even when a later entry also
// qualifies.
#[test]
fn first_qualifying_related_candidate_wins() {
    let mut proc = processor(&["p0"], &["i0"], 600);
    let list = vec![
        related("https://yt/playlist?list=mix1", Some(100)),  // playlist link: skipped
        related("https://yt/watch?v=played", Some(100)),      // already played
        related("https://yt/watch?v=good1", Some(100)),       // qualifies
        related("https://yt/watch?v=good2", Some(100)),       // also qualifies, but later
    ];
    let genres: Vec<String> = vec!["", "Music", "Music", "Music"]
        .into_iter()
        .map(|s| s.to_string())
        .collect();
    let played = vec!["played".to_string()];
    let src = proc.get_related_video_source(&list, &genres, &played).unwrap();
    let remote = src.get_remote_source().unwrap();
    assert_eq!(remote.video_id, "good1");
}

#[test]
fn related_filters_fail_closed_and_check_genre() {
    let mut proc = processor(&["p0"], &["i0"], 600);
    let list = vec![
        related("https://yt/watch?v=nodur", None),         // missing duration fails closed
        related("https://yt/watch?v=long", Some(601)),     // over the limit
        related("https://yt/watch?v=talk", Some(100)),     // wrong genre
        related("https://yt/watch?v=mix&list=abc", Some(100)),  // id carries a list marker
    ];
    let genres: Vec<String> = vec!["Music", "Music", "Podcast", "Music"]
        .into_iter()
        .map(|s| s.to_string())
        .collect();
    let played: Vec<String> = Vec::new();
    let err = proc.get_related_video_source(&list, &genres, &played).unwrap_err();
    assert!(matches!(err, Error::NoRelatedVideoFound(_)));
}

#[test]
fn check_filters_is_conjunctive() {
    let proc = processor(&["p0"], &["i0"], 600);
    let played = vec!["seen".to_string()];
    let ok = |url: &str, d: Option<u64>, g: &str| {
        proc.check_filters_for_related_video_url(url, d, g, &played).unwrap()
    };
    assert!(ok("https://yt/watch?v=new", Some(100), "Indie Music"));
    assert!(!ok("https://yt/watch?v=seen", Some(100), "Music"));
    assert!(!ok("https://yt/watch?v=new", Some(601), "Music"));
    assert!(!ok("https://yt/watch?v=new", None, "Music"));
    assert!(!ok("https://yt/watch?v=new", Some(100), "Comedy"));
    let err = proc
        .check_filters_for_related_video_url("https://yt/nothing", Some(1), "Music", &played)
        .unwrap_err();
    assert!(matches!(err, Error::InvalidVideoUrl(_)));
}

// Played-id set prevents replay: an id already offered to the driver is
// never returned by a later lookahead call.
#[test]
fn played_ids_prevent_replay() {
    let mut proc = processor(&["p0"], &["i0"], 600);
    let list = vec![
        related("https://yt/watch?v=a", Some(100)),
        related("https://yt/watch?v=b", Some(100)),
    ];
    let genres: Vec<String> = vec!["Music".to_string(), "Music".to_string()];
    let played = vec!["a".to_string()];
    let src = proc.get_related_video_source(&list, &genres, &played).unwrap();
    assert_eq!(src.get_remote_source().unwrap().video_id, "b");
    let played_both = vec!["a".to_string(), "b".to_string()];
    let err = proc.get_related_video_source(&list, &genres, &played_both).unwrap_err();
    assert!(matches!(err, Error::NoRelatedVideoFound(_)));
}

// Seed ring never empties: consuming as many seeds as the ring holds
// leaves it at the same size, rotated.
#[test]
fn seed_ring_never_empties() {
    let mut logic = MusicPlayerLogic::new(test_config()).unwrap();
    for id in ["a", "b", "c"] {
        logic.related_queue.push_back(id.to_string());
    }
    let mut seen = Vec::new();
    for _ in 0..3 {
        seen.push(logic.next_related_seed());
        assert_eq!(logic.related_queue.len(), 3);
    }
    assert_eq!(seen, vec!["a".to_string(), "b".to_string(), "c".to_string()]);
    assert_eq!(logic.next_related_seed(), "a");
    assert_eq!(logic.related_queue.len(), 3);
}

// Scenario: playlist of three ids with shuffle disabled loads in exactly
// the backend order, and resolving the first track gives it the URL of its
// highest-bitrate stream.
#[test]
fn playlist_order_kept_without_shuffle() {
    let mut logic = MusicPlayerLogic::new(test_config()).unwrap();
    let pages = vec![PlaylistPage {
        stream_urls: vec![
            "https://yt/watch?v=a".to_string(),
            "https://yt/watch?v=b".to_string(),
            "https://yt/watch?v=c".to_string(),
        ],
        nextpage: None,
    }];
    logic.prepare_playlist(&pages).unwrap();
    let ids: Vec<String> = logic
        .to_play
        .iter()
        .map(|s| s.get_remote_source().unwrap().video_id.clone())
        .collect();
    assert_eq!(ids, vec!["a".to_string(), "b".to_string(), "c".to_string()]);

    let page = streams_page(&[(96, "a96"), (320, "a320"), (128, "a128")], "Track A", 180);
    let url = logic.resolve_current(&page).unwrap();
    assert_eq!(url, "a320");
    assert_eq!(logic.to_play[0].get_remote_source().unwrap().audio_stream_url, "a320");
    assert_eq!(logic.to_play.len(), 3);
}

// Shuffling keeps the same tracks, only the order may change.
#[test]
fn playlist_shuffle_keeps_tracks() {
    let mut config = test_config();
    config.shuffle_playlist = true;
    let mut logic = MusicPlayerLogic::new(config).unwrap();
    let pages = vec![PlaylistPage {
        stream_urls: (0..8).map(|i| format!("https://yt/watch?v=t{i}")).collect(),
        nextpage: None,
    }];
    logic.prepare_playlist(&pages).unwrap();
    assert_eq!(logic.to_play.len(), 8);
    let mut ids: Vec<String> = logic
        .to_play
        .iter()
        .map(|s| s.get_remote_source().unwrap().video_id.clone())
        .collect();
    ids.sort();
    let mut expected: Vec<String> = (0..8).map(|i| format!("t{i}")).collect();
    expected.sort();
    assert_eq!(ids, expected);
}

#[test]
fn playlist_pagination_appends_in_order() {
    let mut proc = processor(&["p0"], &["i0"], 600);
    let pages = vec![
        PlaylistPage {
            stream_urls: vec!["https://yt/watch?v=a".to_string()],
            nextpage: Some("cursor1".to_string()),
        },
        PlaylistPage {
            stream_urls: vec![
                "https://yt/watch?v=b".to_string(),
                "https://yt/watch?v=c".to_string(),
            ],
            nextpage: None,
        },
    ];
    let sources = proc.playlist_to_remote_vec(&pages).unwrap();
    let ids: Vec<String> = sources
        .iter()
        .map(|s| s.get_remote_source().unwrap().video_id.clone())
        .collect();
    assert_eq!(ids, vec!["a".to_string(), "b".to_string(), "c".to_string()]);
    for s in &sources {
        let r = s.get_remote_source().unwrap();
        assert_eq!(r.audio_stream_url, "");
        assert_eq!(r.title, "");
        assert_eq!(r.length, 0);
    }
}

// Scenario: a single seed with no explicit queue; after five lookahead
// cycles the played set holds six distinct ids.
#[test]
fn five_lookahead_cycles_from_single_seed() {
    let mut config = test_config();
    config.play_only_recommendations = true;
    let mut logic = MusicPlayerLogic::new(config).unwrap();
    let outcome = logic.process_user_input("https://yt/watch?v=seed0").unwrap();
    assert_eq!(outcome, UserInputOutcome::LookaheadPending);
    assert_eq!(logic.played_video_ids, vec!["seed0".to_string()]);

    for cycle in 0..5 {
        assert!(logic.needs_lookahead());
        let seed = logic.next_related_seed();
        assert!(!seed.is_empty());
        let list = vec![
            related(&format!("https://yt/watch?v=seed{cycle}"), Some(100)),
            related(&format!("https://yt/watch?v=rel{cycle}"), Some(100)),
        ];
        let genres = vec!["Music".to_string(), "Music".to_string()];
        let src = logic
            .remote_src_proc
            .get_related_video_source(&list, &genres, &logic.played_video_ids)
            .unwrap();
        let page = streams_page(&[(128, "url")], "related", 100);
        let url = logic.prepare_next_to_play(Some(src), Some(&page)).unwrap();
        assert!(url.is_some());
        let (_text, _duration) = logic.update_tui().unwrap();
    }

    assert_eq!(logic.played_video_ids.len(), 6);
    let mut unique = logic.played_video_ids.clone();
    unique.sort();
    unique.dedup();
    assert_eq!(unique.len(), 6);
}

// Broken-URL repair preserves queue length and replaces the stale audio
// URL of the repaired entry.
#[test]
fn broken_url_repair_preserves_queue_length() {
    let mut logic = MusicPlayerLogic::new(test_config()).unwrap();
    let outcome = logic.process_user_input("https://yt/watch?v=a").unwrap();
    assert_eq!(outcome, UserInputOutcome::Queued);
    let first_page = streams_page(&[(128, "stale_url")], "Track", 90);
    let url = logic.prepare_next_to_play(None, Some(&first_page)).unwrap();
    assert_eq!(url.unwrap(), "stale_url");
    logic.update_tui().unwrap();

    let len_before = logic.to_play.len();
    let fresh_page = streams_page(&[(128, "fresh_url")], "Track", 90);
    let (new_url, broken_index) = logic.broken_url(&fresh_page).unwrap();
    assert_eq!(logic.to_play.len(), len_before);
    assert_eq!(broken_index, 0);
    assert_eq!(new_url, "fresh_url");
    let repaired = logic.to_play[0].get_remote_source().unwrap();
    assert_eq!(repaired.audio_stream_url, "fresh_url");
    assert_ne!(repaired.audio_stream_url, "stale_url");
    assert_eq!(logic.to_play_index, 1);
}

#[test]
fn update_tui_reports_title_domain_and_duration() {
    let mut logic = MusicPlayerLogic::new(test_config()).unwrap();
    logic.process_user_input("https://yt/watch?v=abc").unwrap();
    let page = streams_page(&[(128, "u")], "Song Title", 200);
    logic.prepare_next_to_play(None, Some(&page)).unwrap();
    let (text, duration) = logic.update_tui().unwrap();
    assert_eq!(text, "Song Title\nhttps://piped-api.garudalinux.org/abc");
    assert_eq!(duration, 200);
    assert_eq!(logic.to_play_index, 1);
}

#[test]
fn play_prev_rewinds_only_after_two_tracks() {
    let mut logic = MusicPlayerLogic::new(test_config()).unwrap();
    logic.to_play_index = 1;
    logic.play_prev();
    assert_eq!(logic.to_play_index, 1);
    logic.to_play_index = 2;
    logic.play_prev();
    assert_eq!(logic.to_play_index, 0);
}

#[test]
fn quit_broadcast_reaches_every_collaborator() {
    let logic = MusicPlayerLogic::new(test_config()).unwrap();
    let (mpv, tui, input, os) = logic.send_quit_signals();
    assert!(matches!(mpv, rustunes::signals::LibMpvSignals::End));
    assert!(matches!(tui, rustunes::signals::TuiSignals::Quit));
    assert!(matches!(input, rustunes::signals::TuiInputHandlerSignals::Quit));
    assert!(matches!(os, rustunes::signals::OSInterfaceSignals::End));
}

#[test]
fn validate_user_input_reports_shape_specific_errors() {
    let logic = MusicPlayerLogic::new(test_config()).unwrap();
    assert!(logic.validate_user_input("https://yt/watch?v=a", true).is_ok());
    let err = logic.validate_user_input("https://yt/watch?v=a", false).unwrap_err();
    assert!(matches!(err, Error::InvalidVideoUrl(_)));
    let err = logic.validate_user_input("https://yt/playlist?list=p", false).unwrap_err();
    assert!(matches!(err, Error::InvalidPlaylistUrl(_)));
}

#[test]
fn process_user_input_stores_playlist_id() {
    let mut logic = MusicPlayerLogic::new(test_config()).unwrap();
    let outcome = logic.process_user_input("https://yt/playlist?list=PL99").unwrap();
    assert_eq!(outcome, UserInputOutcome::PlaylistPending);
    assert_eq!(logic.playlist_to_play, "PL99");
    assert!(logic.to_play.is_empty());
}

#[test]
fn seed_recommendations_moves_queue_into_seeds() {
    let mut logic = MusicPlayerLogic::new(test_config()).unwrap();
    let pages = vec![PlaylistPage {
        stream_urls: vec![
            "https://yt/watch?v=a".to_string(),
            "https://yt/watch?v=b".to_string(),
        ],
        nextpage: None,
    }];
    logic.prepare_playlist(&pages).unwrap();
    logic.seed_recommendations().unwrap();
    assert!(logic.to_play.is_empty());
    assert_eq!(logic.played_video_ids, vec!["a".to_string(), "b".to_string()]);
    assert_eq!(logic.related_queue.len(), 2);
}

#[test]
fn url_id_extraction_takes_text_after_last_marker() {
    assert_eq!(Remote::url_into_video_id("https://yt/watch?v=abc").unwrap(), "abc");
    assert_eq!(Remote::url_into_video_id("x?v=1&v=2").unwrap(), "2");
    let err = Remote::url_into_video_id("https://yt/playlist").unwrap_err();
    assert!(matches!(err, Error::InvalidVideoUrl(_)));
    assert_eq!(Remote::url_into_playlist_id("https://yt/playlist?list=PL1").unwrap(), "PL1");
    let err = Remote::url_into_playlist_id("https://yt/watch?v=a").unwrap_err();
    assert!(matches!(err, Error::InvalidPlaylistUrl(_)));
    assert!(Source::is_valid_source_path("a?v=1"));
    assert!(Source::is_valid_source_path("a?list=1"));
    assert!(!Source::is_valid_source_path("plain text"));
}

#[test]
fn probe_outcomes_decide_url_validity() {
    let mut proc = processor(&["p0"], &["i0"], 600);
    let url = "https://yt/watch?v=a";
    assert!(proc.is_valid_video_url(url, &ProbeOutcome::Status(200)).unwrap());
    assert!(!proc.is_valid_video_url(url, &ProbeOutcome::Status(404)).unwrap());
    assert!(!proc.is_valid_video_url(url, &ProbeOutcome::Status(400)).unwrap());
    assert!(!proc.is_valid_video_url(url, &ProbeOutcome::Status(500)).unwrap());
    assert!(!proc.is_valid_video_url(url, &ProbeOutcome::BlockedInAllRegions).unwrap());
    let err = proc.is_valid_video_url(url, &ProbeOutcome::TransportFailure).unwrap_err();
    assert!(matches!(err, Error::OtherError(_)));
    let err = proc.is_valid_video_url("no marker", &ProbeOutcome::Status(200)).unwrap_err();
    assert!(matches!(err, Error::InvalidVideoUrl(_)));
    let purl = "https://yt/playlist?list=a";
    assert!(proc.is_valid_playlist_url(purl, &ProbeOutcome::Status(200)).unwrap());
    let err = proc.is_valid_playlist_url("no marker", &ProbeOutcome::Status(200)).unwrap_err();
    assert!(matches!(err, Error::InvalidPlaylistUrl(_)));
}

#[test]
fn request_urls_follow_backend_contract() {
    let proc = processor(&["https://p0"], &["https://i0"], 600);
    assert_eq!(proc.stream_request_url("abc"), "https://p0/streams/abc");
    assert_eq!(proc.playlist_request_url("PL1"), "https://p0/playlists/PL1");
    assert_eq!(proc.genre_request_url("abc"), "https://i0/api/v1/videos/abc");
    // The nextpage cursor is percent-encoded on its way into the URL.
    assert_eq!(
        proc.nextpage_request_url("PL1", "a b&c"),
        "https://p0/nextpage/playlists/PL1?nextpage=a%20b%26c"
    );
}

#[test]
fn genre_lookup_drives_invidious_failover() {
    let mut proc = processor(&["p0"], &["i0", "i1"], 600);
    // A fetched genre is handed back and marks the mirror good.
    let got = proc.get_video_genre(Some("Music".to_string())).unwrap();
    assert_eq!(got, Some("Music".to_string()));
    // A failed lookup advances the mirror and asks for a retry.
    let got = proc.get_video_genre(None).unwrap();
    assert_eq!(got, None);
    assert_eq!(proc.get_invidious_api_domain(), "i1");
    // Exhaustion of the family is the fatal signal.
    let err = proc.get_video_genre(None).unwrap_err();
    assert!(matches!(err, Error::AllInvidiousApiDomainsDown(_)));
}

#[test]
fn mirror_directory_refresh_restarts_failover() {
    let mut proc = processor(&["p0"], &["i0"], 600);
    proc.next_piped_api_domains_index().unwrap_err();
    proc.fetch_piped_api_domains(Some(domains(&["q0", "q1"]))).unwrap();
    assert_eq!(proc.get_piped_api_domain(), "q0");
    assert!(proc.next_piped_api_domains_index().is_ok());
    let mut proc2 = processor(&["p0"], &["i0"], 600);
    let err = proc2.fetch_piped_api_domains(None).unwrap_err();
    assert!(matches!(err, Error::OtherError(_)));
    let err = proc2.fetch_invidious_api_domains(None).unwrap_err();
    assert!(matches!(err, Error::OtherError(_)));
    proc2.fetch_invidious_api_domains(Some(domains(&["j0"]))).unwrap();
}

#[test]
fn next_local_candidate_skips_and_stops_as_the_scan_would() {
    let proc = processor(&["p0"], &["i0"], 600);
    let played = vec!["old".to_string()];
    let list = vec![
        related("https://yt/playlist?list=m", Some(10)),
        related("https://yt/watch?v=old", Some(10)),
        related("https://yt/watch?v=fresh", Some(10)),
    ];
    let found = proc.next_local_candidate(&list, &played, 0).unwrap();
    assert_eq!(found, Some(2));
    let found = proc.next_local_candidate(&list, &played, 3).unwrap();
    assert_eq!(found, None);
    let blocked = vec![related("https://yt/nothing", Some(10))];
    let err = proc.next_local_candidate(&blocked, &played, 0).unwrap_err();
    assert!(matches!(err, Error::InvalidVideoUrl(_)));
}

#[test]
fn piped_domain_update_escalates_on_exhaustion() {
    let mut logic = MusicPlayerLogic::new(test_config()).unwrap();
    // One mirror only: the first failed call exhausts the family.
    let err = logic.handle_piped_api_domain_update().unwrap_err();
    assert!(matches!(err, Error::AllPipedApiDomainsDown(_)));
}
