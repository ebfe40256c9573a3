use audiocloud::editor::EditorEvent;
use audiocloud::error::{Error, ErrorType};
use audiocloud::helpers::{cached_path, hash_sample};
use audiocloud::sample::{PackInfo, Sample, SampleType, SearchResult};
use audiocloud::search::{SearchOptions, SearchView};
use audiocloud::settings::{SearchViewTitle, Settings, SettingsChanged};
use audiocloud::state::{Action, AudioCloud, Failure, Message, ViewControl};
use audiocloud::status::StatusBarLevel;

fn sample(name: &str, path: &str) -> Sample {
    Sample { name: name.to_string(), path: path.to_string(), sampletype: SampleType::OneShot }
}

fn app() -> AudioCloud {
    AudioCloud::new(true, 0)
}

#[test]
fn new_state_is_idle() {
    let a = app();
    assert_eq!(a.view, ViewControl::Main);
    assert!(a.results.is_none());
    assert!(!a.player.is_playing);
    assert_eq!(a.player.name, "None");
    assert_eq!(a.settings.server_url, "http://127.0.0.1:4040/");
    assert_eq!(a.settings.max_results, 50);
    assert_eq!(a.status.text, "idle... ");
    assert_eq!(a.status.level, StatusBarLevel::Neutral);
    assert_eq!(a.search_options, SearchOptions::new());
    assert!(!a.search_view_state.show_pack_overlay);
    assert_eq!(a.search_view_state.pack_id, None);
    assert_eq!(a.editor.sample.path, "none");
}

#[test]
fn type_filter_follows_toggles() {
    let mut o = SearchOptions::new();
    assert_eq!(o.type_filter(), None);
    o.show_loops = false;
    assert_eq!(o.type_filter(), Some(SampleType::OneShot));
    o.show_oneshots = false;
    assert_eq!(o.type_filter(), None);
    o.show_loops = true;
    assert_eq!(o.type_filter(), Some(SampleType::Loop(0)));
}

#[test]
fn blank_input_schedules_no_search() {
    let mut a = app();
    assert_eq!(a.update(Message::InputChanged(String::new())), Action::Nothing);
    assert_eq!(a.update(Message::InputChanged("-".to_string())), Action::Nothing);
    assert_eq!(a.update(Message::ShowLoopsCheckbox(false)), Action::Nothing);
    assert_eq!(a.input, "-");
}

#[test]
fn input_schedules_search_with_derived_params() {
    let mut a = app();
    a.update(Message::SearchView(SearchView::PackID(Some("p1".to_string()))));
    a.update(Message::ShowLoopsCheckbox(false));
    match a.update(Message::InputChanged("kick".to_string())) {
        Action::Search { params, server_url } => {
            assert_eq!(params.query, "kick");
            assert_eq!(params.sample_type, Some(SampleType::OneShot));
            assert_eq!(params.pack_id, Some("p1".to_string()));
            assert_eq!(params.max_results, Some(50));
            assert_eq!(params.max_tempo, None);
            assert_eq!(params.min_tempo, None);
            assert_eq!(server_url, "http://127.0.0.1:4040/");
        }
        other => panic!("unexpected {:?}", other),
    }
    match a.update(Message::ShowOneshotsCheckbox(false)) {
        Action::Search { params, .. } => assert_eq!(params.sample_type, None),
        other => panic!("unexpected {:?}", other),
    }
    assert_eq!(a.update(Message::ShowOnlyFavouritesToggled(true)), Action::Nothing);
}

#[test]
fn favourite_toggle_adds_then_removes() {
    let mut a = app();
    let s = sample("Kick", "drums/kick.wav");
    a.update(Message::ToggleFavourite(s.clone()));
    assert_eq!(a.settings.favourite_samples, vec![s.clone()]);
    assert!(a.settings.is_favourite(&s));
    let renamed = sample("Other name", "drums/kick.wav");
    assert!(a.settings.is_favourite(&renamed));
    a.update(Message::ToggleFavourite(renamed));
    assert!(a.settings.favourite_samples.is_empty());
}

#[test]
fn favourite_toggle_keeps_other_entries() {
    let mut s = Settings::default();
    let a = sample("A", "a");
    let b = sample("B", "b");
    let c = sample("C", "c");
    s.toggle_favourite(a.clone());
    s.toggle_favourite(b.clone());
    s.toggle_favourite(c.clone());
    s.toggle_favourite(b.clone());
    assert_eq!(s.favourite_samples, vec![a.clone(), c.clone()]);
    s.rem_favourite("missing");
    assert_eq!(s.favourite_samples, vec![a, c]);
}

#[test]
fn stale_playback_completion_is_ignored() {
    let mut a = app();
    assert_eq!(a.update(Message::TempAudioLoaded { decoded: true, now: 10 }), Action::StartPreview { token: 10 });
    assert!(a.player.is_playing);
    assert_eq!(
        a.update(Message::TogglePlayer { sink_empty: false, sink_paused: false, now: 20 }),
        Action::PausePlayback
    );
    assert!(!a.player.is_playing);
    let before = a.clone();
    a.update(Message::SamplePlayDone(10));
    assert_eq!(a, before);
    assert_eq!(
        a.update(Message::TogglePlayer { sink_empty: false, sink_paused: true, now: 30 }),
        Action::ResumePlayback
    );
    assert!(a.player.is_playing);
    a.update(Message::SamplePlayDone(20));
    assert!(a.player.is_playing);
    a.update(Message::SamplePlayDone(30));
    assert!(!a.player.is_playing);
    assert_eq!(a.player.name, "None");
}

#[test]
fn newer_preview_supersedes_older_timer() {
    let mut a = app();
    a.update(Message::PlaySample("a.wav".to_string(), "A".to_string()));
    a.update(Message::TempAudioLoaded { decoded: true, now: 1 });
    a.update(Message::PlaySample("b.wav".to_string(), "B".to_string()));
    a.update(Message::TempAudioLoaded { decoded: true, now: 2 });
    a.update(Message::SamplePlayDone(1));
    assert!(a.player.is_playing);
    assert_eq!(a.player.name, "B");
    a.update(Message::SamplePlayDone(2));
    assert!(!a.player.is_playing);
}

#[test]
fn toggle_on_empty_sink_does_nothing() {
    let mut a = app();
    let before = a.clone();
    assert_eq!(
        a.update(Message::TogglePlayer { sink_empty: true, sink_paused: false, now: 5 }),
        Action::Nothing
    );
    assert_eq!(a, before);
}

#[test]
fn playback_without_device_is_inert() {
    let mut a = AudioCloud::new(false, 0);
    assert_eq!(a.update(Message::TempAudioLoaded { decoded: true, now: 3 }), Action::Nothing);
    assert!(!a.player.is_playing);
    assert_eq!(
        a.update(Message::TogglePlayer { sink_empty: false, sink_paused: false, now: 4 }),
        Action::Nothing
    );
}

#[test]
fn undecodable_preview_sets_status_only() {
    let mut a = app();
    assert_eq!(a.update(Message::TempAudioLoaded { decoded: false, now: 3 }), Action::Nothing);
    assert_eq!(a.status.level, StatusBarLevel::Danger);
    assert_eq!(a.status.text, "Couldnt open downloaded file ");
    assert!(!a.player.is_playing);
}

#[test]
fn play_request_records_name_and_fetches() {
    let mut a = app();
    let act = a.update(Message::PlaySample("d/k #1.wav".to_string(), "Kick".to_string()));
    assert_eq!(a.player.name, "Kick");
    assert_eq!(
        act,
        Action::FetchPreview {
            server_url: "http://127.0.0.1:4040/".to_string(),
            path: "d/k #1.wav".to_string()
        }
    );
}

#[test]
fn empty_result_kept_while_showing_all_favourites() {
    let mut a = app();
    let full = SearchResult { samples: vec![sample("A", "a")] };
    a.update(Message::SearchResultRecived(full.clone()));
    a.update(Message::ShowAllFavourites);
    a.update(Message::SearchResultRecived(SearchResult { samples: vec![] }));
    assert_eq!(a.results, Some(full));
}

#[test]
fn empty_result_clears_otherwise() {
    let mut a = app();
    a.update(Message::SearchResultRecived(SearchResult { samples: vec![sample("A", "a")] }));
    a.update(Message::SearchResultRecived(SearchResult { samples: vec![] }));
    assert_eq!(a.results, None);
}

#[test]
fn download_then_cache_reset() {
    let mut a = app();
    let path = "Kick [A].wav".to_string();
    assert_eq!(
        a.update(Message::DownloadSample(path.clone())),
        Action::Download { server_url: "http://127.0.0.1:4040/".to_string(), path: path.clone() }
    );
    a.update(Message::SampleAudioDownloaded(path.clone()));
    assert_eq!(a.settings.dl_samples_hash, vec![hash_sample("Kick [A].wav")]);
    assert!(a.settings.is_downloaded(&path));
    assert!(a.settings.is_downloaded("Kick [A]"));
    assert_eq!(a.status.text, "Downloaded sample ");
    a.update(Message::SampleAudioDownloaded(path.clone()));
    assert_eq!(a.settings.dl_samples_hash.len(), 1);
    assert_eq!(a.update(Message::ResetCache), Action::ClearCache);
    assert_eq!(a.settings.dl_samples_hash.len(), 1);
    a.update(Message::CacheReset);
    assert!(a.settings.dl_samples_hash.is_empty());
    assert!(!a.settings.is_downloaded(&path));
}

#[test]
fn copy_sample_points_at_cached_file() {
    let mut a = app();
    let act = a.update(Message::CopySample("Kick [A].wav".to_string()));
    assert_eq!(act, Action::CopyFile { path: cached_path("Kick [A].wav") });
    assert_eq!(a.status.text, "Copied sample");
}

#[test]
fn close_request_saves_with_theme_then_exits() {
    let mut a = app();
    match a.update(Message::CloseRequested) {
        Action::SaveSettings { settings, exit } => {
            assert!(exit);
            assert_eq!(settings.theme, "Dark");
        }
        other => panic!("unexpected {:?}", other),
    }
    a.update(Message::ThemeSelected("Nord".to_string()));
    match a.update(Message::SaveSettings) {
        Action::SaveSettings { settings, exit } => {
            assert!(!exit);
            assert_eq!(settings.theme, "Nord");
            assert_eq!(settings.server_url, a.settings.server_url);
        }
        other => panic!("unexpected {:?}", other),
    }
    assert_eq!(a.update(Message::Exit), Action::CloseWindow);
}

#[test]
fn reset_settings_keeps_theme_and_saves() {
    let mut a = app();
    a.update(Message::ThemeSelected("Light".to_string()));
    a.update(Message::MaxRequestsChanged(7));
    a.update(Message::ToggleFavourite(sample("A", "a")));
    match a.update(Message::ResetSettings) {
        Action::SaveSettings { settings, exit } => {
            assert!(!exit);
            assert_eq!(settings.theme, "Light");
            assert_eq!(settings.max_results, 50);
            assert!(settings.favourite_samples.is_empty());
        }
        other => panic!("unexpected {:?}", other),
    }
    assert_eq!(a.selected_theme, Some("Light".to_string()));
    assert_eq!(a.settings.max_results, 50);
}

#[test]
fn loaded_settings_drop_duplicate_favourites() {
    let mut a = app();
    let mut s = Settings::default();
    s.theme = "Nord".to_string();
    s.server_url = "http://other/".to_string();
    s.favourite_samples = vec![sample("A", "a"), sample("B", "b"), sample("A2", "a")];
    let act = a.update(Message::SettingsLoaded(s));
    assert_eq!(act, Action::FetchPackMeta { server_url: "http://other/".to_string() });
    assert_eq!(a.settings.favourite_samples, vec![sample("A", "a"), sample("B", "b")]);
    assert_eq!(a.selected_theme, Some("Nord".to_string()));
    assert_eq!(a.status.text, "Loaded settings ");
}

#[test]
fn server_url_gets_slash_and_is_probed() {
    let mut a = app();
    let act = a.update(Message::ServerUrlSubmited("http://h:1".to_string()));
    assert_eq!(a.settings.server_url, "http://h:1/");
    assert_eq!(act, Action::CheckConnection { server_url: "http://h:1/".to_string() });
    a.update(Message::ServerStatusUpdate(true));
    assert_eq!(a.server_status, Some(true));
}

#[test]
fn pack_overlay_fetches_catalog_only_when_empty() {
    let mut a = app();
    let act = a.update(Message::SearchView(SearchView::PackOverlay));
    assert!(a.search_view_state.show_pack_overlay);
    assert_eq!(act, Action::FetchPackMeta { server_url: "http://127.0.0.1:4040/".to_string() });
    assert_eq!(a.status.text, "Getting IDs");
    let packs = vec![PackInfo { id: "1".into(), name: "P".into(), description: "D".into() }];
    a.update(Message::PacksMetaRecived(Ok(packs.clone())));
    assert_eq!(a.pack_meta, packs);
    assert_eq!(a.status.text, "Recived PackIDs");
    assert_eq!(a.update(Message::SearchView(SearchView::PackOverlay)), Action::Nothing);
    assert!(!a.search_view_state.show_pack_overlay);
    a.update(Message::PacksMetaRecived(Err(Error::new(ErrorType::Connection))));
    assert_eq!(a.status.text, "Failed to get IDs");
    assert_eq!(a.pack_meta, packs);
}

#[test]
fn editor_session_switches_view_and_loads() {
    let mut a = app();
    let s = sample("Kick", "kick.wav");
    assert_eq!(
        a.update(Message::EditorSessionDL(s.clone())),
        Action::FetchEditorAudio { sample: s.clone(), server_url: "http://127.0.0.1:4040/".to_string() }
    );
    assert_eq!(a.update(Message::EditorSession(s.clone())), Action::LoadEditorAudio);
    assert_eq!(a.view, ViewControl::Editor);
    assert_eq!(a.editor.sample, s);
    assert_eq!(a.update(Message::Editor(EditorEvent::ReloadWaveform)), Action::ReloadWaveform);
    a.update(Message::Editor(EditorEvent::WaveformReloaded));
    assert_eq!(a.status.level, StatusBarLevel::Succes);
    assert_eq!(a.status.text, "Loaded Waveform");
}

#[test]
fn settings_button_toggles_view() {
    let mut a = app();
    a.update(Message::SettingsButtonToggled);
    assert_eq!(a.view, ViewControl::Settings);
    a.update(Message::SettingsButtonToggled);
    assert_eq!(a.view, ViewControl::Main);
    a.update(Message::GoView(ViewControl::Editor));
    a.update(Message::SettingsButtonToggled);
    assert_eq!(a.view, ViewControl::Settings);
}

#[test]
fn shuffle_permutes_results() {
    let mut a = app();
    assert_eq!(a.update(Message::ShuffleResults), Action::Nothing);
    assert!(a.results.is_none());
    let samples: Vec<Sample> = (0..20).map(|i| sample(&format!("S{}", i), &format!("p{}", i))).collect();
    a.update(Message::SearchResultRecived(SearchResult { samples: samples.clone() }));
    a.update(Message::ShuffleResults);
    let mut got: Vec<String> = a.results.unwrap().samples.into_iter().map(|s| s.path).collect();
    let mut want: Vec<String> = samples.into_iter().map(|s| s.path).collect();
    got.sort();
    want.sort();
    assert_eq!(got, want);
}

#[test]
fn shown_samples_follow_favourite_filters() {
    let mut a = app();
    assert!(a.shown_samples().is_none());
    let r = vec![sample("A", "a"), sample("B", "b"), sample("C", "c")];
    a.update(Message::SearchResultRecived(SearchResult { samples: r.clone() }));
    assert_eq!(a.shown_samples(), Some(r.clone()));
    a.update(Message::ToggleFavourite(sample("C", "c")));
    a.update(Message::ToggleFavourite(sample("A", "a")));
    a.update(Message::ShowOnlyFavouritesToggled(true));
    assert_eq!(a.shown_samples(), Some(vec![sample("A", "a"), sample("C", "c")]));
    a.update(Message::ShowOnlyFavouritesToggled(false));
    a.update(Message::ShowAllFavourites);
    assert_eq!(a.shown_samples(), Some(vec![sample("C", "c"), sample("A", "a")]));
}

#[test]
fn settings_panel_changes_apply() {
    let mut a = app();
    a.update(Message::Settings(SettingsChanged::ShowGradient(true)));
    assert!(a.settings.searchbar_gradient);
    a.update(Message::Settings(SettingsChanged::TitleSetting(SearchViewTitle::Title)));
    assert_eq!(a.settings.searchview_title, Some(SearchViewTitle::Title));
    assert_eq!(a.update(Message::LoadSettings), Action::LoadSettings);
    a.update(Message::SettingsSaved);
    assert_eq!(a.status.text, "Settings saved ");
}

#[test]
fn search_view_title_choices_and_labels() {
    assert_eq!(
        SearchViewTitle::all(),
        vec![SearchViewTitle::Title, SearchViewTitle::Spacing, SearchViewTitle::Nothing]
    );
    assert_eq!(SearchViewTitle::Title.label(), "Title");
    assert_eq!(SearchViewTitle::Spacing.label(), "Space");
    assert_eq!(SearchViewTitle::Nothing.label(), "None");
}

#[test]
fn error_carries_its_kind() {
    let e = Error::new(ErrorType::JSON);
    assert_eq!(e.e, ErrorType::JSON);
    assert_eq!(e.message(), "Errored");
}

#[test]
fn nothing_changes_nothing() {
    let mut a = app();
    let before = a.clone();
    assert_eq!(a.update(Message::Nothing), Action::Nothing);
    assert_eq!(a.update(Message::Editor(EditorEvent::PlaybackStart)), Action::Nothing);
    assert_eq!(a, before);
}

#[test]
fn failures_show_a_danger_status() {
    let mut a = app();
    let before = a.clone();
    assert_eq!(a.update(Message::Failed(Failure::Download)), Action::Nothing);
    assert_eq!(a.status.level, StatusBarLevel::Danger);
    assert_eq!(a.status.text, "Download failed");
    assert_eq!(a.settings, before.settings);
    a.update(Message::Failed(Failure::Search));
    assert_eq!(a.status.text, "Search failed");
    a.update(Message::Failed(Failure::LoadSettings));
    assert_eq!(a.status.text, "Couldnt read settings, using defaults");
    a.update(Message::CopySample("x.wav".to_string()));
    a.update(Message::Failed(Failure::Clipboard));
    assert_eq!(a.status.text, "Couldnt copy sample");
}

#[test]
fn stamps_advance_when_the_clock_stands_still() {
    let mut a = app();
    assert_eq!(a.update(Message::TempAudioLoaded { decoded: true, now: 0 }), Action::StartPreview { token: 1 });
    a.update(Message::TogglePlayer { sink_empty: false, sink_paused: false, now: 1 });
    assert_eq!(a.player.last_update_playing, 2);
    assert!(!a.player.is_playing);
    a.update(Message::SamplePlayDone(1));
    assert!(!a.player.is_playing);
    a.update(Message::TogglePlayer { sink_empty: false, sink_paused: true, now: 50 });
    assert_eq!(a.player.last_update_playing, 50);
    a.update(Message::SamplePlayDone(2));
    assert!(a.player.is_playing);
}
