use vstd::prelude::*;
use rand::seq::SliceRandom;
use crate::editor::{Editor, EditorEvent};
use crate::error::Error;
use crate::helpers::{cache_file, cached_path, sample_id};
use crate::player::{next_stamp, Player};
use crate::request::{normalize_server_url, with_slash};
use crate::sample::{PackInfo, Sample, SampleType, SearchParams, SearchResult};
use crate::search::{
    is_blank_query, params_for, search_params, SearchOptions, SearchView, SearchViewState,
};
use crate::settings::{
    copied_with_theme, first_of_each_path, has_entry, has_path, lemma_toggle_keeps_paths_unique,
    toggled, unique_paths, with_entry, Settings, SettingsChanged,
};
use crate::status::{StatusBar, StatusBarLevel};
use crate::text::owned;

verus! {

/// The screen on show.
#[derive(Clone, Copy, Debug, PartialEq, Eq, Structural)]
pub enum ViewControl {
    Main,
    Settings,
    Editor,
}

/// One event for the state machine: a user action, or the completion of
/// work that the host carried out for an earlier [`Action`]. Times are the
/// host's monotonic clock, in any unit that never goes back.
#[derive(Debug, PartialEq, Eq)]
pub enum Message {
    Nothing,
    /// The window is about to close.
    CloseRequested,
    /// The settings were written after a close request.
    Exit,
    GoView(ViewControl),
    EditorSessionDL(Sample),
    /// The editor's copy of the sample's audio was written.
    EditorSession(Sample),
    Editor(EditorEvent),
    SearchView(SearchView),
    CopySample(String),
    InputChanged(String),
    SettingsButtonToggled,
    SearchResultRecived(SearchResult),
    ServerStatusUpdate(bool),
    ServerUrlSubmited(String),
    /// Play the sample at the given path, shown under the given name.
    PlaySample(String, String),
    /// The preview file was fetched and decoded (or not) at `now`.
    TempAudioLoaded { decoded: bool, now: u64 },
    /// The timer of the playback started at the given time ran out.
    SamplePlayDone(u64),
    /// The play/pause button, with the state of the output sink at `now`.
    TogglePlayer { sink_empty: bool, sink_paused: bool, now: u64 },
    ThemeSelected(String),
    ShowOneshotsCheckbox(bool),
    ShowLoopsCheckbox(bool),
    ShowOnlyFavouritesToggled(bool),
    ShowAllFavourites,
    MaxRequestsChanged(i32),
    LoadSettings,
    SaveSettings,
    SettingsLoaded(Settings),
    SettingsSaved,
    PacksMetaRecived(Result<Vec<PackInfo>, Error>),
    ResetSettings,
    ResetCache,
    /// The cache directory was emptied.
    CacheReset,
    DownloadSample(String),
    /// The sample at the given path was written to the cache.
    SampleAudioDownloaded(String),
    ToggleFavourite(Sample),
    ShuffleResults,
    Settings(SettingsChanged),
    /// Work handed to the host failed; shown to the user, nothing else changes.
    Failed(Failure),
}

/// Outside work that the host could not carry out.
#[derive(Clone, Copy, Debug, PartialEq, Eq, Structural)]
pub enum Failure {
    Search,
    Preview,
    Download,
    EditorAudio,
    Clipboard,
    ClearCache,
    LoadSettings,
    SaveSettings,
}

/// The status text shown for a failure.
pub open spec fn failure_text(f: Failure) -> Seq<char> {
    match f {
        Failure::Search => "Search failed"@,
        Failure::Preview => "Couldnt fetch sample"@,
        Failure::Download => "Download failed"@,
        Failure::EditorAudio => "Couldnt load editor audio"@,
        Failure::Clipboard => "Couldnt copy sample"@,
        Failure::ClearCache => "Couldnt reset downloads"@,
        Failure::LoadSettings => "Couldnt read settings, using defaults"@,
        Failure::SaveSettings => "Couldnt save settings"@,
    }
}

/// The status text shown for `f`.
pub fn failure_message(f: Failure) -> (r: &'static str)
    ensures
        r@ == failure_text(f),
{
    match f {
        Failure::Search => "Search failed",
        Failure::Preview => "Couldnt fetch sample",
        Failure::Download => "Download failed",
        Failure::EditorAudio => "Couldnt load editor audio",
        Failure::Clipboard => "Couldnt copy sample",
        Failure::ClearCache => "Couldnt reset downloads",
        Failure::LoadSettings => "Couldnt read settings, using defaults",
        Failure::SaveSettings => "Couldnt save settings",
    }
}

/// The work that the host is to carry out after an event; its completion,
/// if any, comes back as a [`Message`].
#[derive(Clone, Debug, PartialEq, Eq)]
pub enum Action {
    Nothing,
    /// Post `params` to the server's search endpoint.
    Search { params: SearchParams, server_url: String },
    /// Probe the server; answer with `ServerStatusUpdate`.
    CheckConnection { server_url: String },
    /// Fetch the sample into the preview file; answer with `TempAudioLoaded`.
    FetchPreview { server_url: String, path: String },
    /// Replace what the sink holds by the decoded preview at the current
    /// volume, play it, and when its length is known send `SamplePlayDone`
    /// with `token` once it has run out.
    StartPreview { token: u64 },
    PausePlayback,
    ResumePlayback,
    /// Read the settings file; answer with `SettingsLoaded`.
    LoadSettings,
    /// Write `settings`; answer with `Exit` when `exit`, else `SettingsSaved`.
    SaveSettings { settings: Settings, exit: bool },
    /// Fetch the catalog of packs; answer with `PacksMetaRecived`.
    FetchPackMeta { server_url: String },
    /// Fetch the sample into the cache; answer with `SampleAudioDownloaded`.
    Download { server_url: String, path: String },
    /// Hand the file at this relative path to the clipboard.
    CopyFile { path: String },
    /// Remove and recreate the cache directory; answer with `CacheReset`.
    ClearCache,
    /// Fetch the sample into the editor file; answer with `EditorSession`.
    FetchEditorAudio { sample: Sample, server_url: String },
    /// Decode the editor file into the editor's buffer, then compute its
    /// waveform; answer with `Editor(WaveformReloaded)`.
    LoadEditorAudio,
    /// Compute the waveform of the editor's buffer again.
    ReloadWaveform,
    CloseWindow,
}

/// The application state: the only thing that events change.
#[derive(Clone, Debug, PartialEq, Eq)]
pub struct AudioCloud {
    pub input: String,
    pub view: ViewControl,
    pub results: Option<SearchResult>,
    pub server_status: Option<bool>,
    /// Whether an audio output could be opened at start.
    pub audio_ready: bool,
    pub selected_theme: Option<String>,
    pub search_options: SearchOptions,
    pub search_view_state: SearchViewState,
    pub pack_meta: Vec<PackInfo>,
    pub settings: Settings,
    pub status: StatusBar,
    pub player: Player,
    pub editor: Editor,
}

/// Relies on `rand::seq::SliceRandom::shuffle` with the thread-local
/// generator, which only swaps elements: the result is a permutation.
#[verifier::external_body]
fn shuffle_samples(v: &mut Vec<Sample>)
    ensures
        final(v)@.to_multiset() == old(v)@.to_multiset(),
        final(v)@.len() == old(v)@.len(),
{
    v.shuffle(&mut rand::thread_rng())
}

/// The theme name written with the settings: the one selected, else "Dark".
pub open spec fn saved_theme(st: AudioCloud) -> Seq<char> {
    match st.selected_theme {
        Some(t) => t@,
        None => "Dark"@,
    }
}

/// `a` is the search that the state `st` calls for, or nothing when its
/// query text is blank.
pub open spec fn requested(st: AudioCloud, a: Action) -> bool {
    if is_blank_query(st.input@) {
        a == Action::Nothing
    } else {
        a matches Action::Search { params, server_url } && params_for(
            params,
            st.input,
            st.search_options,
            st.search_view_state.pack_id,
            st.settings.max_results,
        ) && server_url == st.settings.server_url
    }
}

/// `a` writes the settings of `st` with its theme name.
pub open spec fn saves(st: AudioCloud, a: Action, exit: bool) -> bool {
    a matches Action::SaveSettings { settings, exit: e } && e == exit && copied_with_theme(
        settings,
        st.settings,
        saved_theme(st),
    )
}

/// `post` is `pre` with only the status bar changed, to `level` and `text`.
pub open spec fn status_set(
    pre: AudioCloud,
    post: AudioCloud,
    level: StatusBarLevel,
    text: Seq<char>,
) -> bool {
    &&& post == AudioCloud { status: post.status, ..pre }
    &&& post.status.level == level
    &&& post.status.text@ == text
}

/// `s` holds the default settings.
pub open spec fn is_default(s: Settings) -> bool {
    &&& s.theme@ == "Dark"@
    &&& !s.searchbar_gradient
    &&& s.searchview_title == Some(crate::settings::SearchViewTitle::Spacing)
    &&& s.server_url@ == "http://127.0.0.1:4040/"@
    &&& s.max_results == 50
    &&& s.favourite_samples@.len() == 0
    &&& s.dl_samples_hash@.len() == 0
}

/// What handling `m` in state `pre` does: the next state `post` and the
/// work `a` handed to the host.
pub open spec fn handled(pre: AudioCloud, post: AudioCloud, m: Message, a: Action) -> bool {
    match m {
        Message::Nothing => post == pre && a == Action::Nothing,
        Message::Failed(f) => {
            status_set(pre, post, StatusBarLevel::Danger, failure_text(f)) && a == Action::Nothing
        },
        Message::CloseRequested => post == pre && saves(pre, a, true),
        Message::Exit => post == pre && a == Action::CloseWindow,
        Message::GoView(v) => post == (AudioCloud { view: v, ..pre }) && a == Action::Nothing,
        Message::SettingsButtonToggled => {
            &&& post == (AudioCloud {
                view: if pre.view == ViewControl::Settings {
                    ViewControl::Main
                } else {
                    ViewControl::Settings
                },
                ..pre
            })
            &&& a == Action::Nothing
        },
        Message::EditorSessionDL(s) => {
            &&& post == pre
            &&& a == (Action::FetchEditorAudio { sample: s, server_url: pre.settings.server_url })
        },
        Message::EditorSession(s) => {
            &&& post == (AudioCloud {
                editor: Editor { sample: s },
                view: ViewControl::Editor,
                status: post.status,
                ..pre
            })
            &&& post.status.level == StatusBarLevel::Neutral
            &&& post.status.text@ == "Loading editor..."@
            &&& a == Action::LoadEditorAudio
        },
        Message::Editor(e) => match e {
            EditorEvent::PlaybackStart => post == pre && a == Action::Nothing,
            EditorEvent::ReloadWaveform => post == pre && a == Action::ReloadWaveform,
            EditorEvent::WaveformReloaded => {
                &&& status_set(pre, post, StatusBarLevel::Succes, "Loaded Waveform"@)
                &&& a == Action::Nothing
            },
        },
        Message::SearchView(v) => match v {
            SearchView::PackID(id) => {
                &&& post == (AudioCloud {
                    search_view_state: SearchViewState { pack_id: id, ..pre.search_view_state },
                    ..pre
                })
                &&& a == Action::Nothing
            },
            SearchView::PackOverlay => {
                let flipped = AudioCloud {
                    search_view_state: SearchViewState {
                        show_pack_overlay: !pre.search_view_state.show_pack_overlay,
                        ..pre.search_view_state
                    },
                    ..pre
                };
                if pre.pack_meta@.len() == 0 {
                    &&& status_set(flipped, post, StatusBarLevel::Neutral, "Getting IDs"@)
                    &&& a == (Action::FetchPackMeta { server_url: pre.settings.server_url })
                } else {
                    post == flipped && a == Action::Nothing
                }
            },
            SearchView::GetPackIDS => {
                &&& status_set(pre, post, StatusBarLevel::Neutral, "Getting IDs"@)
                &&& a == (Action::FetchPackMeta { server_url: pre.settings.server_url })
            },
        },
        Message::CopySample(path) => {
            &&& status_set(pre, post, StatusBarLevel::Succes, "Copied sample"@)
            &&& a matches Action::CopyFile { path: file } && file@ == cache_file(path@)
        },
        Message::InputChanged(q) => post == (AudioCloud { input: q, ..pre }) && requested(post, a),
        Message::SearchResultRecived(r) => {
            &&& a == Action::Nothing
            &&& if r.samples@.len() > 0 {
                post == (AudioCloud { results: Some(r), ..pre })
            } else if !pre.search_options.show_all_favourites {
                post == (AudioCloud { results: None, ..pre })
            } else {
                post == pre
            }
        },
        Message::ServerStatusUpdate(b) => {
            post == (AudioCloud { server_status: Some(b), ..pre }) && a == Action::Nothing
        },
        Message::ServerUrlSubmited(url) => {
            &&& post == (AudioCloud {
                settings: Settings { server_url: post.settings.server_url, ..pre.settings },
                ..pre
            })
            &&& post.settings.server_url@ == with_slash(url@)
            &&& a == (Action::CheckConnection { server_url: post.settings.server_url })
        },
        Message::PlaySample(path, name) => {
            &&& post == (AudioCloud { player: Player { name: name, ..pre.player }, ..pre })
            &&& a == (Action::FetchPreview { server_url: pre.settings.server_url, path: path })
        },
        Message::TempAudioLoaded { decoded, now } => {
            if !decoded {
                &&& status_set(pre, post, StatusBarLevel::Danger, "Couldnt open downloaded file "@)
                &&& a == Action::Nothing
            } else if !pre.audio_ready {
                post == pre && a == Action::Nothing
            } else {
                let stamp = next_stamp(pre.player.last_update_playing, now);
                post == (AudioCloud {
                    player: Player { is_playing: true, last_update_playing: stamp, ..pre.player },
                    ..pre
                }) && a == (Action::StartPreview { token: stamp })
            }
        },
        Message::SamplePlayDone(token) => {
            &&& a == Action::Nothing
            &&& if token == pre.player.last_update_playing {
                &&& post == (AudioCloud { player: post.player, ..pre })
                &&& !post.player.is_playing
                &&& post.player.name@ == "None"@
                &&& post.player.last_update_playing == pre.player.last_update_playing
            } else {
                post == pre
            }
        },
        Message::TogglePlayer { sink_empty, sink_paused, now } => {
            if !pre.audio_ready || sink_empty {
                post == pre && a == Action::Nothing
            } else {
                &&& post == (AudioCloud {
                    player: Player {
                        is_playing: !pre.player.is_playing,
                        last_update_playing: next_stamp(pre.player.last_update_playing, now),
                        ..pre.player
                    },
                    ..pre
                })
                &&& a == if sink_paused {
                    Action::ResumePlayback
                } else {
                    Action::PausePlayback
                }
            }
        },
        Message::ThemeSelected(t) => {
            post == (AudioCloud { selected_theme: Some(t), ..pre }) && a == Action::Nothing
        },
        Message::ShowOneshotsCheckbox(v) => {
            &&& post == (AudioCloud {
                search_options: SearchOptions { show_oneshots: v, ..pre.search_options },
                ..pre
            })
            &&& requested(post, a)
        },
        Message::ShowLoopsCheckbox(v) => {
            &&& post == (AudioCloud {
                search_options: SearchOptions { show_loops: v, ..pre.search_options },
                ..pre
            })
            &&& requested(post, a)
        },
        Message::ShowOnlyFavouritesToggled(v) => {
            &&& post == (AudioCloud {
                search_options: SearchOptions { show_only_favourites: v, ..pre.search_options },
                ..pre
            })
            &&& a == Action::Nothing
        },
        Message::ShowAllFavourites => {
            &&& post == (AudioCloud {
                search_options: SearchOptions {
                    show_all_favourites: !pre.search_options.show_all_favourites,
                    ..pre.search_options
                },
                ..pre
            })
            &&& a == Action::Nothing
        },
        Message::MaxRequestsChanged(v) => {
            &&& post == (AudioCloud { settings: Settings { max_results: v, ..pre.settings }, ..pre })
            &&& a == Action::Nothing
        },
        Message::LoadSettings => post == pre && a == Action::LoadSettings,
        Message::SaveSettings => post == pre && saves(pre, a, false),
        Message::SettingsLoaded(s) => {
            &&& post == (AudioCloud {
                settings: Settings { favourite_samples: post.settings.favourite_samples, ..s },
                selected_theme: Some(s.theme),
                status: post.status,
                ..pre
            })
            &&& post.settings.favourite_samples@ == first_of_each_path(s.favourite_samples@)
            &&& post.status.level == StatusBarLevel::Succes
            &&& post.status.text@ == "Loaded settings "@
            &&& a == (Action::FetchPackMeta { server_url: s.server_url })
        },
        Message::SettingsSaved => {
            status_set(pre, post, StatusBarLevel::Succes, "Settings saved "@) && a == Action::Nothing
        },
        Message::PacksMetaRecived(r) => {
            &&& a == Action::Nothing
            &&& match r {
                Err(_) => status_set(pre, post, StatusBarLevel::Danger, "Failed to get IDs"@),
                Ok(m) => status_set(
                    AudioCloud { pack_meta: m, ..pre },
                    post,
                    StatusBarLevel::Succes,
                    "Recived PackIDs"@,
                ),
            }
        },
        Message::ResetSettings => {
            &&& post == (AudioCloud { settings: post.settings, ..pre })
            &&& is_default(post.settings)
            &&& saves(post, a, false)
        },
        Message::ResetCache => post == pre && a == Action::ClearCache,
        Message::CacheReset => {
            &&& post == (AudioCloud {
                settings: Settings { dl_samples_hash: post.settings.dl_samples_hash, ..pre.settings },
                ..pre
            })
            &&& post.settings.dl_samples_hash@.len() == 0
            &&& a == Action::Nothing
        },
        Message::DownloadSample(path) => {
            &&& post == pre
            &&& a == (Action::Download { server_url: pre.settings.server_url, path: path })
        },
        Message::SampleAudioDownloaded(path) => {
            &&& post == (AudioCloud {
                settings: Settings { dl_samples_hash: post.settings.dl_samples_hash, ..pre.settings },
                status: post.status,
                ..pre
            })
            &&& exists|id: String|
                id@ == sample_id(path@) && post.settings.dl_samples_hash@ == with_entry(
                    pre.settings.dl_samples_hash@,
                    id,
                )
            &&& has_entry(post.settings.dl_samples_hash@, sample_id(path@))
            &&& post.status.level == StatusBarLevel::Succes
            &&& post.status.text@ == "Downloaded sample "@
            &&& a == Action::Nothing
        },
        Message::ToggleFavourite(s) => {
            &&& post == (AudioCloud {
                settings: Settings {
                    favourite_samples: post.settings.favourite_samples,
                    ..pre.settings
                },
                ..pre
            })
            &&& post.settings.favourite_samples@ == toggled(pre.settings.favourite_samples@, s)
            &&& a == Action::Nothing
        },
        Message::ShuffleResults => {
            &&& a == Action::Nothing
            &&& match pre.results {
                None => post == pre,
                Some(r) => {
                    &&& post == (AudioCloud { results: post.results, ..pre })
                    &&& post.results matches Some(q) && q.samples@.to_multiset()
                        == r.samples@.to_multiset()
                },
            }
        },
        Message::Settings(c) => {
            &&& post == (AudioCloud { settings: post.settings, ..pre })
            &&& post.settings == match c {
                SettingsChanged::ShowGradient(v) => Settings { searchbar_gradient: v, ..pre.settings },
                SettingsChanged::TitleSetting(t) => Settings {
                    searchview_title: Some(t),
                    ..pre.settings
                },
            }
            &&& a == Action::Nothing
        },
    }
}

/// The samples of `src` that the result list shows: all of them, or only
/// those whose path is among the favourites `favs` when `only_favs` is set.
pub open spec fn kept_rows(src: Seq<Sample>, favs: Seq<Sample>, only_favs: bool) -> Seq<Sample>
    decreases src.len(),
{
    if src.len() == 0 {
        src
    } else {
        let kept = kept_rows(src.drop_last(), favs, only_favs);
        if !only_favs || has_path(favs, src.last().path@) {
            kept.push(src.last())
        } else {
            kept
        }
    }
}

/// Whatever the event, no search is handed out while the query text is
/// empty or a lone `-`.
pub proof fn lemma_blank_query_never_searches(
    pre: AudioCloud,
    post: AudioCloud,
    m: Message,
    a: Action,
)
    requires
        handled(pre, post, m, a),
        is_blank_query(post.input@),
    ensures
        !(a is Search),
{
}

/// Starting a preview and every later pause or resume give the player a
/// stamp later than the one before, so that the completion signal of the
/// preview goes stale as soon as the player is paused or resumed; the
/// signal carrying the latest stamp ends playback.
pub proof fn lemma_stale_completion_ignored(
    s0: AudioCloud,
    s1: AudioCloud,
    s2: AudioCloud,
    s3: AudioCloud,
    s4: AudioCloud,
    t1: u64,
    t2: u64,
    paused: bool,
    a1: Action,
    a2: Action,
    a3: Action,
    a4: Action,
)
    requires
        s0.audio_ready,
        s0.player.last_update_playing < u64::MAX - 1,
        t1 < u64::MAX,
        handled(s0, s1, Message::TempAudioLoaded { decoded: true, now: t1 }, a1),
        handled(s1, s2, Message::TogglePlayer { sink_empty: false, sink_paused: paused, now: t2 }, a2),
        handled(s2, s3, Message::SamplePlayDone(s1.player.last_update_playing), a3),
        handled(s2, s4, Message::SamplePlayDone(s2.player.last_update_playing), a4),
    ensures
        a1 == (Action::StartPreview { token: s1.player.last_update_playing }),
        s1.player.is_playing,
        s1.player.last_update_playing > s0.player.last_update_playing,
        s2.player.last_update_playing > s1.player.last_update_playing,
        s3 == s2,
        !s4.player.is_playing,
        s4.player.name@ == "None"@,
{
    assert(s1.audio_ready);
    assert(s1.player.last_update_playing < u64::MAX);
}

/// A pause or resume on a sink that holds audio stamps the player later
/// than before, so every completion signal issued earlier is stale.
pub proof fn lemma_toggle_outdates_earlier_signals(
    pre: AudioCloud,
    post: AudioCloud,
    paused: bool,
    now: u64,
    a: Action,
)
    requires
        pre.audio_ready,
        pre.player.last_update_playing < u64::MAX,
        handled(pre, post, Message::TogglePlayer { sink_empty: false, sink_paused: paused, now }, a),
    ensures
        post.player.is_playing == !pre.player.is_playing,
        post.player.last_update_playing > pre.player.last_update_playing,
        now > pre.player.last_update_playing ==> post.player.last_update_playing == now,
        a == if paused {
            Action::ResumePlayback
        } else {
            Action::PausePlayback
        },
{
}

/// An empty search result leaves a shown result in place while all
/// favourites are being shown, and clears it otherwise.
pub proof fn lemma_empty_result_keeps_favourites_view(
    pre: AudioCloud,
    post: AudioCloud,
    r: SearchResult,
    a: Action,
)
    requires
        handled(pre, post, Message::SearchResultRecived(r), a),
        r.samples@.len() == 0,
    ensures
        pre.search_options.show_all_favourites ==> post.results == pre.results,
        !pre.search_options.show_all_favourites ==> post.results is None,
{
}

/// A download hands the sample's path to the host; its completion records
/// the sample's identity, and a later cache reset empties the record again.
pub proof fn lemma_download_then_cache_reset(
    s0: AudioCloud,
    s1: AudioCloud,
    s2: AudioCloud,
    s3: AudioCloud,
    s4: AudioCloud,
    path: String,
    a1: Action,
    a2: Action,
    a3: Action,
    a4: Action,
)
    requires
        handled(s0, s1, Message::DownloadSample(path), a1),
        handled(s1, s2, Message::SampleAudioDownloaded(path), a2),
        handled(s2, s3, Message::ResetCache, a3),
        handled(s3, s4, Message::CacheReset, a4),
    ensures
        a1 == (Action::Download { server_url: s0.settings.server_url, path: path }),
        has_entry(s2.settings.dl_samples_hash@, sample_id(path@)),
        a3 == Action::ClearCache,
        s4.settings.dl_samples_hash@.len() == 0,
{
}

impl AudioCloud {
    /// The state at start, before the settings file is read.
    pub fn new(audio_ready: bool, now: u64) -> (r: Self)
        ensures
            r.input@.len() == 0,
            r.view == ViewControl::Main,
            r.results is None,
            r.server_status is None,
            r.audio_ready == audio_ready,
            r.selected_theme is None,
            r.pack_meta@.len() == 0,
            is_default(r.settings),
            r.search_options.show_oneshots,
            r.search_options.show_loops,
            !r.search_options.show_only_favourites,
            !r.search_options.show_all_favourites,
            !r.search_view_state.show_pack_overlay,
            r.search_view_state.pack_id is None,
            !r.player.is_playing,
            r.player.name@ == "None"@,
            r.player.last_update_playing == now,
            r.editor.sample.name@ == "none"@,
            r.editor.sample.path@ == "none"@,
            r.editor.sample.sampletype == SampleType::OneShot,
            r.status.level == StatusBarLevel::Neutral,
            r.status.text@ == "idle... "@,
            r.wf(),
    {
        let mut status = StatusBar::new();
        status.set(StatusBarLevel::Neutral, "idle... ");
        AudioCloud {
            input: String::new(),
            view: ViewControl::Main,
            results: None,
            server_status: None,
            audio_ready,
            selected_theme: None,
            search_options: SearchOptions::new(),
            search_view_state: SearchViewState::new(),
            pack_meta: Vec::new(),
            settings: Settings::default(),
            status,
            player: Player::new(now),
            editor: Editor::empty(),
        }
    }

    /// The samples the result list shows, or `None` while no search has
    /// produced a result: the favourites when all favourites are to be
    /// shown, else the last result; only favourites among them when the
    /// favourites filter is on.
    pub fn shown_samples(&self) -> (r: Option<Vec<Sample>>)
        ensures
            r is None <==> self.results is None,
            r matches Some(v) ==> v@ == kept_rows(
                if self.search_options.show_all_favourites {
                    self.settings.favourite_samples@
                } else {
                    self.results->0.samples@
                },
                self.settings.favourite_samples@,
                self.search_options.show_only_favourites,
            ),
    {
        match &self.results {
            None => None,
            Some(res) => {
                let src = if self.search_options.show_all_favourites {
                    &self.settings.favourite_samples
                } else {
                    &res.samples
                };
                let only = self.search_options.show_only_favourites;
                let mut v: Vec<Sample> = Vec::new();
                let mut i: usize = 0;
                while i < src.len()
                    invariant
                        i <= src.len(),
                        v@ == kept_rows(
                            src@.subrange(0, i as int),
                            self.settings.favourite_samples@,
                            only,
                        ),
                    decreases src.len() - i,
                {
                    let ghost pre = src@.subrange(0, i as int + 1);
                    assert(pre.drop_last() =~= src@.subrange(0, i as int));
                    if !only || self.settings.is_favourite(&src[i]) {
                        v.push(src[i].duplicate());
                    }
                    i = i + 1;
                }
                assert(src@.subrange(0, i as int) =~= src@);
                Some(v)
            },
        }
    }

    /// The window title.
    pub fn title(&self) -> (r: String)
        ensures
            r@ == "Audiocloud"@,
    {
        owned("Audiocloud")
    }

    /// No two favourites share a path.
    pub open spec fn wf(&self) -> bool {
        unique_paths(self.settings.favourite_samples@)
    }

    /// The search that the current query, filters and pack selection call
    /// for, or nothing when the query text is blank.
    pub fn create_request_command(&self) -> (r: Action)
        ensures
            requested(*self, r),
    {
        match search_params(
            &self.input,
            &self.search_options,
            &self.search_view_state.pack_id,
            self.settings.max_results,
        ) {
            Some(params) => Action::Search { params, server_url: self.settings.server_url.clone() },
            None => Action::Nothing,
        }
    }

    /// The settings as they are written: with the selected theme's name.
    fn save_action(&self, exit: bool) -> (r: Action)
        ensures
            saves(*self, r, exit),
    {
        let settings = match &self.selected_theme {
            Some(t) => self.settings.with_theme(t.as_str()),
            None => self.settings.with_theme("Dark"),
        };
        Action::SaveSettings { settings, exit }
    }

    /// Handles one event: changes the state and returns the work for the host.
    pub fn update(&mut self, message: Message) -> (r: Action)
        requires
            old(self).wf(),
        ensures
            handled(*old(self), *final(self), message, r),
            final(self).wf(),
    {
        match message {
            Message::Nothing
            | Message::Failed(..)
            | Message::CloseRequested
            | Message::Exit
            | Message::GoView(..)
            | Message::SettingsButtonToggled
            | Message::EditorSessionDL(..)
            | Message::EditorSession(..)
            | Message::Editor(..)
            | Message::SearchView(..)
            | Message::CopySample(..) => self.update_view(message),
            Message::InputChanged(..)
            | Message::SearchResultRecived(..)
            | Message::ShowOneshotsCheckbox(..)
            | Message::ShowLoopsCheckbox(..)
            | Message::ShowOnlyFavouritesToggled(..)
            | Message::ShowAllFavourites
            | Message::ShuffleResults => self.update_search(message),
            Message::PlaySample(..)
            | Message::TempAudioLoaded { .. }
            | Message::SamplePlayDone(..)
            | Message::TogglePlayer { .. } => self.update_player(message),
            Message::ServerStatusUpdate(..)
            | Message::ServerUrlSubmited(..)
            | Message::ThemeSelected(..)
            | Message::MaxRequestsChanged(..)
            | Message::LoadSettings
            | Message::SaveSettings
            | Message::SettingsLoaded(..)
            | Message::SettingsSaved
            | Message::PacksMetaRecived(..)
            | Message::ResetSettings
            | Message::Settings(..) => self.update_settings(message),
            Message::ResetCache
            | Message::CacheReset
            | Message::DownloadSample(..)
            | Message::SampleAudioDownloaded(..)
            | Message::ToggleFavourite(..) => self.update_library(message),
        }
    }

    /// Events of navigation, the editor, the pack selector and the clipboard.
    fn update_view(&mut self, message: Message) -> (r: Action)
        requires
            old(self).wf(),
            message is Nothing
                || message is Failed
                || message is CloseRequested
                || message is Exit
                || message is GoView
                || message is SettingsButtonToggled
                || message is EditorSessionDL
                || message is EditorSession
                || message is Editor
                || message is SearchView
                || message is CopySample,
        ensures
            handled(*old(self), *final(self), message, r),
            final(self).wf(),
    {
        match message {
            Message::Nothing => Action::Nothing,
            Message::Failed(f) => {
                self.status.set(StatusBarLevel::Danger, failure_message(f));
                Action::Nothing
            },
            Message::CloseRequested => self.save_action(true),
            Message::Exit => Action::CloseWindow,
            Message::GoView(v) => {
                self.view = v;
                Action::Nothing
            },
            Message::SettingsButtonToggled => {
                match self.view {
                    ViewControl::Settings => self.view = ViewControl::Main,
                    _ => self.view = ViewControl::Settings,
                }
                Action::Nothing
            },
            Message::EditorSessionDL(sample) => Action::FetchEditorAudio {
                sample,
                server_url: self.settings.server_url.clone(),
            },
            Message::EditorSession(sample) => {
                self.editor.load_sample(sample);
                self.status.set(StatusBarLevel::Neutral, "Loading editor...");
                self.view = ViewControl::Editor;
                Action::LoadEditorAudio
            },
            Message::Editor(event) => crate::editor::editor_event(self, event),
            Message::SearchView(v) => crate::search::search_update(v, self),
            Message::CopySample(path) => {
                let file = cached_path(path.as_str());
                self.status.set(StatusBarLevel::Succes, "Copied sample");
                Action::CopyFile { path: file }
            },
            _ => Action::Nothing,
        }
    }

    /// Events of the search bar, its filters and its results.
    fn update_search(&mut self, message: Message) -> (r: Action)
        requires
            old(self).wf(),
            message is InputChanged
                || message is SearchResultRecived
                || message is ShowOneshotsCheckbox
                || message is ShowLoopsCheckbox
                || message is ShowOnlyFavouritesToggled
                || message is ShowAllFavourites
                || message is ShuffleResults,
        ensures
            handled(*old(self), *final(self), message, r),
            final(self).wf(),
    {
        match message {
            Message::InputChanged(val) => {
                self.input = val;
                self.create_request_command()
            },
            Message::SearchResultRecived(val) => {
                if val.samples.len() > 0 {
                    self.results = Some(val);
                } else if !self.search_options.show_all_favourites {
                    self.results = None;
                }
                Action::Nothing
            },
            Message::ShowOneshotsCheckbox(val) => {
                self.search_options.show_oneshots = val;
                self.create_request_command()
            },
            Message::ShowLoopsCheckbox(val) => {
                self.search_options.show_loops = val;
                self.create_request_command()
            },
            Message::ShowOnlyFavouritesToggled(val) => {
                self.search_options.show_only_favourites = val;
                Action::Nothing
            },
            Message::ShowAllFavourites => {
                self.search_options.show_all_favourites = !self.search_options.show_all_favourites;
                Action::Nothing
            },
            Message::ShuffleResults => {
                match &mut self.results {
                    Some(res) => shuffle_samples(&mut res.samples),
                    None => {},
                }
                Action::Nothing
            },
            _ => Action::Nothing,
        }
    }

    /// Events of the preview player.
    fn update_player(&mut self, message: Message) -> (r: Action)
        requires
            old(self).wf(),
            message is PlaySample
                || message is TempAudioLoaded
                || message is SamplePlayDone
                || message is TogglePlayer,
        ensures
            handled(*old(self), *final(self), message, r),
            final(self).wf(),
    {
        match message {
            Message::PlaySample(path, name) => {
                self.player.name = name;
                Action::FetchPreview { server_url: self.settings.server_url.clone(), path }
            },
            Message::TempAudioLoaded { decoded, now } => {
                if !decoded {
                    self.status.set(StatusBarLevel::Danger, "Couldnt open downloaded file ");
                    Action::Nothing
                } else if !self.audio_ready {
                    Action::Nothing
                } else {
                    let stamp = self.player.started(now);
                    Action::StartPreview { token: stamp }
                }
            },
            Message::SamplePlayDone(token) => {
                self.player.finished(token);
                Action::Nothing
            },
            Message::TogglePlayer { sink_empty, sink_paused, now } => {
                if !self.audio_ready || sink_empty {
                    Action::Nothing
                } else {
                    self.player.toggled(now);
                    if sink_paused {
                        Action::ResumePlayback
                    } else {
                        Action::PausePlayback
                    }
                }
            },
            _ => Action::Nothing,
        }
    }

    /// Events of the settings panel and of settings persistence.
    fn update_settings(&mut self, message: Message) -> (r: Action)
        requires
            old(self).wf(),
            message is ServerStatusUpdate
                || message is ServerUrlSubmited
                || message is ThemeSelected
                || message is MaxRequestsChanged
                || message is LoadSettings
                || message is SaveSettings
                || message is SettingsLoaded
                || message is SettingsSaved
                || message is PacksMetaRecived
                || message is ResetSettings
                || message is Settings,
        ensures
            handled(*old(self), *final(self), message, r),
            final(self).wf(),
    {
        match message {
            Message::ServerStatusUpdate(status) => {
                self.server_status = Some(status);
                Action::Nothing
            },
            Message::ServerUrlSubmited(url) => {
                self.settings.server_url = normalize_server_url(url);
                Action::CheckConnection { server_url: self.settings.server_url.clone() }
            },
            Message::ThemeSelected(theme) => {
                self.selected_theme = Some(theme);
                Action::Nothing
            },
            Message::MaxRequestsChanged(val) => {
                self.settings.max_results = val;
                Action::Nothing
            },
            Message::LoadSettings => Action::LoadSettings,
            Message::SaveSettings => self.save_action(false),
            Message::SettingsLoaded(val) => self.settings_loaded(val),
            Message::SettingsSaved => {
                self.status.set(StatusBarLevel::Succes, "Settings saved ");
                Action::Nothing
            },
            Message::PacksMetaRecived(m) => {
                match m {
                    Err(_) => self.status.set(StatusBarLevel::Danger, "Failed to get IDs"),
                    Ok(metas) => {
                        self.pack_meta = metas;
                        self.status.set(StatusBarLevel::Succes, "Recived PackIDs");
                    },
                }
                Action::Nothing
            },
            Message::ResetSettings => {
                self.settings = Settings::default();
                self.save_action(false)
            },
            Message::Settings(change) => crate::settings::settings_changed(self, change),
            _ => Action::Nothing,
        }
    }

    /// Events of the download cache and the favourites.
    fn update_library(&mut self, message: Message) -> (r: Action)
        requires
            old(self).wf(),
            message is ResetCache
                || message is CacheReset
                || message is DownloadSample
                || message is SampleAudioDownloaded
                || message is ToggleFavourite,
        ensures
            handled(*old(self), *final(self), message, r),
            final(self).wf(),
    {
        match message {
            Message::ResetCache => Action::ClearCache,
            Message::CacheReset => {
                self.settings.dl_samples_hash = Vec::new();
                Action::Nothing
            },
            Message::DownloadSample(path) => Action::Download {
                server_url: self.settings.server_url.clone(),
                path,
            },
            Message::SampleAudioDownloaded(path) => {
                self.settings.add_dl_entry(path.as_str());
                self.status.set(StatusBarLevel::Succes, "Downloaded sample ");
                Action::Nothing
            },
            Message::ToggleFavourite(sample) => {
                proof {
                    lemma_toggle_keeps_paths_unique(self.settings.favourite_samples@, sample);
                }
                self.settings.toggle_favourite(sample);
                Action::Nothing
            },
            _ => Action::Nothing,
        }
    }

    /// Takes over settings read from disk, keeping the first favourite of
    /// each path, and asks for the catalog of packs.
    fn settings_loaded(&mut self, val: Settings) -> (r: Action)
        ensures
            handled(*old(self), *final(self), Message::SettingsLoaded(val), r),
            final(self).wf(),
    {
        let mut val = val;
        val.dedup_favourites();
        let url = val.server_url.clone();
        self.selected_theme = Some(val.theme.clone());
        self.settings = val;
        self.status.set(StatusBarLevel::Succes, "Loaded settings ");
        Action::FetchPackMeta { server_url: url }
    }


}

} // verus!
