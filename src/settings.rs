use vstd::prelude::*;
use crate::helpers::{hash_sample, sample_id};
use crate::sample::{duplicate_samples, Sample};
use crate::state::{handled, Action, AudioCloud, Message};
use crate::text::owned;

verus! {

/// What the search view shows above the search bar.
#[derive(Clone, Copy, Debug, PartialEq, Eq, Structural)]
pub enum SearchViewTitle {
    Title,
    Spacing,
    Nothing,
}

impl SearchViewTitle {
    /// Every choice, in the order the settings panel offers them.
    pub fn all() -> (r: Vec<Self>)
        ensures
            r@ == seq![SearchViewTitle::Title, SearchViewTitle::Spacing, SearchViewTitle::Nothing],
    {
        let r = vec![SearchViewTitle::Title, SearchViewTitle::Spacing, SearchViewTitle::Nothing];
        assert(r@ =~= seq![SearchViewTitle::Title, SearchViewTitle::Spacing, SearchViewTitle::Nothing]);
        r
    }

    /// The name shown for the choice.
    pub fn label(&self) -> (r: String)
        ensures
            r@ == match *self {
                SearchViewTitle::Title => "Title"@,
                SearchViewTitle::Spacing => "Space"@,
                SearchViewTitle::Nothing => "None"@,
            },
    {
        match self {
            SearchViewTitle::Title => owned("Title"),
            SearchViewTitle::Spacing => owned("Space"),
            SearchViewTitle::Nothing => owned("None"),
        }
    }
}

/// A change made on the settings panel.
#[derive(Clone, Copy, Debug, PartialEq, Eq, Structural)]
pub enum SettingsChanged {
    ShowGradient(bool),
    TitleSetting(SearchViewTitle),
}

/// The persisted configuration.
#[derive(Clone, Debug, PartialEq, Eq)]
pub struct Settings {
    pub theme: String,
    pub searchbar_gradient: bool,
    pub searchview_title: Option<SearchViewTitle>,
    pub server_url: String,
    pub max_results: i32,
    pub favourite_samples: Vec<Sample>,
    pub dl_samples_hash: Vec<String>,
}

/// Whether some sample of `favs` has the path `path`.
pub open spec fn has_path(favs: Seq<Sample>, path: Seq<char>) -> bool {
    exists|i: int| 0 <= i < favs.len() && #[trigger] favs[i].path@ == path
}

/// No two samples of `favs` share a path.
pub open spec fn unique_paths(favs: Seq<Sample>) -> bool {
    forall|i: int, j: int|
        0 <= i < j < favs.len() ==> #[trigger] favs[i].path@ != #[trigger] favs[j].path@
}

/// `favs` without its first sample whose path is `path` (unchanged if none).
pub open spec fn without_path(favs: Seq<Sample>, path: Seq<char>) -> Seq<Sample>
    decreases favs.len(),
{
    if favs.len() == 0 {
        favs
    } else if favs[0].path@ == path {
        favs.drop_first()
    } else {
        seq![favs[0]] + without_path(favs.drop_first(), path)
    }
}

/// The favourites after the favourite mark of `s` is toggled: removed when
/// its path is there, appended otherwise.
pub open spec fn toggled(favs: Seq<Sample>, s: Sample) -> Seq<Sample> {
    if has_path(favs, s.path@) {
        without_path(favs, s.path@)
    } else {
        favs.push(s)
    }
}

/// The first sample of each path, in the order of first appearance.
pub open spec fn first_of_each_path(favs: Seq<Sample>) -> Seq<Sample>
    decreases favs.len(),
{
    if favs.len() == 0 {
        favs
    } else {
        let kept = first_of_each_path(favs.drop_last());
        if has_path(kept, favs.last().path@) {
            kept
        } else {
            kept.push(favs.last())
        }
    }
}

/// `r` holds what `s` holds, but for the theme name `theme`.
pub open spec fn copied_with_theme(r: Settings, s: Settings, theme: Seq<char>) -> bool {
    &&& r.theme@ == theme
    &&& r.searchbar_gradient == s.searchbar_gradient
    &&& r.searchview_title == s.searchview_title
    &&& r.server_url == s.server_url
    &&& r.max_results == s.max_results
    &&& r.favourite_samples@ == s.favourite_samples@
    &&& r.dl_samples_hash@ == s.dl_samples_hash@
}

/// Whether the identity `id` is recorded in `hashes`.
pub open spec fn has_entry(hashes: Seq<String>, id: Seq<char>) -> bool {
    exists|i: int| 0 <= i < hashes.len() && #[trigger] hashes[i]@ == id
}

/// The download ledger once the identity `id` is recorded.
pub open spec fn with_entry(hashes: Seq<String>, id: String) -> Seq<String> {
    if has_entry(hashes, id@) {
        hashes
    } else {
        hashes.push(id)
    }
}

proof fn lemma_without_path_at(favs: Seq<Sample>, path: Seq<char>, k: int)
    requires
        0 <= k < favs.len(),
        favs[k].path@ == path,
        forall|j: int| 0 <= j < k ==> #[trigger] favs[j].path@ != path,
    ensures
        without_path(favs, path) == favs.remove(k),
    decreases k,
{
    if k > 0 {
        let rest = favs.drop_first();
        assert forall|j: int| 0 <= j < k - 1 implies #[trigger] rest[j].path@ != path by {
            assert(rest[j] == favs[j + 1]);
        }
        lemma_without_path_at(rest, path, k - 1);
        assert(seq![favs[0]] + rest.remove(k - 1) =~= favs.remove(k));
    } else {
        assert(favs.drop_first() =~= favs.remove(0));
    }
}

proof fn lemma_without_absent_path(favs: Seq<Sample>, path: Seq<char>)
    requires
        !has_path(favs, path),
    ensures
        without_path(favs, path) == favs,
    decreases favs.len(),
{
    if favs.len() > 0 {
        let rest = favs.drop_first();
        assert(favs[0].path@ != path);
        assert forall|j: int| 0 <= j < rest.len() implies #[trigger] rest[j].path@ != path by {
            assert(rest[j] == favs[j + 1]);
        }
        lemma_without_absent_path(rest, path);
        assert(seq![favs[0]] + rest =~= favs);
    }
}

proof fn lemma_first_of_each_path_unique(favs: Seq<Sample>)
    ensures
        unique_paths(first_of_each_path(favs)),
    decreases favs.len(),
{
    if favs.len() > 0 {
        lemma_first_of_each_path_unique(favs.drop_last());
        let kept = first_of_each_path(favs.drop_last());
        if !has_path(kept, favs.last().path@) {
            let r = kept.push(favs.last());
            assert forall|i: int, j: int| 0 <= i < j < r.len() implies #[trigger] r[i].path@
                != #[trigger] r[j].path@ by {
                if j == kept.len() {
                    assert(r[i] == kept[i]);
                }
            }
        }
    }
}

/// Toggling a favourite never leaves two favourites with one path, and after
/// it the sample's path is marked exactly when it was not marked before.
pub proof fn lemma_toggle_keeps_paths_unique(favs: Seq<Sample>, s: Sample)
    requires
        unique_paths(favs),
    ensures
        unique_paths(toggled(favs, s)),
        has_path(toggled(favs, s), s.path@) <==> !has_path(favs, s.path@),
{
    let p = s.path@;
    if has_path(favs, p) {
        let k = choose|k: int| 0 <= k < favs.len() && #[trigger] favs[k].path@ == p;
        assert forall|j: int| 0 <= j < k implies #[trigger] favs[j].path@ != p by {
            assert(favs[j].path@ != favs[k].path@);
        }
        lemma_without_path_at(favs, p, k);
        let r = favs.remove(k);
        assert forall|i: int, j: int| 0 <= i < j < r.len() implies #[trigger] r[i].path@
            != #[trigger] r[j].path@ by {
            let i0 = if i < k { i } else { i + 1 };
            let j0 = if j < k { j } else { j + 1 };
            assert(r[i] == favs[i0] && r[j] == favs[j0]);
        }
        if has_path(r, p) {
            let m = choose|m: int| 0 <= m < r.len() && #[trigger] r[m].path@ == p;
            let m0 = if m < k { m } else { m + 1 };
            assert(r[m] == favs[m0]);
            if m0 < k {
                assert(favs[m0].path@ != favs[k].path@);
            } else {
                assert(favs[k].path@ != favs[m0].path@);
            }
        }
    } else {
        let r = favs.push(s);
        assert(r[favs.len() as int] == s);
        assert forall|i: int, j: int| 0 <= i < j < r.len() implies #[trigger] r[i].path@
            != #[trigger] r[j].path@ by {
            assert(r[i] == favs[i]);
            if j < favs.len() {
                assert(r[j] == favs[j]);
            }
        }
    }
}

/// Toggling a sample that is not a favourite appends exactly that sample;
/// toggling it a second time gives back the favourites as they were.
pub proof fn lemma_toggle_twice_restores(favs: Seq<Sample>, s: Sample)
    requires
        !has_path(favs, s.path@),
    ensures
        toggled(favs, s) == favs.push(s),
        toggled(toggled(favs, s), s) == favs,
{
    let r = favs.push(s);
    assert(r[favs.len() as int] == s);
    assert(has_path(r, s.path@));
    assert forall|j: int| 0 <= j < favs.len() implies #[trigger] r[j].path@ != s.path@ by {
        assert(r[j] == favs[j]);
    }
    lemma_without_path_at(r, s.path@, favs.len() as int);
    assert(r.remove(favs.len() as int) =~= favs);
}

impl Settings {
    /// Whether a sample with the same path is marked as a favourite.
    pub fn is_favourite(&self, sample: &Sample) -> (r: bool)
        ensures
            r == has_path(self.favourite_samples@, sample.path@),
    {
        let mut i: usize = 0;
        while i < self.favourite_samples.len()
            invariant
                i <= self.favourite_samples.len(),
                forall|j: int| 0 <= j < i ==> #[trigger] self.favourite_samples@[j].path@ != sample.path@,
            decreases self.favourite_samples.len() - i,
        {
            if self.favourite_samples[i].path == sample.path {
                return true;
            }
            i = i + 1;
        }
        false
    }

    /// Appends `sample` to the favourites.
    pub fn add_favourite(&mut self, sample: Sample)
        ensures
            final(self).favourite_samples@ == old(self).favourite_samples@.push(sample),
            *final(self) == (Settings { favourite_samples: final(self).favourite_samples, ..*old(self) }),
    {
        self.favourite_samples.push(sample);
    }

    /// Removes the first favourite whose path is `path`, if any.
    pub fn rem_favourite(&mut self, path: &str)
        ensures
            final(self).favourite_samples@ == without_path(old(self).favourite_samples@, path@),
            *final(self) == (Settings { favourite_samples: final(self).favourite_samples, ..*old(self) }),
    {
        let wanted = owned(path);
        let mut i: usize = 0;
        while i < self.favourite_samples.len()
            invariant
                i <= self.favourite_samples.len(),
                *self == *old(self),
                wanted@ == path@,
                forall|j: int| 0 <= j < i ==> #[trigger] self.favourite_samples@[j].path@ != path@,
            decreases self.favourite_samples.len() - i,
        {
            if self.favourite_samples[i].path == wanted {
                proof {
                    lemma_without_path_at(self.favourite_samples@, path@, i as int);
                }
                self.favourite_samples.remove(i);
                return;
            }
            i = i + 1;
        }
        proof {
            lemma_without_absent_path(self.favourite_samples@, path@);
        }
    }

    /// Marks `sample` as a favourite, or takes the mark away when a sample
    /// with its path is marked already.
    pub fn toggle_favourite(&mut self, sample: Sample)
        ensures
            final(self).favourite_samples@ == toggled(old(self).favourite_samples@, sample),
            *final(self) == (Settings { favourite_samples: final(self).favourite_samples, ..*old(self) }),
    {
        if self.is_favourite(&sample) {
            self.rem_favourite(sample.path.as_str());
        } else {
            self.add_favourite(sample);
        }
    }

    /// Whether the sample at `path` is recorded as downloaded.
    pub fn is_downloaded(&self, path: &str) -> (r: bool)
        ensures
            r == has_entry(self.dl_samples_hash@, sample_id(path@)),
    {
        let id = hash_sample(path);
        let mut i: usize = 0;
        while i < self.dl_samples_hash.len()
            invariant
                i <= self.dl_samples_hash.len(),
                id@ == sample_id(path@),
                forall|j: int| 0 <= j < i ==> #[trigger] self.dl_samples_hash@[j]@ != id@,
            decreases self.dl_samples_hash.len() - i,
        {
            if self.dl_samples_hash[i] == id {
                return true;
            }
            i = i + 1;
        }
        false
    }

    /// Records the sample at `path` as downloaded, once.
    pub fn add_dl_entry(&mut self, path: &str)
        ensures
            exists|id: String|
                id@ == sample_id(path@) && final(self).dl_samples_hash@ == with_entry(
                    old(self).dl_samples_hash@,
                    id,
                ),
            has_entry(final(self).dl_samples_hash@, sample_id(path@)),
            *final(self) == (Settings { dl_samples_hash: final(self).dl_samples_hash, ..*old(self) }),
    {
        let id = hash_sample(path);
        let ghost witness = id;
        if !self.is_downloaded(path) {
            self.dl_samples_hash.push(id);
            assert(self.dl_samples_hash@[self.dl_samples_hash@.len() - 1]@ == sample_id(path@));
        }
        assert(self.dl_samples_hash@ == with_entry(old(self).dl_samples_hash@, witness));
    }

    /// The settings used when none are stored.
    pub fn default() -> (r: Self)
        ensures
            r.theme@ == "Dark"@,
            !r.searchbar_gradient,
            r.searchview_title == Some(SearchViewTitle::Spacing),
            r.server_url@ == "http://127.0.0.1:4040/"@,
            r.max_results == 50,
            r.favourite_samples@.len() == 0,
            r.dl_samples_hash@.len() == 0,
    {
        Settings {
            searchbar_gradient: false,
            searchview_title: Some(SearchViewTitle::Spacing),
            max_results: 50,
            server_url: owned("http://127.0.0.1:4040/"),
            theme: owned("Dark"),
            favourite_samples: Vec::new(),
            dl_samples_hash: Vec::new(),
        }
    }

    /// A copy of these settings with the theme name replaced, as written to
    /// disk.
    pub fn with_theme(&self, theme: &str) -> (r: Settings)
        ensures
            copied_with_theme(r, *self, theme@),
    {
        Settings {
            theme: owned(theme),
            searchbar_gradient: self.searchbar_gradient,
            searchview_title: self.searchview_title,
            server_url: self.server_url.clone(),
            max_results: self.max_results,
            favourite_samples: duplicate_samples(&self.favourite_samples),
            dl_samples_hash: duplicate_strings(&self.dl_samples_hash),
        }
    }

    /// Keeps the first favourite of each path and drops later ones.
    pub fn dedup_favourites(&mut self)
        ensures
            final(self).favourite_samples@ == first_of_each_path(old(self).favourite_samples@),
            unique_paths(final(self).favourite_samples@),
            *final(self) == (Settings { favourite_samples: final(self).favourite_samples, ..*old(self) }),
    {
        let mut kept: Vec<Sample> = Vec::new();
        let mut i: usize = 0;
        while i < self.favourite_samples.len()
            invariant
                i <= self.favourite_samples.len(),
                kept@ == first_of_each_path(self.favourite_samples@.subrange(0, i as int)),
            decreases self.favourite_samples.len() - i,
        {
            let s = self.favourite_samples[i].duplicate();
            let ghost pre = self.favourite_samples@.subrange(0, i as int + 1);
            assert(pre.drop_last() =~= self.favourite_samples@.subrange(0, i as int));
            if !path_in(&kept, &s) {
                kept.push(s);
            }
            i = i + 1;
        }
        assert(self.favourite_samples@.subrange(0, i as int) =~= self.favourite_samples@);
        proof {
            lemma_first_of_each_path_unique(self.favourite_samples@);
        }
        self.favourite_samples = kept;
    }

    /// Applies a change made on the settings panel.
    pub fn apply_change(&mut self, change: SettingsChanged)
        ensures
            *final(self) == match change {
                SettingsChanged::ShowGradient(v) => Settings { searchbar_gradient: v, ..*old(self) },
                SettingsChanged::TitleSetting(t) => Settings {
                    searchview_title: Some(t),
                    ..*old(self)
                },
            },
    {
        match change {
            SettingsChanged::ShowGradient(v) => {
                self.searchbar_gradient = v;
            },
            SettingsChanged::TitleSetting(t) => {
                self.searchview_title = Some(t);
            },
        }
    }
}

fn path_in(v: &Vec<Sample>, s: &Sample) -> (r: bool)
    ensures
        r == has_path(v@, s.path@),
{
    let mut i: usize = 0;
    while i < v.len()
        invariant
            i <= v.len(),
            forall|j: int| 0 <= j < i ==> #[trigger] v@[j].path@ != s.path@,
        decreases v.len() - i,
    {
        if v[i].path == s.path {
            return true;
        }
        i = i + 1;
    }
    false
}

/// A copy of a list of strings.
pub fn duplicate_strings(v: &Vec<String>) -> (r: Vec<String>)
    ensures
        r@ == v@,
{
    let mut r: Vec<String> = Vec::new();
    let mut i: usize = 0;
    while i < v.len()
        invariant
            i <= v.len(),
            r@ == v@.subrange(0, i as int),
        decreases v.len() - i,
    {
        r.push(v[i].clone());
        i = i + 1;
        assert(r@ =~= v@.subrange(0, i as int));
    }
    assert(v@.subrange(0, v.len() as int) =~= v@);
    r
}

/// Applies a change made on the settings panel to the application's settings.
pub fn settings_changed(app: &mut AudioCloud, message: SettingsChanged) -> (r: Action)
    requires
        old(app).wf(),
    ensures
        handled(*old(app), *final(app), Message::Settings(message), r),
        final(app).wf(),
{
    app.settings.apply_change(message);
    Action::Nothing
}

} // verus!
