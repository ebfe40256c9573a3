use vstd::prelude::*;
use crate::sample::{SampleType, SearchParams};
use crate::state::{handled, Action, AudioCloud, Message};
use crate::status::StatusBarLevel;

verus! {

/// A user action on the search view's pack selector.
#[derive(Clone, Debug, PartialEq, Eq)]
pub enum SearchView {
    PackID(Option<String>),
    PackOverlay,
    GetPackIDS,
}

/// State of the pack selector.
#[derive(Clone, Debug, PartialEq, Eq)]
pub struct SearchViewState {
    pub show_pack_overlay: bool,
    pub pack_id: Option<String>,
}

impl SearchViewState {
    /// The selector closed, with no pack chosen.
    pub fn new() -> (r: Self)
        ensures
            !r.show_pack_overlay,
            r.pack_id is None,
    {
        SearchViewState { show_pack_overlay: false, pack_id: None }
    }
}

/// The filter toggles of the search view.
#[derive(Clone, Copy, Debug, PartialEq, Eq, Structural)]
pub struct SearchOptions {
    pub show_oneshots: bool,
    pub show_loops: bool,
    pub show_only_favourites: bool,
    pub show_all_favourites: bool,
}

/// The sample-type filter sent with a search: none when both kinds are
/// shown or both hidden, else the one kind that is shown.
pub open spec fn type_filter_of(show_oneshots: bool, show_loops: bool) -> Option<SampleType> {
    if show_oneshots == show_loops {
        None
    } else if show_oneshots {
        Some(SampleType::OneShot)
    } else {
        Some(SampleType::Loop(0))
    }
}

/// Query text that asks for no search: empty, or a lone `-`.
pub open spec fn is_blank_query(q: Seq<char>) -> bool {
    q.len() == 0 || q == seq!['-']
}

/// `p` is the request for query `query` under the given options, pack
/// selection and result limit.
pub open spec fn params_for(
    p: SearchParams,
    query: String,
    options: SearchOptions,
    pack_id: Option<String>,
    max_results: i32,
) -> bool {
    &&& p.query == query
    &&& p.sample_type == type_filter_of(options.show_oneshots, options.show_loops)
    &&& p.max_tempo is None
    &&& p.min_tempo is None
    &&& p.pack_id == pack_id
    &&& p.max_results == Some(max_results)
}

impl SearchOptions {
    /// Both kinds shown, no favourites filter.
    pub fn new() -> (r: Self)
        ensures
            r.show_oneshots,
            r.show_loops,
            !r.show_only_favourites,
            !r.show_all_favourites,
    {
        SearchOptions {
            show_oneshots: true,
            show_loops: true,
            show_only_favourites: false,
            show_all_favourites: false,
        }
    }

    /// The sample-type filter these toggles call for.
    pub fn type_filter(&self) -> (r: Option<SampleType>)
        ensures
            r == type_filter_of(self.show_oneshots, self.show_loops),
            self.show_oneshots == self.show_loops ==> r is None,
            self.show_oneshots && !self.show_loops ==> r == Some(SampleType::OneShot),
            !self.show_oneshots && self.show_loops ==> r matches Some(SampleType::Loop(_)),
    {
        if self.show_loops == self.show_oneshots {
            None
        } else if self.show_oneshots {
            Some(SampleType::OneShot)
        } else {
            Some(SampleType::Loop(0))
        }
    }
}

/// A copy of an optional string.
pub fn duplicate_opt(s: &Option<String>) -> (r: Option<String>)
    ensures
        r == *s,
{
    match s {
        Some(v) => Some(v.clone()),
        None => None,
    }
}

/// The search request for `input`, or `None` when the text asks for none.
pub fn search_params(
    input: &String,
    options: &SearchOptions,
    pack_id: &Option<String>,
    max_results: i32,
) -> (r: Option<SearchParams>)
    ensures
        r is None <==> is_blank_query(input@),
        r matches Some(p) ==> params_for(p, *input, *options, *pack_id, max_results),
{
    let blank = input.as_str().is_empty() || input.as_str().unicode_len() == 1 && input.as_str().get_char(0) == '-';
    assert(blank <==> is_blank_query(input@)) by {
        if input@.len() == 1 && input@[0] == '-' {
            assert(input@ =~= seq!['-']);
        }
    }
    if blank {
        return None;
    }
    Some(
        SearchParams {
            query: input.clone(),
            sample_type: options.type_filter(),
            max_tempo: None,
            min_tempo: None,
            pack_id: duplicate_opt(pack_id),
            max_results: Some(max_results),
        },
    )
}

/// Handles an event of the pack selector. The catalog is fetched when
/// the selector is toggled while none has been received yet.
pub fn search_update(message: SearchView, app: &mut AudioCloud) -> (r: Action)
    ensures
        handled(*old(app), *final(app), Message::SearchView(message), r),
{
    match message {
        SearchView::PackID(id) => {
            app.search_view_state.pack_id = id;
            Action::Nothing
        },
        SearchView::PackOverlay => {
            app.search_view_state.show_pack_overlay = !app.search_view_state.show_pack_overlay;
            if app.pack_meta.len() == 0 {
                app.status.set(StatusBarLevel::Neutral, "Getting IDs");
                Action::FetchPackMeta { server_url: app.settings.server_url.clone() }
            } else {
                Action::Nothing
            }
        },
        SearchView::GetPackIDS => {
            app.status.set(StatusBarLevel::Neutral, "Getting IDs");
            Action::FetchPackMeta { server_url: app.settings.server_url.clone() }
        },
    }
}

} // verus!
