use vstd::prelude::*;

use crate::i18n::Locale;
use crate::settings_text::{settings_display_text, settings_display_text_of};
use crate::text::{
    all_words_contained, all_words_occur, append_nat_decimal, chars_of, lemma_fewer_words_still_occur,
    lowercase, nat_decimal, to_lowercase, words_within,
};

verus! {

/// Some settings pages break down into a collection of smaller widgets while others are
/// "monoliths". The way the matches are presented differs between them.
#[derive(Clone, Copy, Debug, PartialEq, Eq, Structural)]
pub enum MatchData {
    /// The page matches (or not) as a whole, or its matches are not counted.
    Uncounted(bool),
    /// The number of widgets of the page that match a search query.
    Countable(usize),
}

/// Whether a page's search result shows it at all.
pub open spec fn match_data_truthy(m: MatchData) -> bool {
    match m {
        MatchData::Countable(n) => n > 0,
        MatchData::Uncounted(flag) => flag,
    }
}

/// The suffix that a page's navigation label gets for its search result.
pub open spec fn match_data_text(m: MatchData) -> Seq<char> {
    match m {
        MatchData::Countable(n) => " ("@ + nat_decimal(n as nat) + ")"@,
        MatchData::Uncounted(_) => Seq::empty(),
    }
}

impl MatchData {
    pub fn is_truthy(&self) -> (truthy: bool)
        ensures
            truthy == match_data_truthy(*self),
    {
        match self {
            MatchData::Countable(n) => *n > 0,
            MatchData::Uncounted(flag) => *flag,
        }
    }

    /// The suffix for a page's navigation label: ` (n)` for a count, nothing otherwise.
    pub fn to_display_string(&self) -> (text: String)
        ensures
            text@ == match_data_text(*self),
    {
        match self {
            MatchData::Countable(n) => {
                let mut text = " (".to_owned();
                append_nat_decimal(&mut text, *n as u64);
                text.append(")");
                text
            },
            MatchData::Uncounted(_) => {
                proof {
                    reveal_strlit("");
                }
                let text = String::new();
                text
            },
        }
    }
}

impl From<bool> for MatchData {
    fn from(value: bool) -> (m: Self) {
        MatchData::Uncounted(value)
    }
}

impl vstd::std_specs::convert::FromSpecImpl<bool> for MatchData {
    open spec fn obeys_from_spec() -> bool {
        true
    }

    open spec fn from_spec(value: bool) -> MatchData {
        MatchData::Uncounted(value)
    }
}

impl From<usize> for MatchData {
    fn from(value: usize) -> (m: Self) {
        MatchData::Countable(value)
    }
}

impl vstd::std_specs::convert::FromSpecImpl<usize> for MatchData {
    open spec fn obeys_from_spec() -> bool {
        true
    }

    open spec fn from_spec(value: usize) -> MatchData {
        MatchData::Countable(value)
    }
}

/// Whether a setting can be changed.
#[derive(Clone, Copy, Debug, PartialEq, Eq, Structural)]
pub enum ToggleState {
    Enabled,
    Disabled,
}

impl Default for ToggleState {
    fn default() -> (state: Self)
        ensures
            state == ToggleState::Enabled,
    {
        ToggleState::Enabled
    }
}

impl From<bool> for ToggleState {
    fn from(value: bool) -> (state: Self) {
        if value {
            ToggleState::Enabled
        } else {
            ToggleState::Disabled
        }
    }
}

impl vstd::std_specs::convert::FromSpecImpl<bool> for ToggleState {
    open spec fn obeys_from_spec() -> bool {
        true
    }

    open spec fn from_spec(value: bool) -> ToggleState {
        if value {
            ToggleState::Enabled
        } else {
            ToggleState::Disabled
        }
    }
}

/// Whether to show an icon indicating a setting is not cloud-synced.
#[derive(Debug)]
pub enum LocalOnlyIconState {
    Hidden,
    Visible { custom_tooltip: Option<String> },
}

impl LocalOnlyIconState {
    /// The icon state for a setting: visible, with the default tooltip, exactly when settings
    /// sync is enabled and the setting is never synced to the cloud.
    pub fn for_setting(settings_sync_enabled: bool, never_synced_to_cloud: bool) -> (state: Self)
        ensures
            state matches LocalOnlyIconState::Visible { custom_tooltip } ==> custom_tooltip is None,
            state is Visible <==> settings_sync_enabled && never_synced_to_cloud,
    {
        if !settings_sync_enabled {
            return LocalOnlyIconState::Hidden;
        }
        if never_synced_to_cloud {
            LocalOnlyIconState::Visible { custom_tooltip: None }
        } else {
            LocalOnlyIconState::Hidden
        }
    }
}

/// Wrapper for pane events to avoid circular dependency with pane module.
/// The actual handling converts this to the real pane event.
#[derive(Clone, Copy, Debug, PartialEq, Eq, Structural)]
pub enum PaneEventWrapper {
    Close,
}

/// An event that a settings page emits.
#[derive(Clone, Copy, Debug, PartialEq, Eq, Structural)]
pub enum SettingsPageEvent {
    FocusModal,
    Pane(PaneEventWrapper),
    EnvironmentSetupModeSelectorToggled { is_open: bool },
    AgentAssistedEnvironmentModalToggled { is_open: bool },
}

/// Whether a widget with the search terms `terms` matches the query `query`: an empty query
/// matches everything; otherwise every whitespace-separated word of the lower-cased query must
/// occur in the lower-cased terms.
pub open spec fn search_terms_matches(terms: Seq<char>, query: Seq<char>) -> bool {
    query.len() == 0 || all_words_occur(lowercase(terms), lowercase(query))
}

/// Returns true if every whitespace-delimited word in `query` appears somewhere in `terms`
/// (case-insensitive). An empty query matches everything.
pub fn search_terms_match(terms: &str, query: &str) -> (matches: bool)
    ensures
        matches == search_terms_matches(terms@, query@),
{
    if query.is_empty() {
        return true;
    }
    let terms_lower = to_lowercase(terms);
    let query_lower = to_lowercase(query);
    let hay = chars_of(terms_lower.as_str());
    let words = chars_of(query_lower.as_str());
    all_words_contained(&hay, &words)
}

/// What the search of a settings page reads of a widget.
#[derive(Debug)]
pub struct SettingsWidgetEntry {
    pub widget_id: String,
    /// The terms to match search queries against.
    pub search_terms: String,
    /// Whether the widget is shown at all.
    pub should_render: bool,
}

/// A grouping of related widgets that fall under the same sub-header.
#[derive(Debug)]
pub struct Category {
    pub title: String,
    pub subtitle: Option<String>,
    pub widgets: Vec<SettingsWidgetEntry>,
}

impl Category {
    /// A category whose title is shown in the given locale.
    pub fn new(locale: Locale, title: &str, widgets: Vec<SettingsWidgetEntry>) -> (category: Self)
        ensures
            category.title@ == settings_display_text_of(locale, title@),
            category.subtitle is None,
            category.widgets@ == widgets@,
    {
        Category { title: settings_display_text(locale, title), subtitle: None, widgets }
    }

    /// The category with a subtitle shown in the given locale.
    pub fn with_subtitle(self, locale: Locale, subtitle: &str) -> (category: Self)
        ensures
            category.title@ == self.title@,
            category.subtitle matches Some(s) && s@ == settings_display_text_of(locale, subtitle@),
            category.widgets@ == self.widgets@,
    {
        let Category { title, subtitle: _, widgets } = self;
        Category { title, subtitle: Some(settings_display_text(locale, subtitle)), widgets }
    }
}

/// The search state of a settings page: its widgets, which of them match the last query, and
/// the widget that is highlighted.
#[derive(Debug)]
#[allow(inconsistent_fields)]
pub enum PageType {
    /// A page whose contents cannot be separated for showing search results: if any part
    /// matches the query, the whole page shows.
    Monolith { widget: SettingsWidgetEntry, filter: bool },
    /// A page which is a series of widgets that don't fall under sub-categories.
    Uncategorized {
        widgets: Vec<SettingsWidgetEntry>,
        filter: Vec<usize>,
        highlighted_widget_id: Option<String>,
    },
    /// A page which is a series of widgets that fall under sub-categories.
    Categorized {
        categories: Vec<Category>,
        filter: Vec<Vec<usize>>,
        highlighted_widget_id: Option<String>,
    },
}

/// Whether a widget is shown for a query.
pub open spec fn widget_matches(widget: SettingsWidgetEntry, query: Seq<char>) -> bool {
    widget.should_render && search_terms_matches(widget.search_terms@, query)
}

/// The indices of the widgets shown for a query, in order.
pub open spec fn matching_indices(widgets: Seq<SettingsWidgetEntry>, query: Seq<char>) -> Seq<usize>
    decreases widgets.len(),
{
    if widgets.len() == 0 {
        seq![]
    } else if widget_matches(widgets.last(), query) {
        matching_indices(widgets.drop_last(), query).push((widgets.len() - 1) as usize)
    } else {
        matching_indices(widgets.drop_last(), query)
    }
}

/// The indices `0..n`.
pub open spec fn all_indices(n: nat) -> Seq<usize> {
    Seq::new(n, |i: int| i as usize)
}

/// The number of widgets in a sequence of categories.
pub open spec fn category_widget_count(categories: Seq<Category>) -> nat
    decreases categories.len(),
{
    if categories.len() == 0 {
        0
    } else {
        category_widget_count(categories.drop_last()) + categories.last().widgets@.len()
    }
}

/// The total length of a sequence of index lists.
pub open spec fn total_len(filter: Seq<Vec<usize>>) -> nat
    decreases filter.len(),
{
    if filter.len() == 0 {
        0
    } else {
        total_len(filter.drop_last()) + filter.last()@.len()
    }
}

impl PageType {
    /// The widgets of a page and the widget that is highlighted, whatever the search.
    pub open spec fn layout_unchanged(self, other: PageType) -> bool {
        match (self, other) {
            (PageType::Monolith { widget: a, .. }, PageType::Monolith { widget: b, .. }) => a == b,
            (
                PageType::Uncategorized { widgets: a, highlighted_widget_id: ha, .. },
                PageType::Uncategorized { widgets: b, highlighted_widget_id: hb, .. },
            ) => a@ == b@ && ha == hb,
            (
                PageType::Categorized { categories: a, highlighted_widget_id: ha, .. },
                PageType::Categorized { categories: b, highlighted_widget_id: hb, .. },
            ) => a@ == b@ && ha == hb,
            _ => false,
        }
    }

    /// The widgets of a page and its filter, whatever the highlight.
    pub open spec fn contents_unchanged(self, other: PageType) -> bool {
        match (self, other) {
            (PageType::Monolith { .. }, PageType::Monolith { .. }) => self == other,
            (
                PageType::Uncategorized { widgets: a, filter: fa, .. },
                PageType::Uncategorized { widgets: b, filter: fb, .. },
            ) => a@ == b@ && fa@ == fb@,
            (
                PageType::Categorized { categories: a, filter: fa, .. },
                PageType::Categorized { categories: b, filter: fb, .. },
            ) => a@ == b@ && fa@ == fb@,
            _ => false,
        }
    }

    /// A page whose contents show as a whole; it starts out shown.
    pub fn new_monolith(widget: SettingsWidgetEntry) -> (page: Self)
        ensures
            page matches PageType::Monolith { widget: w, filter } && w == widget && filter,
    {
        PageType::Monolith { widget, filter: true }
    }

    /// A page of widgets; all of them start out shown.
    pub fn new_uncategorized(widgets: Vec<SettingsWidgetEntry>) -> (page: Self)
        ensures
            page matches PageType::Uncategorized { widgets: w, filter, highlighted_widget_id }
                && w@ == widgets@ && filter@ == all_indices(widgets@.len())
                && highlighted_widget_id is None,
    {
        let filter = index_range(widgets.len());
        PageType::Uncategorized { widgets, filter, highlighted_widget_id: None }
    }

    /// A page of categories of widgets; all of them start out shown.
    pub fn new_categorized(categories: Vec<Category>) -> (page: Self)
        ensures
            page matches PageType::Categorized { categories: c, filter, highlighted_widget_id }
                && c@ == categories@ && filter@.len() == categories@.len() && (forall|i: int|
                0 <= i < categories@.len() ==> #[trigger] filter@[i]@ == all_indices(
                    categories@[i].widgets@.len(),
                )) && highlighted_widget_id is None,
    {
        let mut filter: Vec<Vec<usize>> = Vec::new();
        let n = categories.len();
        for i in 0..n
            invariant
                n == categories@.len(),
                filter@.len() == i,
                forall|j: int|
                    0 <= j < i ==> #[trigger] filter@[j]@ == all_indices(
                        categories@[j].widgets@.len(),
                    ),
        {
            filter.push(index_range(categories[i].widgets.len()));
        }
        PageType::Categorized { categories, filter, highlighted_widget_id: None }
    }

    /// Applies a search query: stores which widgets match it and tells how the page matched.
    pub fn update_filter(&mut self, query: &str) -> (match_data: MatchData)
        requires
            *old(self) matches PageType::Categorized { categories, .. } ==> category_widget_count(
                categories@,
            ) <= usize::MAX,
        ensures
            final(self).layout_unchanged(*old(self)),
            match *final(self) {
                PageType::Monolith { widget, filter } => {
                    &&& filter == widget_matches(widget, query@)
                    &&& match_data == MatchData::Uncounted(filter)
                },
                PageType::Uncategorized { widgets, filter, .. } => {
                    &&& filter@ == matching_indices(widgets@, query@)
                    &&& match_data == if query@.len() == 0 {
                        MatchData::Uncounted(true)
                    } else {
                        MatchData::Countable(filter@.len() as usize)
                    }
                },
                PageType::Categorized { categories, filter, .. } => {
                    &&& filter@.len() == categories@.len()
                    &&& forall|i: int|
                        0 <= i < categories@.len() ==> #[trigger] filter@[i]@ == matching_indices(
                            categories@[i].widgets@,
                            query@,
                        )
                    &&& match_data == if query@.len() == 0 {
                        MatchData::Uncounted(true)
                    } else {
                        MatchData::Countable(total_len(filter@) as usize)
                    }
                },
            },
    {
        match self {
            PageType::Monolith { widget, filter } => {
                let matches = widget.should_render && search_terms_match(
                    widget.search_terms.as_str(),
                    query,
                );
                *filter = matches;
                MatchData::Uncounted(matches)
            },
            PageType::Uncategorized { widgets, filter, .. } => {
                let indices = matching_widgets(widgets, query);
                let count = indices.len();
                *filter = indices;
                if query.is_empty() {
                    MatchData::Uncounted(true)
                } else {
                    MatchData::Countable(count)
                }
            },
            PageType::Categorized { categories, filter, .. } => {
                let n = categories.len();
                let mut new_filter: Vec<Vec<usize>> = Vec::new();
                let mut total: usize = 0;
                for i in 0..n
                    invariant
                        n == categories@.len(),
                        category_widget_count(categories@) <= usize::MAX,
                        new_filter@.len() == i,
                        total == total_len(new_filter@),
                        total <= category_widget_count(categories@.take(i as int)),
                        forall|j: int|
                            0 <= j < i ==> #[trigger] new_filter@[j]@ == matching_indices(
                                categories@[j].widgets@,
                                query@,
                            ),
                {
                    let indices = matching_widgets(&categories[i].widgets, query);
                    proof {
                        lemma_matching_indices_len(categories@[i as int].widgets@, query@);
                        assert(categories@.take(i + 1).drop_last() =~= categories@.take(i as int));
                        lemma_category_widget_count_prefix(categories@, i + 1);
                    }
                    let ghost before = new_filter@;
                    total = total + indices.len();
                    new_filter.push(indices);
                    proof {
                        assert(new_filter@.drop_last() =~= before);
                    }
                }
                *filter = new_filter;
                if query.is_empty() {
                    MatchData::Uncounted(true)
                } else {
                    MatchData::Countable(total)
                }
            },
        }
    }

    /// Highlights a widget and tells whether the page should scroll it into view; pages that
    /// show as a whole do neither.
    pub fn scroll_to_widget(&mut self, widget_id: &str) -> (scroll: bool)
        ensures
            scroll == !(*old(self) is Monolith),
            match *final(self) {
                PageType::Monolith { .. } => *final(self) == *old(self),
                PageType::Uncategorized { highlighted_widget_id, .. } => highlighted_widget_id matches Some(
                    id,
                ) && id@ == widget_id@,
                PageType::Categorized { highlighted_widget_id, .. } => highlighted_widget_id matches Some(
                    id,
                ) && id@ == widget_id@,
            },
            *old(self) is Monolith ==> *final(self) is Monolith,
            *old(self) is Uncategorized ==> *final(self) is Uncategorized,
            *old(self) is Categorized ==> *final(self) is Categorized,
            final(self).contents_unchanged(*old(self)),
    {
        match self {
            PageType::Monolith { .. } => false,
            PageType::Uncategorized { highlighted_widget_id, .. } => {
                *highlighted_widget_id = Some(widget_id.to_owned());
                true
            },
            PageType::Categorized { highlighted_widget_id, .. } => {
                *highlighted_widget_id = Some(widget_id.to_owned());
                true
            },
        }
    }

    /// Removes the highlight.
    pub fn clear_highlighted_widget(&mut self)
        ensures
            match *final(self) {
                PageType::Monolith { .. } => *final(self) == *old(self),
                PageType::Uncategorized { highlighted_widget_id, .. } => highlighted_widget_id is None,
                PageType::Categorized { highlighted_widget_id, .. } => highlighted_widget_id is None,
            },
            *old(self) is Monolith ==> *final(self) is Monolith,
            *old(self) is Uncategorized ==> *final(self) is Uncategorized,
            *old(self) is Categorized ==> *final(self) is Categorized,
            final(self).contents_unchanged(*old(self)),
    {
        match self {
            PageType::Monolith { .. } => {},
            PageType::Uncategorized { highlighted_widget_id, .. } => {
                *highlighted_widget_id = None;
            },
            PageType::Categorized { highlighted_widget_id, .. } => {
                *highlighted_widget_id = None;
            },
        }
    }
}

/// The parts of a page that match the last search query.
#[derive(Debug)]
pub enum FilteredPageType {
    /// Whether the page shows.
    Monolith { shown: bool },
    /// The indices of the widgets that show, in order.
    Uncategorized { widgets: Vec<usize> },
    /// The categories that show, in order, each with the indices of its widgets that show.
    Categorized { categories: Vec<(usize, Vec<usize>)> },
}

/// The categories that show, with their widgets, given the filter of a categorized page.
pub open spec fn shown_categories(filter: Seq<Vec<usize>>) -> Seq<(usize, Seq<usize>)>
    decreases filter.len(),
{
    if filter.len() == 0 {
        seq![]
    } else if filter.last()@.len() > 0 {
        shown_categories(filter.drop_last()).push(((filter.len() - 1) as usize, filter.last()@))
    } else {
        shown_categories(filter.drop_last())
    }
}

/// A copy of a list of indices.
fn copy_indices(v: &Vec<usize>) -> (copy: Vec<usize>)
    ensures
        copy@ == v@,
{
    let mut copy = Vec::new();
    for i in 0..v.len()
        invariant
            copy@ == v@.take(i as int),
    {
        copy.push(v[i]);
        assert(copy@ =~= v@.take(i + 1));
    }
    assert(v@.take(v@.len() as int) =~= v@);
    copy
}

impl PageType {
    /// The parts of the page that match the last search query: empty categories are left out.
    pub fn get_filtered(&self) -> (filtered: FilteredPageType)
        ensures
            match *self {
                PageType::Monolith { filter, .. } => filtered matches FilteredPageType::Monolith {
                    shown,
                } && shown == filter,
                PageType::Uncategorized { filter, .. } => filtered matches FilteredPageType::Uncategorized {
                    widgets,
                } && widgets@ == filter@,
                PageType::Categorized { filter, .. } => filtered matches FilteredPageType::Categorized {
                    categories,
                } && categories@.len() == shown_categories(filter@).len() && forall|k: int|
                    0 <= k < categories@.len() ==> #[trigger] categories@[k].0 == shown_categories(
                        filter@,
                    )[k].0 && categories@[k].1@ == shown_categories(filter@)[k].1,
            },
    {
        match self {
            PageType::Monolith { filter, .. } => FilteredPageType::Monolith { shown: *filter },
            PageType::Uncategorized { filter, .. } => FilteredPageType::Uncategorized {
                widgets: copy_indices(filter),
            },
            PageType::Categorized { filter, .. } => {
                let mut categories: Vec<(usize, Vec<usize>)> = Vec::new();
                let n = filter.len();
                for i in 0..n
                    invariant
                        n == filter@.len(),
                        categories@.len() == shown_categories(filter@.take(i as int)).len(),
                        forall|k: int|
                            0 <= k < categories@.len() ==> #[trigger] categories@[k].0
                                == shown_categories(filter@.take(i as int))[k].0 && categories@[k].1@
                                == shown_categories(filter@.take(i as int))[k].1,
                {
                    let ghost prev = shown_categories(filter@.take(i as int));
                    let ghost before = categories@;
                    proof {
                        assert(filter@.take(i + 1).drop_last() =~= filter@.take(i as int));
                        assert(filter@.take(i + 1).last() == filter@[i as int]);
                    }
                    if filter[i].len() > 0 {
                        let copy = copy_indices(&filter[i]);
                        categories.push((i, copy));
                        proof {
                            let next = shown_categories(filter@.take(i + 1));
                            assert(next == prev.push((i, filter@[i as int]@)));
                            assert forall|k: int| 0 <= k < categories@.len() implies #[trigger] categories@[k].0
                                == next[k].0 && categories@[k].1@ == next[k].1 by {
                                if k < before.len() {
                                    assert(categories@[k] == before[k]);
                                }
                            }
                        }
                    } else {
                        proof {
                            assert(shown_categories(filter@.take(i + 1)) == prev);
                        }
                    }
                }
                proof {
                    assert(filter@.take(n as int) =~= filter@);
                }
                FilteredPageType::Categorized { categories }
            },
        }
    }
}

/// The indices `0..n`.
fn index_range(n: usize) -> (indices: Vec<usize>)
    ensures
        indices@ == all_indices(n as nat),
{
    let mut indices = Vec::new();
    for i in 0..n
        invariant
            indices@ == all_indices(i as nat),
    {
        indices.push(i);
        assert(indices@ =~= all_indices((i + 1) as nat));
    }
    indices
}

proof fn lemma_matching_indices_len(widgets: Seq<SettingsWidgetEntry>, query: Seq<char>)
    ensures
        matching_indices(widgets, query).len() <= widgets.len(),
    decreases widgets.len(),
{
    if widgets.len() > 0 {
        lemma_matching_indices_len(widgets.drop_last(), query);
    }
}

proof fn lemma_category_widget_count_prefix(categories: Seq<Category>, i: int)
    requires
        0 <= i <= categories.len(),
    ensures
        category_widget_count(categories.take(i)) <= category_widget_count(categories),
    decreases categories.len() - i,
{
    if i < categories.len() {
        assert(categories.take(i) == categories.drop_last().take(i));
        lemma_category_widget_count_prefix(categories.drop_last(), i);
        assert(categories.take(categories.len() as int) =~= categories);
    } else {
        assert(categories.take(i) =~= categories);
    }
}

/// The indices of the widgets shown for a query, in order.
fn matching_widgets(widgets: &Vec<SettingsWidgetEntry>, query: &str) -> (indices: Vec<usize>)
    ensures
        indices@ == matching_indices(widgets@, query@),
{
    let mut indices = Vec::new();
    let n = widgets.len();
    for i in 0..n
        invariant
            n == widgets@.len(),
            indices@ == matching_indices(widgets@.take(i as int), query@),
    {
        let w = &widgets[i];
        proof {
            assert(widgets@.take(i + 1).drop_last() =~= widgets@.take(i as int));
        }
        if w.should_render && search_terms_match(w.search_terms.as_str(), query) {
            indices.push(i);
        }
    }
    proof {
        assert(widgets@.take(n as int) =~= widgets@);
    }
    indices
}


/// The filter of a page lists exactly the widgets that match the query, each once, in the
/// order of the page.
pub proof fn lemma_filter_lists_exactly_the_matches(widgets: Seq<SettingsWidgetEntry>, query: Seq<char>)
    requires
        widgets.len() <= usize::MAX,
    ensures
        forall|k: int|
            0 <= k < matching_indices(widgets, query).len() ==> {
                let i = #[trigger] matching_indices(widgets, query)[k];
                &&& i < widgets.len()
                &&& widget_matches(widgets[i as int], query)
            },
        forall|k: int, l: int|
            0 <= k < l < matching_indices(widgets, query).len() ==> #[trigger] matching_indices(
                widgets,
                query,
            )[k] < #[trigger] matching_indices(widgets, query)[l],
        forall|i: int|
            0 <= i < widgets.len() && widget_matches(#[trigger] widgets[i], query) ==> matching_indices(
                widgets,
                query,
            ).contains(i as usize),
    decreases widgets.len(),
{
    if widgets.len() > 0 {
        let prefix = widgets.drop_last();
        lemma_filter_lists_exactly_the_matches(prefix, query);
        let prev = matching_indices(prefix, query);
        assert forall|i: int| 0 <= i < prefix.len() implies #[trigger] prefix[i] == widgets[i] by {}
        if widget_matches(widgets.last(), query) {
            let cur = prev.push((widgets.len() - 1) as usize);
            assert forall|k: int| 0 <= k < cur.len() implies {
                let i = #[trigger] cur[k];
                &&& i < widgets.len()
                &&& widget_matches(widgets[i as int], query)
            } by {
                if k < prev.len() {
                    assert(cur[k] == prev[k]);
                    assert(prefix[prev[k] as int] == widgets[prev[k] as int]);
                }
            }
            assert forall|k: int, l: int| 0 <= k < l < cur.len() implies #[trigger] cur[k] < #[trigger] cur[l] by {
                if l < prev.len() {
                    assert(cur[k] == prev[k] && cur[l] == prev[l]);
                } else {
                    assert(cur[k] == prev[k]);
                }
            }
            assert forall|i: int|
                0 <= i < widgets.len() && widget_matches(#[trigger] widgets[i], query) implies cur.contains(
                i as usize,
            ) by {
                if i < widgets.len() - 1 {
                    assert(prefix[i] == widgets[i]);
                    let k = choose|k: int| 0 <= k < prev.len() && prev[k] == i as usize;
                    assert(cur[k] == i as usize);
                } else {
                    assert(cur[prev.len() as int] == i as usize);
                }
            }
        } else {
            assert forall|k: int| 0 <= k < prev.len() implies {
                let i = #[trigger] prev[k];
                &&& i < widgets.len()
                &&& widget_matches(widgets[i as int], query)
            } by {
                assert(prefix[prev[k] as int] == widgets[prev[k] as int]);
            }
            assert forall|i: int|
                0 <= i < widgets.len() && widget_matches(#[trigger] widgets[i], query) implies prev.contains(
                i as usize,
            ) by {
                assert(i < widgets.len() - 1);
                assert(prefix[i] == widgets[i]);
            }
        }
    }
}

/// With an empty query, a page shows every widget that renders.
pub proof fn lemma_empty_query_shows_rendered(widget: SettingsWidgetEntry)
    ensures
        widget_matches(widget, Seq::empty()) == widget.should_render,
{
}

/// A page's search result shows it exactly when some widget matched, for a counted result.
pub proof fn lemma_count_truthy(n: usize)
    ensures
        match_data_truthy(MatchData::Countable(n)) == (n > 0),
{
}


/// A widget that matches a query matches every query whose lower-cased words are among the
/// first query's lower-cased words, whatever their order and however often they repeat.
pub proof fn lemma_fewer_words_match_more(terms: Seq<char>, query: Seq<char>, narrower: Seq<char>)
    requires
        narrower.len() > 0,
        words_within(lowercase(query), lowercase(narrower)),
        search_terms_matches(terms, narrower),
    ensures
        search_terms_matches(terms, query),
{
    if query.len() > 0 {
        lemma_fewer_words_still_occur(lowercase(terms), lowercase(query), lowercase(narrower));
    }
}

/// Adding words to a query narrows a page's filter: every widget shown for the query with more
/// words is shown for the other, so its count is no larger. Two non-empty queries with the same
/// lower-cased words, in any order, show the same widgets.
pub proof fn lemma_more_words_narrow_the_filter(
    widgets: Seq<SettingsWidgetEntry>,
    query: Seq<char>,
    narrower: Seq<char>,
)
    requires
        narrower.len() > 0,
        words_within(lowercase(query), lowercase(narrower)),
    ensures
        forall|k: int|
            0 <= k < matching_indices(widgets, narrower).len() ==> matching_indices(
                widgets,
                query,
            ).contains(#[trigger] matching_indices(widgets, narrower)[k]),
        matching_indices(widgets, narrower).len() <= matching_indices(widgets, query).len(),
        query.len() > 0 && words_within(lowercase(narrower), lowercase(query)) ==> matching_indices(
            widgets,
            narrower,
        ) == matching_indices(widgets, query),
    decreases widgets.len(),
{
    if widgets.len() > 0 {
        let prefix = widgets.drop_last();
        lemma_more_words_narrow_the_filter(prefix, query, narrower);
        let w = widgets.last();
        let a = matching_indices(prefix, narrower);
        let b = matching_indices(prefix, query);
        if widget_matches(w, narrower) {
            lemma_fewer_words_match_more(w.search_terms@, query, narrower);
        }
        if query.len() > 0 && words_within(lowercase(narrower), lowercase(query)) && widget_matches(
            w,
            query,
        ) {
            lemma_fewer_words_match_more(w.search_terms@, narrower, query);
        }
        let last = (widgets.len() - 1) as usize;
        if widget_matches(w, narrower) {
            assert forall|k: int|
                0 <= k < a.push(last).len() implies b.push(last).contains(#[trigger] a.push(last)[k]) by {
                if k < a.len() {
                    assert(a.push(last)[k] == a[k]);
                    let m = choose|m: int| 0 <= m < b.len() && b[m] == a[k];
                    assert(b.push(last)[m] == a[k]);
                } else {
                    assert(b.push(last)[b.len() as int] == last);
                }
            }
        } else if widget_matches(w, query) {
            assert forall|k: int| 0 <= k < a.len() implies b.push(last).contains(#[trigger] a[k]) by {
                let m = choose|m: int| 0 <= m < b.len() && b[m] == a[k];
                assert(b.push(last)[m] == a[k]);
            }
        }
    }
}

} // verus!
