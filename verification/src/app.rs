//! The browser core: screen state machine, live filtering, wrap-around
//! selection and the one-entry payload cache.
//!
//! Everything here is bookkeeping over plain values. The collaborators
//! that read key events, query the data source and draw the screen live
//! outside the library; they feed key presses and record lists in and
//! take the settled state out after every tick.
use vstd::prelude::*;

use crate::AppError;
use crate::component::{EditingInput, InputArena, InputId, MainInput};
use crate::model::Header;

verus! {

/// Height of one rendered record row; the scrollbar position is the
/// selected position scaled by it.
pub const ITEM_HEIGHT: usize = 4;

/// Which screen has the focus, with the focused input inside it.
#[derive(Clone, Copy, Debug, PartialEq, Eq, Structural)]
pub enum CurrentScreen {
    Main(MainInput),
    Editing(EditingInput),
    Exiting,
}

/// One key press, as the core understands it. The reader of terminal
/// events translates whatever it receives into this closed set; any key
/// the core does not react to arrives as `Other`.
#[derive(Clone, Copy, Debug, PartialEq, Eq, Structural)]
pub enum Key {
    Char(char),
    Up,
    Down,
    Enter,
    Esc,
    Backspace,
    Tab,
    Other,
}

/// Outside work a key press asks for. The core never performs it; the
/// driver does, and hands the result back.
#[derive(Clone, Copy, Debug, PartialEq, Eq, Structural)]
pub enum Action {
    /// Nothing to do outside the core.
    Noop,
    /// Reload the record list from the data source.
    Reload,
}

/// The list widget's selection, kept in step with the selected index.
#[derive(Clone, Copy, Debug, PartialEq, Eq, Structural)]
pub struct TableSelection {
    pub selected: Option<usize>,
}

/// The scrollbar's geometry: total content length and current position.
#[derive(Clone, Copy, Debug, PartialEq, Eq, Structural)]
pub struct ScrollState {
    pub content_length: usize,
    pub position: usize,
}

/// The needle occurs in the haystack starting at position `i`.
pub open spec fn match_at(hay: Seq<char>, needle: Seq<char>, i: int) -> bool {
    &&& 0 <= i
    &&& i + needle.len() <= hay.len()
    &&& hay.subrange(i, i + needle.len()) == needle
}

/// The needle occurs somewhere in the haystack as a contiguous
/// substring. The empty needle occurs in every haystack.
pub open spec fn has_substring(hay: Seq<char>, needle: Seq<char>) -> bool {
    exists|i: int| match_at(hay, needle, i)
}

/// An empty needle occurs in every haystack.
pub proof fn lemma_empty_needle_matches(hay: Seq<char>, needle: Seq<char>)
    requires
        needle.len() == 0,
    ensures
        has_substring(hay, needle),
{
    assert(hay.subrange(0, 0) =~= needle);
    assert(match_at(hay, needle, 0));
}

/// Every position of the view is a valid index into a list of `n`
/// records; enough for any lookup through the view to land inside the
/// list.
pub open spec fn view_in_bounds(view: Seq<usize>, n: int) -> bool {
    forall|k: int| 0 <= k < view.len() ==> (#[trigger] view[k]) < n
}

/// The view's positions are strictly increasing: filtering preserves
/// list order and never repeats a record.
pub open spec fn view_sorted(view: Seq<usize>) -> bool {
    forall|k1: int, k2: int|
        0 <= k1 < k2 < view.len() ==> #[trigger] view[k1] < #[trigger] view[k2]
}

/// A well-shaped filtered view over a list of `n` records: strictly
/// increasing positions, each a valid index.
pub open spec fn view_ok(view: Seq<usize>, n: int) -> bool {
    &&& view_in_bounds(view, n)
    &&& view_sorted(view)
}

/// The filtered view derived from a record list and a filter text:
/// well-shaped, and holding exactly the positions of the records whose
/// name contains the text.
pub open spec fn is_filter_of(view: Seq<usize>, items: Seq<Header>, needle: Seq<char>) -> bool {
    &&& view_ok(view, items.len() as int)
    &&& forall|k: int|
        0 <= k < view.len() ==> has_substring(items[(#[trigger] view[k]) as int].name@, needle)
    &&& forall|i: int|
        0 <= i < items.len() && has_substring(items[i].name@, needle) ==> view.contains(
            #[trigger] (i as usize),
        )
}

/// Each position of a well-shaped view is at least its rank.
proof fn lemma_view_ok_ge(view: Seq<usize>, n: int, k: int)
    requires
        view_ok(view, n),
        0 <= k < view.len(),
    ensures
        view[k] >= k,
    decreases k,
{
    if k > 0 {
        lemma_view_ok_ge(view, n, k - 1);
        assert(view[k - 1] < view[k]);
    }
}

/// A well-shaped view over `n` records holds at most `n` positions.
pub proof fn lemma_view_ok_len(view: Seq<usize>, n: int)
    requires
        view_ok(view, n),
        0 <= n,
    ensures
        view.len() <= n,
{
    if view.len() > 0 {
        lemma_view_ok_ge(view, n, view.len() - 1);
    }
}

/// Where moving down lands from position `p` in a view of length `len`:
/// one step forward, wrapping to the top from the last position; an
/// empty view pins the position at the top.
pub open spec fn next_position(p: int, len: int) -> int {
    if len == 0 {
        0
    } else if p >= len - 1 {
        0
    } else {
        p + 1
    }
}

/// The selection position after `k` successive moves down through a
/// view of length `len`.
pub open spec fn iter_next(p: int, len: int, k: nat) -> int
    decreases k,
{
    if k == 0 {
        p
    } else {
        next_position(iter_next(p, len, (k - 1) as nat), len)
    }
}

/// Where moving up lands: one step back, wrapping to the bottom from
/// position 0; an empty view pins the position at the top.
pub open spec fn prev_position(p: int, len: int) -> int {
    if len == 0 {
        0
    } else if p == 0 {
        len - 1
    } else {
        p - 1
    }
}

/// Relies on `str::contains`: true exactly when the second string
/// occurs as a contiguous substring of the characters of the first.
#[verifier::external_body]
fn str_contains(v: &str, f: &str) -> (r: bool)
    ensures
        r == has_substring(v@, f@),
{
    v.contains(f)
}

/// The mutable browsing state: the loaded records, the filtered view
/// over them, the selection and scroll bookkeeping, the payload cache
/// and the screen the input is routed to.
pub struct AppState {
    /// All records currently loaded from the data source.
    pub items: Vec<Header>,
    /// At most one resolved payload, keyed by the record identifier it
    /// was fetched for.
    pub cached: Option<(usize, String)>,
    /// The highlighted position inside the filtered view (not inside
    /// `items`).
    pub selected_index: usize,
    /// Positions into `items` that match the current filter text.
    pub filtered_indexes: Vec<usize>,
    /// The list widget's selection, kept equal to `selected_index`.
    pub state: TableSelection,
    /// The scrollbar, its position derived from `selected_index`.
    pub scroll_state: ScrollState,
    /// Which screen the input is routed to.
    pub current_screen: CurrentScreen,
}

impl AppState {
    /// The record position the selection points at through the filtered
    /// view: the selected entry, or the last entry when the stored
    /// position runs past a view that has shrunk. Meaningful only for a
    /// non-empty view.
    pub open spec fn target_index(self) -> int {
        if self.selected_index < self.filtered_indexes@.len() {
            self.filtered_indexes@[self.selected_index as int] as int
        } else {
            self.filtered_indexes@.last() as int
        }
    }

    /// The identifier of the record the selection points at. Meaningful
    /// only for a non-empty view.
    pub open spec fn target_id(self) -> usize {
        self.items@[self.target_index()].rowid
    }

    /// The cache already holds the payload of the record the selection
    /// points at, so no fetch is owed.
    pub open spec fn cache_hit(self) -> bool {
        self.cached matches Some(e) && e.0 == self.target_id()
    }

    /// Selection and scroll bookkeeping in step with each other, and
    /// the list small enough for the scroll metric. Holds even while
    /// the filtered view is stale after a reload.
    pub open spec fn sync_ok(self) -> bool {
        &&& self.items@.len() * ITEM_HEIGHT <= usize::MAX
        &&& self.state.selected == Some(self.selected_index)
        &&& self.scroll_state.position == self.selected_index * ITEM_HEIGHT
    }

    /// The settled state: bookkeeping in step and the filtered view
    /// well-shaped against the current record list.
    pub open spec fn wf(self) -> bool {
        &&& self.sync_ok()
        &&& view_ok(self.filtered_indexes@, self.items@.len() as int)
    }

    /// A fresh state over an already loaded record list: nothing
    /// filtered yet, nothing cached, the top row selected, input routed
    /// to the main screen with no focused input.
    pub fn new(items: Vec<Header>) -> (r: Result<AppState, AppError>)
        requires
            items@.len() * ITEM_HEIGHT <= usize::MAX,
        ensures
            r is Ok,
            r->Ok_0.wf(),
            r->Ok_0.items == items,
            r->Ok_0.cached is None,
            r->Ok_0.selected_index == 0,
            r->Ok_0.filtered_indexes@ == Seq::<usize>::empty(),
            r->Ok_0.state.selected == Some(0usize),
            r->Ok_0.scroll_state.position == 0,
            r->Ok_0.scroll_state.content_length == (if items@.len() == 0 {
                0int
            } else {
                (items@.len() - 1) * ITEM_HEIGHT
            }),
            r->Ok_0.current_screen == CurrentScreen::Main(MainInput::Normal),
    {
        let n = items.len();
        let content_length: usize = if n == 0 {
            0
        } else {
            (n - 1) * ITEM_HEIGHT
        };
        Ok(
            AppState {
                items,
                cached: None,
                selected_index: 0,
                filtered_indexes: Vec::new(),
                state: TableSelection { selected: Some(0) },
                scroll_state: ScrollState { content_length, position: 0 },
                current_screen: CurrentScreen::Main(MainInput::Normal),
            },
        )
    }

    /// Replaces the record list wholesale with a freshly loaded one;
    /// nothing else changes. The filtered view may be stale against the
    /// new list until the next `filter` run.
    pub fn refresh(&mut self, items: Vec<Header>) -> (r: Result<(), AppError>)
        requires
            items@.len() * ITEM_HEIGHT <= usize::MAX,
        ensures
            r is Ok,
            final(self).items == items,
            final(self).cached == old(self).cached,
            final(self).selected_index == old(self).selected_index,
            final(self).filtered_indexes == old(self).filtered_indexes,
            final(self).state == old(self).state,
            final(self).scroll_state == old(self).scroll_state,
            final(self).current_screen == old(self).current_screen,
    {
        self.items = items;
        Ok(())
    }

    /// Substring containment of the filter text in a record name:
    /// case-sensitive, no normalization.
    pub fn matches_filter(&self, v: &str, f: &str) -> (r: bool)
        ensures
            r == has_substring(v@, f@),
    {
        str_contains(v, f)
    }

    /// Recomputes the filtered view from the record list and the given
    /// filter text: exactly the positions of matching records, in list
    /// order. An empty text keeps every record.
    pub fn filter(&mut self, filter_value: &str) -> (r: Result<(), AppError>)
        ensures
            r is Ok,
            is_filter_of(final(self).filtered_indexes@, old(self).items@, filter_value@),
            filter_value@.len() == 0 ==> final(self).filtered_indexes@ == Seq::new(
                old(self).items@.len(),
                |i: int| i as usize,
            ),
            final(self).items == old(self).items,
            final(self).cached == old(self).cached,
            final(self).selected_index == old(self).selected_index,
            final(self).state == old(self).state,
            final(self).scroll_state == old(self).scroll_state,
            final(self).current_screen == old(self).current_screen,
    {
        let n = self.items.len();
        let mut idxs: Vec<usize> = Vec::new();
        if filter_value.is_empty() {
            let mut i: usize = 0;
            while i < n
                invariant
                    i <= n,
                    n == self.items@.len(),
                    idxs@ == Seq::new(i as nat, |j: int| j as usize),
                decreases n - i,
            {
                idxs.push(i);
                proof {
                    assert(idxs@ =~= Seq::new((i + 1) as nat, |j: int| j as usize));
                }
                i = i + 1;
            }
            proof {
                assert forall|i0: int|
                    0 <= i0 < self.items@.len() && has_substring(
                        self.items@[i0].name@,
                        filter_value@,
                    ) implies idxs@.contains(i0 as usize) by {
                    assert(idxs@[i0] == i0 as usize);
                }
                assert forall|k: int| 0 <= k < idxs@.len() implies has_substring(
                    self.items@[(idxs@[k]) as int].name@,
                    filter_value@,
                ) by {
                    lemma_empty_needle_matches(self.items@[(idxs@[k]) as int].name@, filter_value@);
                }
            }
        } else {
            let mut i: usize = 0;
            while i < n
                invariant
                    i <= n,
                    n == self.items@.len(),
                    view_ok(idxs@, i as int),
                    forall|k: int|
                        0 <= k < idxs@.len() ==> has_substring(
                            self.items@[(#[trigger] idxs@[k]) as int].name@,
                            filter_value@,
                        ),
                    forall|i0: int|
                        0 <= i0 < i && has_substring(self.items@[i0].name@, filter_value@)
                            ==> idxs@.contains(#[trigger] (i0 as usize)),
                decreases n - i,
            {
                let ghost pre = idxs@;
                let matched = self.matches_filter(&self.items[i].name, filter_value);
                if matched {
                    idxs.push(i);
                }
                proof {
                    assert forall|i0: int|
                        0 <= i0 < i + 1 && has_substring(
                            self.items@[i0].name@,
                            filter_value@,
                        ) implies idxs@.contains(i0 as usize) by {
                        if i0 < i {
                            let j = choose|j: int| 0 <= j < pre.len() && pre[j] == i0 as usize;
                            assert(idxs@[j] == i0 as usize);
                        } else {
                            assert(idxs@[idxs@.len() - 1] == i as usize);
                        }
                    }
                }
                i = i + 1;
            }
        }
        self.filtered_indexes = idxs;
        Ok(())
    }

    /// Moves the highlight to the given position and re-derives the
    /// widget bookkeeping from it. No bounds check against the filtered
    /// view happens here; lookups clamp defensively instead.
    pub fn update_state(&mut self, new_state: usize)
        requires
            new_state * ITEM_HEIGHT <= usize::MAX,
        ensures
            final(self).selected_index == new_state,
            final(self).state.selected == Some(new_state),
            final(self).scroll_state.position == new_state * ITEM_HEIGHT,
            final(self).scroll_state.content_length == old(self).scroll_state.content_length,
            final(self).items == old(self).items,
            final(self).filtered_indexes == old(self).filtered_indexes,
            final(self).cached == old(self).cached,
            final(self).current_screen == old(self).current_screen,
    {
        self.selected_index = new_state;
        self.state.selected = Some(new_state);
        self.scroll_state.position = new_state * ITEM_HEIGHT;
    }

    /// Moves the highlight one row down, wrapping to the top from the
    /// last filtered row; on an empty view the highlight stays at the
    /// top.
    pub fn next_row(&mut self) -> (r: Result<(), AppError>)
        requires
            old(self).wf(),
        ensures
            r is Ok,
            final(self).wf(),
            final(self).selected_index == next_position(
                old(self).selected_index as int,
                old(self).filtered_indexes@.len() as int,
            ),
            final(self).items == old(self).items,
            final(self).filtered_indexes == old(self).filtered_indexes,
            final(self).cached == old(self).cached,
            final(self).current_screen == old(self).current_screen,
            final(self).scroll_state.content_length == old(self).scroll_state.content_length,
    {
        let len = self.filtered_indexes.len();
        proof {
            lemma_view_ok_len(self.filtered_indexes@, self.items@.len() as int);
        }
        let i: usize = if len == 0 {
            0
        } else {
            match self.state.selected {
                Some(p) => if p >= len - 1 {
                    0
                } else {
                    p + 1
                },
                None => 0,
            }
        };
        self.update_state(i);
        Ok(())
    }

    /// Moves the highlight one row up, wrapping to the last filtered row
    /// from the top; on an empty view the highlight stays at the top.
    pub fn previous_row(&mut self) -> (r: Result<(), AppError>)
        requires
            old(self).wf(),
        ensures
            r is Ok,
            final(self).wf(),
            final(self).selected_index == prev_position(
                old(self).selected_index as int,
                old(self).filtered_indexes@.len() as int,
            ),
            final(self).items == old(self).items,
            final(self).filtered_indexes == old(self).filtered_indexes,
            final(self).cached == old(self).cached,
            final(self).current_screen == old(self).current_screen,
            final(self).scroll_state.content_length == old(self).scroll_state.content_length,
    {
        let len = self.filtered_indexes.len();
        proof {
            lemma_view_ok_len(self.filtered_indexes@, self.items@.len() as int);
        }
        let i: usize = if len == 0 {
            0
        } else {
            match self.state.selected {
                Some(p) => if p == 0 {
                    len - 1
                } else {
                    p - 1
                },
                None => 0,
            }
        };
        self.update_state(i);
        Ok(())
    }

    /// The records the filtered view selects, in view order, as
    /// references into the record list.
    pub fn get_filtered_data(&self) -> (r: Result<Vec<&Header>, AppError>)
        requires
            view_in_bounds(self.filtered_indexes@, self.items@.len() as int),
        ensures
            r is Ok,
            r->Ok_0@.len() == self.filtered_indexes@.len(),
            forall|k: int|
                0 <= k < self.filtered_indexes@.len() ==> *(#[trigger] r->Ok_0@[k])
                    == self.items@[self.filtered_indexes@[k] as int],
    {
        let mut out: Vec<&Header> = Vec::new();
        let len = self.filtered_indexes.len();
        let mut k: usize = 0;
        while k < len
            invariant
                k <= len,
                len == self.filtered_indexes@.len(),
                view_in_bounds(self.filtered_indexes@, self.items@.len() as int),
                out@.len() == k,
                forall|j: int|
                    0 <= j < k ==> *(#[trigger] out@[j])
                        == self.items@[self.filtered_indexes@[j] as int],
            decreases len - k,
        {
            let idx = self.filtered_indexes[k];
            out.push(&self.items[idx]);
            k = k + 1;
        }
        Ok(out)
    }

    /// Decides what the payload cache owes for the current selection.
    /// On an empty view the cache is cleared and nothing is owed. Else,
    /// the selection is resolved through the view (clamped to the last
    /// entry when it runs past the end): a cache entry with the same
    /// record identifier is a hit and nothing is owed; otherwise the
    /// identifier to fetch is returned, and the cache is left for
    /// `store_payload` to replace once the payload has been fetched.
    pub fn get_data(&mut self) -> (r: Result<Option<usize>, AppError>)
        requires
            view_in_bounds(old(self).filtered_indexes@, old(self).items@.len() as int),
        ensures
            r is Ok,
            final(self).items == old(self).items,
            final(self).filtered_indexes == old(self).filtered_indexes,
            final(self).selected_index == old(self).selected_index,
            final(self).state == old(self).state,
            final(self).scroll_state == old(self).scroll_state,
            final(self).current_screen == old(self).current_screen,
            old(self).filtered_indexes@.len() == 0 ==> final(self).cached is None && r->Ok_0
                is None,
            old(self).filtered_indexes@.len() > 0 ==> {
                &&& final(self).cached == old(self).cached
                &&& (old(self).cache_hit() ==> r->Ok_0 is None)
                &&& (!old(self).cache_hit() ==> r->Ok_0 == Some(old(self).target_id()))
            },
    {
        let len = self.filtered_indexes.len();
        if len == 0 {
            self.cached = None;
            return Ok(None);
        }
        let real_index: usize = if self.selected_index < len {
            self.filtered_indexes[self.selected_index]
        } else {
            self.filtered_indexes[len - 1]
        };
        if real_index >= self.items.len() {
            return Err(AppError::RecordNotFound);
        }
        let rowid = self.items[real_index].rowid;
        match &self.cached {
            Some(pair) => {
                if pair.0 == rowid {
                    return Ok(None);
                }
            },
            None => {},
        }
        Ok(Some(rowid))
    }

    /// Installs a payload fetched for the given record identifier as the
    /// cache's one entry, replacing whatever was cached before.
    pub fn store_payload(&mut self, rowid: usize, payload: String)
        ensures
            final(self).cached == Some((rowid, payload)),
            final(self).items == old(self).items,
            final(self).filtered_indexes == old(self).filtered_indexes,
            final(self).selected_index == old(self).selected_index,
            final(self).state == old(self).state,
            final(self).scroll_state == old(self).scroll_state,
            final(self).current_screen == old(self).current_screen,
    {
        self.cached = Some((rowid, payload));
    }
}

/// Where toggling the editing focus lands: the key and value lines
/// swap; from any other screen, editing starts on the value line.
pub open spec fn toggled(s: CurrentScreen) -> CurrentScreen {
    match s {
        CurrentScreen::Editing(EditingInput::Key) => CurrentScreen::Editing(EditingInput::Value),
        CurrentScreen::Editing(EditingInput::Value) => CurrentScreen::Editing(EditingInput::Key),
        _ => CurrentScreen::Editing(EditingInput::Value),
    }
}

/// Where a key press takes the screen when input is routed with the
/// given main-screen focus.
pub open spec fn main_screen_target(s: CurrentScreen, focused: MainInput, k: Key) -> CurrentScreen {
    match focused {
        MainInput::Normal => match k {
            Key::Char(c) => if c == 'e' {
                CurrentScreen::Editing(EditingInput::Key)
            } else if c == 'q' {
                CurrentScreen::Exiting
            } else if c == 'f' {
                CurrentScreen::Main(MainInput::Filter)
            } else {
                s
            },
            _ => s,
        },
        MainInput::Filter => match k {
            Key::Enter | Key::Esc => CurrentScreen::Main(MainInput::Normal),
            _ => s,
        },
    }
}

/// The screen transition table of the state machine: where one key
/// press takes each screen. Unmatched keys leave the screen as it is.
pub open spec fn screen_step(s: CurrentScreen, k: Key) -> CurrentScreen {
    match s {
        CurrentScreen::Main(f) => main_screen_target(s, f, k),
        CurrentScreen::Editing(_) => match k {
            Key::Enter | Key::Tab => toggled(s),
            Key::Esc => CurrentScreen::Main(MainInput::Normal),
            _ => s,
        },
        CurrentScreen::Exiting => match k {
            Key::Char(c) => if c == 'n' || c == 'q' {
                CurrentScreen::Main(MainInput::Filter)
            } else {
                s
            },
            _ => s,
        },
    }
}

/// The input field a screen routes text editing to, if any.
pub open spec fn edited_field(s: CurrentScreen) -> Option<InputId> {
    match s {
        CurrentScreen::Main(MainInput::Filter) => Some(InputId::Filter),
        CurrentScreen::Editing(EditingInput::Key) => Some(InputId::Key),
        CurrentScreen::Editing(EditingInput::Value) => Some(InputId::Value),
        _ => Option::<InputId>::None,
    }
}

/// What one key press does to the text of the field it is routed to:
/// a character is appended, backspace removes the last character, every
/// other key leaves the text alone.
pub open spec fn field_step(content: Seq<char>, k: Key) -> Seq<char> {
    match k {
        Key::Char(c) => content.push(c),
        Key::Backspace => crate::component::popped(content),
        _ => content,
    }
}

/// The whole interactive application as the core sees it: browsing
/// state, the text inputs, and the exit flag the driver polls.
pub struct App {
    pub state: AppState,
    pub input_arena: InputArena,
    pub exit: bool,
}

impl App {
    /// A fresh application over an already loaded record list.
    pub fn new(items: Vec<Header>) -> (r: Result<App, AppError>)
        requires
            items@.len() * ITEM_HEIGHT <= usize::MAX,
        ensures
            r is Ok,
            r->Ok_0.state.wf(),
            r->Ok_0.state.items == items,
            r->Ok_0.state.cached is None,
            r->Ok_0.state.selected_index == 0,
            r->Ok_0.state.filtered_indexes@ == Seq::<usize>::empty(),
            r->Ok_0.state.current_screen == CurrentScreen::Main(MainInput::Normal),
            forall|k: InputId| #[trigger] r->Ok_0.input_arena.content_of(k) == Seq::<char>::empty(),
            r->Ok_0.exit == false,
    {
        let state = AppState::new(items)?;
        Ok(App { state, input_arena: InputArena::new()?, exit: false })
    }

    /// Swaps the editing focus between the key and value lines; from
    /// outside the editing screen, editing starts on the value line.
    pub fn toggle_editing(&mut self)
        ensures
            final(self).state.current_screen == toggled(old(self).state.current_screen),
            final(self).state.items == old(self).state.items,
            final(self).state.cached == old(self).state.cached,
            final(self).state.selected_index == old(self).state.selected_index,
            final(self).state.filtered_indexes == old(self).state.filtered_indexes,
            final(self).state.state == old(self).state.state,
            final(self).state.scroll_state == old(self).state.scroll_state,
            final(self).input_arena == old(self).input_arena,
            final(self).exit == old(self).exit,
    {
        match self.state.current_screen {
            CurrentScreen::Editing(EditingInput::Key) => {
                self.state.current_screen = CurrentScreen::Editing(EditingInput::Value);
            },
            CurrentScreen::Editing(EditingInput::Value) => {
                self.state.current_screen = CurrentScreen::Editing(EditingInput::Key);
            },
            _ => {
                self.state.current_screen = CurrentScreen::Editing(EditingInput::Value);
            },
        }
    }

    /// Routes one key press on the main screen. With no focused input,
    /// keys steer the screen and the selection, and `r` asks the driver
    /// to reload the record list; with the filter line focused, keys
    /// edit the filter text until enter or escape leave it.
    pub fn handle_key_event_main_screen(&mut self, key: Key, focused: MainInput) -> (r: Result<
        Action,
        AppError,
    >)
        requires
            old(self).state.wf(),
        ensures
            r is Ok,
            final(self).state.wf(),
            r->Ok_0 == (if focused == MainInput::Normal && key == Key::Char('r') {
                Action::Reload
            } else {
                Action::Noop
            }),
            final(self).state.current_screen == main_screen_target(
                old(self).state.current_screen,
                focused,
                key,
            ),
            final(self).exit == old(self).exit,
            final(self).state.items == old(self).state.items,
            final(self).state.filtered_indexes == old(self).state.filtered_indexes,
            final(self).state.cached == old(self).state.cached,
            final(self).state.scroll_state.content_length
                == old(self).state.scroll_state.content_length,
            focused == MainInput::Normal && key == Key::Down ==> final(self).state.selected_index
                == next_position(
                old(self).state.selected_index as int,
                old(self).state.filtered_indexes@.len() as int,
            ),
            focused == MainInput::Normal && key == Key::Up ==> final(self).state.selected_index
                == prev_position(
                old(self).state.selected_index as int,
                old(self).state.filtered_indexes@.len() as int,
            ),
            focused != MainInput::Normal || (key != Key::Down && key != Key::Up) ==> final(self).state.selected_index == old(self).state.selected_index && final(self).state.state
                == old(self).state.state && final(self).state.scroll_state == old(self).state.scroll_state,
            focused == MainInput::Filter ==> {
                &&& final(self).input_arena.content_of(InputId::Filter) == field_step(
                    old(self).input_arena.content_of(InputId::Filter),
                    key,
                )
                &&& (forall|j: InputId|
                    j != InputId::Filter ==> #[trigger] final(self).input_arena.spec_field(j)
                        == old(self).input_arena.spec_field(j))
                &&& final(self).input_arena.spec_field(InputId::Filter).is_active == old(self).input_arena.spec_field(InputId::Filter).is_active
            },
            focused == MainInput::Normal ==> final(self).input_arena == old(self).input_arena,
    {
        match focused {
            MainInput::Normal => {
                match key {
                    Key::Char(c) => {
                        if c == 'e' {
                            self.state.current_screen = CurrentScreen::Editing(EditingInput::Key);
                        } else if c == 'q' {
                            self.state.current_screen = CurrentScreen::Exiting;
                        } else if c == 'f' {
                            self.state.current_screen = CurrentScreen::Main(MainInput::Filter);
                        } else if c == 'r' {
                            return Ok(Action::Reload);
                        }
                        Ok(Action::Noop)
                    },
                    Key::Down => {
                        self.state.next_row()?;
                        Ok(Action::Noop)
                    },
                    Key::Up => {
                        self.state.previous_row()?;
                        Ok(Action::Noop)
                    },
                    _ => Ok(Action::Noop),
                }
            },
            MainInput::Filter => {
                match key {
                    Key::Backspace => {
                        self.input_arena.value_pop(&InputId::Filter)?;
                        Ok(Action::Noop)
                    },
                    Key::Enter | Key::Esc => {
                        self.state.current_screen = CurrentScreen::Main(MainInput::Normal);
                        Ok(Action::Noop)
                    },
                    Key::Char(value) => {
                        self.input_arena.value_push(&InputId::Filter, value)?;
                        Ok(Action::Noop)
                    },
                    _ => Ok(Action::Noop),
                }
            },
        }
    }

    /// Routes one key press on the exit screen: `y` confirms leaving,
    /// `n` or `q` return to the main screen with the filter line
    /// focused.
    pub fn handle_key_event_exit_screen(&mut self, key: Key) -> (r: Result<(), AppError>)
        ensures
            r is Ok,
            final(self).exit == (old(self).exit || key == Key::Char('y')),
            final(self).state.current_screen == (if key == Key::Char('n') || key == Key::Char(
                'q',
            ) {
                CurrentScreen::Main(MainInput::Filter)
            } else {
                old(self).state.current_screen
            }),
            final(self).state.items == old(self).state.items,
            final(self).state.cached == old(self).state.cached,
            final(self).state.selected_index == old(self).state.selected_index,
            final(self).state.filtered_indexes == old(self).state.filtered_indexes,
            final(self).state.state == old(self).state.state,
            final(self).state.scroll_state == old(self).state.scroll_state,
            final(self).input_arena == old(self).input_arena,
    {
        match key {
            Key::Char(c) => {
                if c == 'y' {
                    self.exit = true;
                } else if c == 'n' || c == 'q' {
                    self.state.current_screen = CurrentScreen::Main(MainInput::Filter);
                }
            },
            _ => {},
        }
        Ok(())
    }

    /// Routes one key press on the editing screen: enter and tab swap
    /// the focused line, escape returns to the main screen, characters
    /// and backspace edit the focused line's text.
    pub fn handle_key_event_edit_screen(&mut self, key: Key, focused: EditingInput) -> (r: Result<
        (),
        AppError,
    >)
        ensures
            r is Ok,
            final(self).state.current_screen == (match key {
                Key::Enter | Key::Tab => toggled(old(self).state.current_screen),
                Key::Esc => CurrentScreen::Main(MainInput::Normal),
                _ => old(self).state.current_screen,
            }),
            final(self).input_arena.content_of(focused.spec_input_id()) == field_step(
                old(self).input_arena.content_of(focused.spec_input_id()),
                key,
            ),
            forall|j: InputId|
                j != focused.spec_input_id() ==> #[trigger] final(self).input_arena.spec_field(j)
                    == old(self).input_arena.spec_field(j),
            final(self).input_arena.spec_field(focused.spec_input_id()).is_active == old(self).input_arena.spec_field(focused.spec_input_id()).is_active,
            final(self).exit == old(self).exit,
            final(self).state.items == old(self).state.items,
            final(self).state.cached == old(self).state.cached,
            final(self).state.selected_index == old(self).state.selected_index,
            final(self).state.filtered_indexes == old(self).state.filtered_indexes,
            final(self).state.state == old(self).state.state,
            final(self).state.scroll_state == old(self).state.scroll_state,
    {
        match key {
            Key::Enter => self.toggle_editing(),
            Key::Backspace => {
                let id = focused.input_id();
                self.input_arena.value_pop(&id)?;
            },
            Key::Esc => {
                self.state.current_screen = CurrentScreen::Main(MainInput::Normal);
            },
            Key::Tab => {
                self.toggle_editing();
            },
            Key::Char(value) => {
                let id = focused.input_id();
                self.input_arena.value_push(&id, value)?;
            },
            _ => {},
        }
        Ok(())
    }

    /// Routes one key press to the handler of the screen that currently
    /// has the focus; the screen moves along the transition table, and
    /// the returned action tells the driver what outside work the press
    /// asked for.
    pub fn handle_events(&mut self, key: Key) -> (r: Result<Action, AppError>)
        requires
            old(self).state.wf(),
        ensures
            r is Ok,
            final(self).state.wf(),
            final(self).state.current_screen == screen_step(old(self).state.current_screen, key),
            final(self).exit == (old(self).exit || (old(self).state.current_screen
                is Exiting && key == Key::Char('y'))),
            r->Ok_0 == (if old(self).state.current_screen == CurrentScreen::Main(MainInput::Normal)
                && key == Key::Char('r') {
                Action::Reload
            } else {
                Action::Noop
            }),
            final(self).state.items == old(self).state.items,
            final(self).state.filtered_indexes == old(self).state.filtered_indexes,
            final(self).state.cached == old(self).state.cached,
            final(self).state.scroll_state.content_length
                == old(self).state.scroll_state.content_length,
            old(self).state.current_screen == CurrentScreen::Main(MainInput::Normal) && key
                == Key::Down ==> final(self).state.selected_index == next_position(
                old(self).state.selected_index as int,
                old(self).state.filtered_indexes@.len() as int,
            ),
            old(self).state.current_screen == CurrentScreen::Main(MainInput::Normal) && key
                == Key::Up ==> final(self).state.selected_index == prev_position(
                old(self).state.selected_index as int,
                old(self).state.filtered_indexes@.len() as int,
            ),
            old(self).state.current_screen != CurrentScreen::Main(MainInput::Normal) || (key
                != Key::Down && key != Key::Up) ==> final(self).state.selected_index == old(self).state.selected_index && final(self).state.state == old(self).state.state && final(self).state.scroll_state == old(self).state.scroll_state,
            (match edited_field(old(self).state.current_screen) {
                Some(f) => {
                    &&& final(self).input_arena.content_of(f) == field_step(
                        old(self).input_arena.content_of(f),
                        key,
                    )
                    &&& (forall|j: InputId|
                        j != f ==> #[trigger] final(self).input_arena.spec_field(j) == old(self).input_arena.spec_field(j))
                    &&& final(self).input_arena.spec_field(f).is_active == old(self).input_arena.spec_field(f).is_active
                },
                Option::<InputId>::None => final(self).input_arena == old(self).input_arena,
            }),
    {
        match self.state.current_screen {
            CurrentScreen::Main(focused) => self.handle_key_event_main_screen(key, focused),
            CurrentScreen::Exiting => {
                self.handle_key_event_exit_screen(key)?;
                Ok(Action::Noop)
            },
            CurrentScreen::Editing(focused) => {
                self.handle_key_event_edit_screen(key, focused)?;
                Ok(Action::Noop)
            },
        }
    }

    /// Settles one tick after input has been routed: recomputes the
    /// filtered view from the filter line's text, then resolves the
    /// payload cache against the new selection. Returns the record
    /// identifier whose payload the driver still has to fetch and hand
    /// to `store_payload`, if any.
    pub fn update_view(&mut self) -> (r: Result<Option<usize>, AppError>)
        requires
            old(self).state.sync_ok(),
        ensures
            r is Ok,
            final(self).state.wf(),
            final(self).exit == old(self).exit,
            final(self).input_arena == old(self).input_arena,
            final(self).state.items == old(self).state.items,
            final(self).state.selected_index == old(self).state.selected_index,
            final(self).state.state == old(self).state.state,
            final(self).state.scroll_state == old(self).state.scroll_state,
            final(self).state.current_screen == old(self).state.current_screen,
            is_filter_of(
                final(self).state.filtered_indexes@,
                old(self).state.items@,
                old(self).input_arena.content_of(InputId::Filter),
            ),
            final(self).state.filtered_indexes@.len() == 0 ==> final(self).state.cached
                is None && r->Ok_0 is None,
            final(self).state.filtered_indexes@.len() > 0 ==> {
                &&& final(self).state.cached == old(self).state.cached
                &&& (final(self).state.cache_hit() ==> r->Ok_0 is None)
                &&& (!final(self).state.cache_hit() ==> r->Ok_0 == Some(
                    final(self).state.target_id(),
                ))
            },
    {
        let content = self.input_arena.get_content(&InputId::Filter)?;
        self.state.filter(content.as_str())?;
        let fetch = self.state.get_data()?;
        Ok(fetch)
    }
}

} // verus!

