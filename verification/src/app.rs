//! The editor's state: which screen is active, the two draft buffers, and
//! the store of committed pairs, together with the operations the input
//! dispatcher invokes.

use crate::store::{keys_unique, lemma_map_of_pairs_push, lemma_map_of_pairs_update,
    lemma_push_keeps_keys_unique, lemma_update_keeps_keys_unique, map_of_pairs};
use vstd::prelude::*;

verus! {

/// The two fields a pair-editing popup can target.
#[derive(Clone, Copy, Debug, PartialEq, Eq, Structural)]
pub enum CurrentlyEditing {
    Key,
    Value,
}

/// The screen that is active; it alone decides how input is routed.
#[derive(Clone, Copy, Debug, PartialEq, Eq, Structural)]
pub enum CurrentScreen {
    /// Browsing the committed pairs.
    Main,
    /// Modal entry of a new pair, tagged with the buffer being edited.
    Editing(CurrentlyEditing),
    /// Waiting for the exit confirmation.
    Exiting,
}

/// The mathematical model of the whole editor state.
#[verifier::ext_equal]
pub struct AppState {
    pub screen: CurrentScreen,
    pub key: Seq<char>,
    pub value: Seq<char>,
    pub store: Map<Seq<char>, Seq<char>>,
}

/// The state the editor starts in: browsing, nothing typed, nothing
/// committed.
pub open spec fn init_state() -> AppState {
    AppState {
        screen: CurrentScreen::Main,
        key: Seq::empty(),
        value: Seq::empty(),
        store: Map::empty(),
    }
}

/// Committing moves the drafted pair into the store, a later commit of the
/// same key winning, and clears both draft buffers; the screen is untouched.
pub open spec fn commit_step(s: AppState) -> AppState {
    AppState {
        screen: s.screen,
        key: Seq::empty(),
        value: Seq::empty(),
        store: s.store.insert(s.key, s.value),
    }
}

/// Toggling swaps which field of the pair is edited and changes nothing
/// outside the editing screens.
pub open spec fn toggle_step(sc: CurrentScreen) -> CurrentScreen {
    match sc {
        CurrentScreen::Editing(CurrentlyEditing::Key) => CurrentScreen::Editing(
            CurrentlyEditing::Value,
        ),
        CurrentScreen::Editing(CurrentlyEditing::Value) => CurrentScreen::Editing(
            CurrentlyEditing::Key,
        ),
        _ => sc,
    }
}

/// Appending puts the character at the end of the buffer the screen marks
/// as active, and does nothing outside the editing screens.
pub open spec fn append_step(s: AppState, ch: char) -> AppState {
    match s.screen {
        CurrentScreen::Editing(CurrentlyEditing::Key) => AppState { key: s.key.push(ch), ..s },
        CurrentScreen::Editing(CurrentlyEditing::Value) => AppState {
            value: s.value.push(ch),
            ..s
        },
        _ => s,
    }
}

/// A buffer with its last character removed; an empty buffer stays empty.
pub open spec fn without_last(buf: Seq<char>) -> Seq<char> {
    if buf.len() == 0 {
        buf
    } else {
        buf.drop_last()
    }
}

/// Removing drops the last character of the buffer the screen marks as
/// active, never underflows, and does nothing outside the editing screens.
pub open spec fn remove_step(s: AppState) -> AppState {
    match s.screen {
        CurrentScreen::Editing(CurrentlyEditing::Key) => AppState {
            key: without_last(s.key),
            ..s
        },
        CurrentScreen::Editing(CurrentlyEditing::Value) => AppState {
            value: without_last(s.value),
            ..s
        },
        _ => s,
    }
}

/// The editor state: the active screen, the two draft buffers, and the
/// committed pairs.
pub struct App {
    pub key_input: String,
    pub value_input: String,
    pub pairs: Vec<(String, String)>,
    pub current_screen: CurrentScreen,
}

impl View for App {
    type V = AppState;

    open spec fn view(&self) -> AppState {
        AppState {
            screen: self.current_screen,
            key: self.key_input@,
            value: self.value_input@,
            store: map_of_pairs(self.pairs@),
        }
    }
}

/// Relies on String::push: appends the given character to the end of the
/// string.
#[verifier::external_body]
fn push_char(s: &mut String, ch: char)
    ensures
        final(s)@ == old(s)@.push(ch),
{
    s.push(ch)
}

/// Relies on String::pop: removes and returns the last character, and
/// returns None leaving the string as it was when the string is empty.
#[verifier::external_body]
fn pop_char(s: &mut String) -> (r: Option<char>)
    ensures
        old(s)@.len() == 0 ==> final(s)@ == old(s)@ && r is None,
        old(s)@.len() > 0 ==> final(s)@ == old(s)@.drop_last() && r == Some(old(s)@.last()),
{
    s.pop()
}

/// The text of the single JSON object whose fields are the keys of the map,
/// each holding its value as a JSON string.
pub uninterp spec fn json_object_of(m: Map<Seq<char>, Seq<char>>) -> Seq<char>;

/// Relies on serde_json::to_string over a std::collections::BTreeMap built
/// one for one from the pairs: a map of strings serializes as one JSON
/// object, field per key, and with the tree's sorted iteration order the
/// text depends on the key-to-value mapping alone. Serializing string keys
/// and string values cannot fail.
#[verifier::external_body]
fn json_of_store(pairs: &Vec<(String, String)>) -> (r: String)
    requires
        keys_unique(pairs@),
    ensures
        r@ == json_object_of(map_of_pairs(pairs@)),
{
    let mut object = std::collections::BTreeMap::<&str, &str>::new();
    for (key, value) in pairs.iter() {
        object.insert(key.as_str(), value.as_str());
    }
    serde_json::to_string(&object).expect("a map of strings serializes")
}

/// The position of the pair holding this key, if any pair does.
fn find_key(pairs: &Vec<(String, String)>, key: &String) -> (r: Option<usize>)
    ensures
        match r {
            Some(i) => i < pairs@.len() && pairs@[i as int].0@ == key@,
            None => forall|j: int| 0 <= j < pairs@.len() ==> pairs@[j].0@ != key@,
        },
{
    let mut i: usize = 0;
    while i < pairs.len()
        invariant
            i <= pairs@.len(),
            forall|j: int| 0 <= j < i ==> pairs@[j].0@ != key@,
        decreases pairs@.len() - i,
    {
        if pairs[i].0 == *key {
            return Some(i);
        }
        i = i + 1;
    }
    None
}

impl App {
    /// The keys of the committed pairs are pairwise distinct, so the store
    /// denotes a map.
    pub open spec fn wf(&self) -> bool {
        keys_unique(self.pairs@)
    }

    /// A fresh editor: browsing, nothing typed, nothing committed.
    pub fn new() -> (app: App)
        ensures
            app@ == init_state(),
            app.wf(),
    {
        let app = App {
            key_input: String::new(),
            value_input: String::new(),
            pairs: Vec::new(),
            current_screen: CurrentScreen::Main,
        };
        proof {
            assert(app@ =~= init_state());
        }
        app
    }

    /// An unconditional screen change; buffers and store are untouched.
    pub fn set_screen(&mut self, screen: CurrentScreen)
        ensures
            final(self)@ == (AppState { screen, ..old(self)@ }),
            final(self).pairs == old(self).pairs,
    {
        self.current_screen = screen;
    }

    /// Swaps which field is edited; on any screen that is not editing this
    /// is a no-op, and it never touches the buffers or the store.
    pub fn toggle_editing(&mut self)
        ensures
            final(self)@ == (AppState {
                screen: toggle_step(old(self)@.screen),
                ..old(self)@
            }),
            final(self).pairs == old(self).pairs,
    {
        self.current_screen = match self.current_screen {
            CurrentScreen::Editing(CurrentlyEditing::Key) => CurrentScreen::Editing(
                CurrentlyEditing::Value,
            ),
            CurrentScreen::Editing(CurrentlyEditing::Value) => CurrentScreen::Editing(
                CurrentlyEditing::Key,
            ),
            s => s,
        };
    }

    /// Appends the character to whichever buffer the current editing screen
    /// marks as active; outside the editing screens this is a no-op.
    pub fn append_to_active_buffer(&mut self, ch: char)
        ensures
            final(self)@ == append_step(old(self)@, ch),
            final(self).pairs == old(self).pairs,
    {
        match self.current_screen {
            CurrentScreen::Editing(CurrentlyEditing::Key) => push_char(&mut self.key_input, ch),
            CurrentScreen::Editing(CurrentlyEditing::Value) => push_char(
                &mut self.value_input,
                ch,
            ),
            _ => {},
        }
    }

    /// Commits the drafted pair into the store — a later commit of the same
    /// key overwrites the earlier value — and clears both draft buffers.
    /// Always succeeds; an empty key or value is legal. The screen is
    /// untouched.
    pub fn save_key_value(&mut self)
        requires
            old(self).wf(),
        ensures
            final(self)@ == commit_step(old(self)@),
            final(self).wf(),
    {
        let ghost prior = self.pairs@;
        match find_key(&self.pairs, &self.key_input) {
            Some(i) => {
                let pair = (self.key_input.clone(), self.value_input.clone());
                proof {
                    lemma_map_of_pairs_update(prior, i as int, pair);
                    lemma_update_keeps_keys_unique(prior, i as int, pair);
                }
                self.pairs.set(i, pair);
            },
            None => {
                let pair = (self.key_input.clone(), self.value_input.clone());
                proof {
                    lemma_map_of_pairs_push(prior, pair);
                    lemma_push_keeps_keys_unique(prior, pair);
                }
                self.pairs.push(pair);
            },
        }
        self.key_input = String::new();
        self.value_input = String::new();
    }

    /// Removes the last character of whichever buffer the current editing
    /// screen marks as active; an empty buffer, or a screen that is not
    /// editing, leaves the state as it was.
    pub fn remove_last_from_active_buffer(&mut self)
        ensures
            final(self)@ == remove_step(old(self)@),
            final(self).pairs == old(self).pairs,
    {
        match self.current_screen {
            CurrentScreen::Editing(CurrentlyEditing::Key) => {
                let _ = pop_char(&mut self.key_input);
            },
            CurrentScreen::Editing(CurrentlyEditing::Value) => {
                let _ = pop_char(&mut self.value_input);
            },
            _ => {},
        }
    }

    /// Decides at run time whether the committed keys are pairwise
    /// distinct, so that unverified callers can test `wf` before calling
    /// the operations that ask for it.
    pub fn keys_are_unique(&self) -> (r: bool)
        ensures
            r == self.wf(),
    {
        let n = self.pairs.len();
        let mut i: usize = 0;
        while i < n
            invariant
                n == self.pairs@.len(),
                i <= n,
                forall|a: int, b: int|
                    0 <= a < i && a < b < n ==> self.pairs@[a].0@ != self.pairs@[b].0@,
            decreases n - i,
        {
            let mut j: usize = i + 1;
            while j < n
                invariant
                    n == self.pairs@.len(),
                    i < j <= n,
                    forall|b: int| i < b < j ==> self.pairs@[i as int].0@ != self.pairs@[b].0@,
                decreases n - j,
            {
                if self.pairs[i].0 == self.pairs[j].0 {
                    return false;
                }
                j = j + 1;
            }
            i = i + 1;
        }
        true
    }

    /// The committed pairs rendered as the text of one JSON object.
    pub fn to_json(&self) -> (r: String)
        requires
            self.wf(),
        ensures
            r@ == json_object_of(self@.store),
    {
        json_of_store(&self.pairs)
    }
}

/// In an editing screen, removing right after appending restores the state:
/// a removal undoes the most recent append.
pub proof fn lemma_remove_undoes_append(s: AppState, ch: char)
    requires
        s.screen is Editing,
    ensures
        remove_step(append_step(s, ch)) == s,
{
    assert(s.key.push(ch).drop_last() =~= s.key);
    assert(s.value.push(ch).drop_last() =~= s.value);
}

/// Removing from an empty active buffer is a no-op, not an underflow; so is
/// removing on any screen that is not editing.
pub proof fn lemma_remove_on_empty_is_no_op(s: AppState)
    requires
        s.screen == CurrentScreen::Editing(CurrentlyEditing::Key) ==> s.key.len() == 0,
        s.screen == CurrentScreen::Editing(CurrentlyEditing::Value) ==> s.value.len() == 0,
    ensures
        remove_step(s) == s,
{
}

/// Committing a key twice, with a second value drafted in between, is
/// idempotent on the store's shape: the store holds exactly one entry for
/// that key, with the later value.
pub proof fn lemma_commit_last_write_wins(s: AppState, v2: Seq<char>)
    ensures
        (commit_step(AppState { key: s.key, value: v2, ..commit_step(s) })).store == s.store.insert(s.key, v2),
        (commit_step(AppState { key: s.key, value: v2, ..commit_step(s) })).store[s.key] == v2,
        (commit_step(AppState { key: s.key, value: v2, ..commit_step(s) })).store.dom() == s.store.dom().insert(
            s.key,
        ),
{
    let twice = commit_step(AppState { key: s.key, value: v2, ..commit_step(s) });
    assert(twice.store =~= s.store.insert(s.key, v2));
    assert(twice.store.dom() =~= s.store.dom().insert(s.key));
}

/// After a commit both draft buffers are empty, whatever they held before.
pub proof fn lemma_commit_clears_buffers(s: AppState)
    ensures
        commit_step(s).key == Seq::<char>::empty(),
        commit_step(s).value == Seq::<char>::empty(),
{
}

/// Toggling the edited field twice returns to the starting screen, and on a
/// screen that is not editing a single toggle already changes nothing.
pub proof fn lemma_toggle_involutive(sc: CurrentScreen)
    ensures
        toggle_step(toggle_step(sc)) == sc,
        !(sc is Editing) ==> toggle_step(sc) == sc,
{
}

} // verus!
