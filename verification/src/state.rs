//! The state of the browser and its transitions: which project is shown,
//! which entry the cursor is on, which popup is open, and what each key does.

use vstd::prelude::*;
use crate::entry::{
    DirEntry, EntryView, is_sorted_listing, lemma_listing_of, lemma_listing_unique, listing_of,
    listing_view, same_entries, sort_entries,
};
use crate::launch::{CommandView, LaunchCommand, editor_command, editor_command_for, texts_of};
use crate::path::{
    BASE_DIR, child_of, child_path, entry_path, entry_path_of, expand_home, is_expansion_of,
};

verus! {

/// How long the event loop waits for a key before it draws the next frame, in
/// milliseconds.
pub const POLL_INTERVAL_MS: u64 = 100;

/// A key press, as far as the browser tells keys apart.
#[derive(Debug, Clone, Copy)]
pub enum Key {
    Char(char),
    Up,
    Down,
    Enter,
    Esc,
    Other,
}

/// What the caller has to do after a key was handled.
#[derive(Debug)]
pub enum Action {
    /// Nothing.
    Idle,
    /// Leave the event loop.
    Quit,
    /// Read the directory `dir` and hand its entries to [`App::switch_tab`]
    /// together with `index`.
    ReadProject { index: usize, dir: String },
    /// Start `command` and do not wait for it.
    Launch { command: LaunchCommand },
}

/// An action as plain values.
pub enum ActionView {
    Idle,
    Quit,
    ReadProject { index: int, dir: Seq<char> },
    Launch { command: CommandView },
}

impl View for Action {
    type V = ActionView;

    open spec fn view(&self) -> ActionView {
        match *self {
            Action::Idle => ActionView::Idle,
            Action::Quit => ActionView::Quit,
            Action::ReadProject { index, dir } => ActionView::ReadProject {
                index: index as int,
                dir: dir@,
            },
            Action::Launch { command } => ActionView::Launch { command: command@ },
        }
    }
}

/// The project that a character selects: the digits `1` to `9` select the
/// first to the ninth, no other character selects any.
pub open spec fn tab_index_of(c: char) -> Option<int> {
    if '1' <= c <= '9' {
        Some(c as int - '1' as int)
    } else {
        None
    }
}

/// The names of the projects among the entries of the base directory: the
/// names of its directories, in the order in which the entries were read.
pub open spec fn project_names(entries: Seq<EntryView>) -> Seq<Seq<char>>
    decreases entries.len(),
{
    if entries.len() == 0 {
        seq![]
    } else if entries.last().is_dir {
        project_names(entries.drop_last()).push(entries.last().name)
    } else {
        project_names(entries.drop_last())
    }
}

/// The state of the browser as plain values.
pub struct AppView {
    /// The names of the projects, one tab each.
    pub tabs: Seq<Seq<char>>,
    /// The index of the project that is shown.
    pub current_tab: int,
    /// Whether the entry list is visible.
    pub show_content: bool,
    /// Whether the popup that offers the editors is open.
    pub show_editor_selection: bool,
    /// The index of the chosen editor.
    pub selected_editor: int,
    /// The entries of the project that is shown.
    pub entries: Seq<EntryView>,
    /// The index of the entry under the cursor, if any.
    pub selected_item: Option<int>,
    /// Whether the popup that asks for confirmation is open.
    pub show_confirmation: bool,
}

impl AppView {
    /// What holds of every state: the shown project is one of the projects,
    /// the cursor is on an entry, the entries are in listing order, there are
    /// none without a project, and at most one popup is open.
    pub open spec fn wf(self) -> bool {
        &&& 0 <= self.current_tab
        &&& self.tabs.len() > 0 ==> self.current_tab < self.tabs.len()
        &&& self.tabs.len() == 0 ==> self.current_tab == 0 && self.entries.len() == 0
        &&& self.selected_item matches Some(k) ==> 0 <= k < self.entries.len()
        &&& is_sorted_listing(self.entries)
        &&& 0 <= self.selected_editor < 2
        &&& !(self.show_confirmation && self.show_editor_selection)
    }

    /// The state at startup: the first project shown, its entries not yet
    /// read, no entry under the cursor, no popup open.
    pub open spec fn initial(tabs: Seq<Seq<char>>) -> AppView {
        AppView {
            tabs,
            current_tab: 0,
            show_content: true,
            show_editor_selection: false,
            selected_editor: 0,
            entries: seq![],
            selected_item: None,
            show_confirmation: false,
        }
    }

    /// The cursor over a list of `len` entries: it stays where it still names
    /// an entry, and is off where it names none.
    pub open spec fn cursor_within(selected: Option<int>, len: nat) -> Option<int> {
        match selected {
            Some(k) => if k < len {
                Some(k)
            } else {
                None
            },
            None => None,
        }
    }

    /// The state after the entries of the shown project were read anew: their
    /// listing replaces the entry list, and nothing else changes, but that a
    /// cursor which names no entry of the new list is taken off. Without a
    /// project there is nothing to list.
    pub open spec fn listed(self, given: Seq<EntryView>) -> AppView {
        if self.tabs.len() == 0 {
            self
        } else {
            AppView {
                entries: listing_of(given),
                selected_item: Self::cursor_within(self.selected_item, listing_of(given).len()),
                ..self
            }
        }
    }

    /// The state after the project at `index` was selected and its entries
    /// `given` were read: that project is shown, the listing of its entries
    /// replaces the entry list, and the cursor is off. An index that names no
    /// project changes nothing.
    pub open spec fn switched(self, index: int, given: Seq<EntryView>) -> AppView {
        if 0 <= index < self.tabs.len() {
            AppView {
                current_tab: index,
                entries: listing_of(given),
                selected_item: None,
                ..self
            }
        } else {
            self
        }
    }

    /// The cursor one entry up: from the first entry, or from nowhere, it goes
    /// to the first entry. It moves only while the entry list is visible and
    /// holds an entry.
    pub open spec fn moved_up(self) -> AppView {
        if !self.show_content || self.entries.len() == 0 {
            self
        } else {
            let target = match self.selected_item {
                Some(k) => if k > 0 {
                    k - 1
                } else {
                    0
                },
                None => 0,
            };
            AppView { selected_item: Some(target), ..self }
        }
    }

    /// The cursor one entry down: from the last entry it stays, from nowhere it
    /// goes to the first entry. It moves only while the entry list is visible
    /// and holds an entry.
    pub open spec fn moved_down(self) -> AppView {
        if !self.show_content || self.entries.len() == 0 {
            self
        } else {
            let target = match self.selected_item {
                Some(k) => if k + 1 < self.entries.len() {
                    k + 1
                } else {
                    k
                },
                None => 0,
            };
            AppView { selected_item: Some(target), ..self }
        }
    }

    /// The state after the confirm key: with an entry under the cursor of a
    /// visible list, the popup that asks for confirmation opens.
    pub open spec fn confirmation_opened(self) -> AppView {
        if self.show_content && self.selected_item is Some {
            AppView { show_confirmation: true, show_editor_selection: false, ..self }
        } else {
            self
        }
    }

    /// The state with the popup that asks for confirmation closed.
    pub open spec fn confirmation_closed(self) -> AppView {
        AppView { show_confirmation: false, ..self }
    }

    /// The state with whichever popup was open closed.
    pub open spec fn popups_closed(self) -> AppView {
        AppView { show_confirmation: false, show_editor_selection: false, ..self }
    }

    /// The state after a key. A digit changes nothing by itself: the project
    /// is switched once its directory was read.
    pub open spec fn after_key(self, key: Key) -> AppView {
        match key {
            Key::Up => self.moved_up(),
            Key::Down => self.moved_down(),
            Key::Enter => self.confirmation_opened(),
            Key::Esc => self.popups_closed(),
            Key::Char(c) => if (c == 'y' || c == 'n') && self.show_confirmation {
                self.confirmation_closed()
            } else {
                self
            },
            Key::Other => self,
        }
    }

    /// The directory of the project at `index` below `base`.
    pub open spec fn project_dir(self, base: Seq<char>, index: int) -> Seq<char> {
        child_of(base, self.tabs[index])
    }

    /// The path of the entry at `k` of the shown project below `base`.
    pub open spec fn entry_path(self, base: Seq<char>, k: int) -> Seq<char> {
        entry_path_of(base, self.tabs[self.current_tab], self.entries[k].name)
    }

    /// What a key asks of the caller, with `base` as the base directory:
    /// `q` quits; a digit that names a project asks for its directory to be
    /// read; `y`, while confirmation is asked and an entry is under the cursor,
    /// launches the editor on that entry; anything else asks nothing.
    pub open spec fn action_on(self, key: Key, base: Seq<char>) -> ActionView {
        match key {
            Key::Char(c) => if c == 'q' {
                ActionView::Quit
            } else if tab_index_of(c) is Some {
                let index = tab_index_of(c)->0;
                if index < self.tabs.len() {
                    ActionView::ReadProject { index, dir: self.project_dir(base, index) }
                } else {
                    ActionView::Idle
                }
            } else if c == 'y' && self.show_confirmation {
                match self.selected_item {
                    Some(k) => ActionView::Launch {
                        command: editor_command_for(self.entry_path(base, k)),
                    },
                    None => ActionView::Idle,
                }
            } else {
                ActionView::Idle
            },
            _ => ActionView::Idle,
        }
    }
}

/// Every transition keeps a state valid: whatever key is handled, the cursor
/// stays on an entry and at most one popup is open.
pub proof fn lemma_keys_keep_valid(s: AppView, key: Key)
    requires
        s.wf(),
    ensures
        s.after_key(key).wf(),
{
}

/// Selecting a project that exists shows that project, replaces the entry list
/// by the listing of exactly the entries that were read, in whatever order
/// they were read, and takes the cursor off.
pub proof fn lemma_switch_replaces_entries(s: AppView, index: int, given: Seq<EntryView>)
    requires
        s.wf(),
        0 <= index < s.tabs.len(),
    ensures
        s.switched(index, given).current_tab == index,
        s.switched(index, given).selected_item is None,
        is_sorted_listing(s.switched(index, given).entries),
        same_entries(s.switched(index, given).entries, given),
        s.switched(index, given).wf(),
        forall|other: Seq<EntryView>| #[trigger]
            same_entries(other, given) ==> s.switched(index, other) == s.switched(index, given),
{
    lemma_listing_of(given);
    assert forall|other: Seq<EntryView>| #[trigger] same_entries(other, given) implies s.switched(
        index,
        other,
    ) == s.switched(index, given) by {
        lemma_listing_of(other);
        lemma_listing_unique(listing_of(other), listing_of(given));
    }
}

/// Reading the entries of the shown project anew keeps the state valid and
/// changes nothing but the entry list, and the cursor only where it would
/// name no entry of the new list: a cursor that still names one stays.
pub proof fn lemma_listed_valid(s: AppView, given: Seq<EntryView>)
    requires
        s.wf(),
    ensures
        s.listed(given).wf(),
        s.listed(given) == (AppView {
            entries: s.listed(given).entries,
            selected_item: s.listed(given).selected_item,
            ..s
        }),
        s.tabs.len() > 0 ==> is_sorted_listing(s.listed(given).entries) && same_entries(
            s.listed(given).entries,
            given,
        ),
        s.tabs.len() > 0 ==> s.listed(given).entries.len() == given.len(),
        s.selected_item is Some && s.selected_item->0 < given.len() ==> s.listed(
            given,
        ).selected_item == s.selected_item,
{
    lemma_listing_of(given);
    listing_of(given).to_multiset_ensures();
    given.to_multiset_ensures();
}

/// The cursor never leaves the entry list: moving down from the last entry
/// leaves it on the last entry, moving up from the first entry leaves it on
/// the first, and in an empty list it stays off.
pub proof fn lemma_cursor_clamps(s: AppView)
    requires
        s.wf(),
    ensures
        s.moved_down().wf(),
        s.moved_up().wf(),
        s.selected_item == Some(s.entries.len() - 1) ==> s.moved_down().selected_item == Some(
            s.entries.len() - 1,
        ),
        s.selected_item == Some(0int) ==> s.moved_up().selected_item == Some(0int),
        s.entries.len() == 0 ==> s.moved_down() == s && s.moved_up() == s
            && s.selected_item is None,
{
}

/// Confirming with `y`, while confirmation is asked and the cursor is on the
/// entry at `k`, launches the editor command, and the last argument of that
/// command is the base directory, the name of the shown project and the name
/// of the entry, joined by slashes.
pub proof fn lemma_confirm_launches(s: AppView, base: Seq<char>, k: int)
    requires
        s.wf(),
        s.show_confirmation,
        s.selected_item == Some(k),
    ensures
        s.action_on(Key::Char('y'), base) matches ActionView::Launch { command }
            && command.args.len() == 3 && command.args.last() == base + seq!['/']
            + s.tabs[s.current_tab] + seq!['/'] + s.entries[k].name,
        !s.after_key(Key::Char('y')).show_confirmation,
{
    assert(tab_index_of('y') is None);
}

/// The quit key quits in every state, with or without a popup, and a key that
/// quits changes nothing.
pub proof fn lemma_quit_always(s: AppView, base: Seq<char>)
    ensures
        s.action_on(Key::Char('q'), base) == ActionView::Quit,
        s.after_key(Key::Char('q')) == s,
{
}

/// The browser's state.
pub struct App {
    tabs: Vec<String>,
    current_tab: usize,
    show_content: bool,
    show_editor_selection: bool,
    selected_editor: usize,
    current_dir_contents: Vec<DirEntry>,
    selected_item: Option<usize>,
    show_confirmation: bool,
}

impl View for App {
    type V = AppView;

    closed spec fn view(&self) -> AppView {
        AppView {
            tabs: texts_of(self.tabs@),
            current_tab: self.current_tab as int,
            show_content: self.show_content,
            show_editor_selection: self.show_editor_selection,
            selected_editor: self.selected_editor as int,
            entries: listing_view(self.current_dir_contents@),
            selected_item: match self.selected_item {
                Some(k) => Some(k as int),
                None => None,
            },
            show_confirmation: self.show_confirmation,
        }
    }
}

/// The project that a character selects, if it selects one.
pub fn tab_index(c: char) -> (index: Option<usize>)
    ensures
        match index {
            Some(i) => tab_index_of(c) == Some(i as int),
            None => tab_index_of(c) is None,
        },
{
    if c >= '1' && c <= '9' {
        Some((c as u32 - '1' as u32) as usize)
    } else {
        None
    }
}

impl App {
    #[verifier::type_invariant]
    spec fn inv(&self) -> bool {
        self@.wf()
    }

    /// The state at startup, from the entries of the base directory in the
    /// order in which they were read: each directory among them is a project.
    pub fn new(base_entries: Vec<DirEntry>) -> (app: App)
        ensures
            app@ == AppView::initial(project_names(listing_view(base_entries@))),
            app@.wf(),
    {
        let mut tabs: Vec<String> = Vec::new();
        let mut i: usize = 0;
        while i < base_entries.len()
            invariant
                i <= base_entries.len(),
                texts_of(tabs@) == project_names(listing_view(base_entries@).take(i as int)),
            decreases base_entries.len() - i,
        {
            let ghost seen = listing_view(base_entries@).take(i as int);
            let ghost next = listing_view(base_entries@).take(i + 1);
            assert(next.drop_last() =~= seen);
            assert(next.last() == base_entries@[i as int]@);
            if base_entries[i].is_dir {
                let ghost names = texts_of(tabs@);
                tabs.push(base_entries[i].name.clone());
                assert(texts_of(tabs@) =~= names.push(base_entries@[i as int].name@));
            }
            i = i + 1;
        }
        assert(listing_view(base_entries@).take(i as int) =~= listing_view(base_entries@));
        let app = App {
            tabs,
            current_tab: 0,
            show_content: true,
            show_editor_selection: false,
            selected_editor: 0,
            current_dir_contents: Vec::new(),
            selected_item: None,
            show_confirmation: false,
        };
        assert(app@.entries =~= seq![]);
        app
    }

    /// The names of the projects.
    pub fn tabs(&self) -> (tabs: &Vec<String>)
        ensures
            texts_of(tabs@) == self@.tabs,
            self@.wf(),
    {
        proof {
            use_type_invariant(self);
        }
        &self.tabs
    }

    /// The index of the project that is shown.
    pub fn current_tab(&self) -> (index: usize)
        ensures
            index == self@.current_tab,
            self@.wf(),
    {
        proof {
            use_type_invariant(self);
        }
        self.current_tab
    }

    /// The entries of the project that is shown, in listing order.
    pub fn entries(&self) -> (entries: &Vec<DirEntry>)
        ensures
            listing_view(entries@) == self@.entries,
            self@.wf(),
    {
        proof {
            use_type_invariant(self);
        }
        &self.current_dir_contents
    }

    /// The index of the entry under the cursor, if any.
    pub fn selected_item(&self) -> (selected: Option<usize>)
        ensures
            match selected {
                Some(k) => self@.selected_item == Some(k as int),
                None => self@.selected_item is None,
            },
            self@.wf(),
    {
        proof {
            use_type_invariant(self);
        }
        self.selected_item
    }

    /// Whether the entry list is visible.
    pub fn show_content(&self) -> (shown: bool)
        ensures
            shown == self@.show_content,
    {
        self.show_content
    }

    /// Whether the popup that asks for confirmation is open.
    pub fn show_confirmation(&self) -> (shown: bool)
        ensures
            shown == self@.show_confirmation,
    {
        self.show_confirmation
    }

    /// Whether the popup that offers the editors is open.
    pub fn show_editor_selection(&self) -> (shown: bool)
        ensures
            shown == self@.show_editor_selection,
    {
        self.show_editor_selection
    }

    /// The index of the chosen editor.
    pub fn selected_editor(&self) -> (index: usize)
        ensures
            index == self@.selected_editor,
    {
        self.selected_editor
    }

    /// The directory of the shown project below `base`, if there is a project.
    pub fn current_dir(&self, base: &str) -> (dir: Option<String>)
        ensures
            match dir {
                Some(d) => self@.tabs.len() > 0 && d@ == self@.project_dir(
                    base@,
                    self@.current_tab,
                ),
                None => self@.tabs.len() == 0,
            },
    {
        proof {
            use_type_invariant(self);
        }
        if self.tabs.len() == 0 {
            None
        } else {
            Some(child_path(base, self.tabs[self.current_tab].as_str()))
        }
    }

    /// Replaces the entry list by the listing of `entries`, the entries of the
    /// shown project as they were read. The cursor stays where it is, unless
    /// it would name no entry of the new list: then it is taken off. Without
    /// a project nothing changes.
    pub fn update_current_dir_contents(&mut self, entries: Vec<DirEntry>)
        ensures
            final(self)@ == old(self)@.listed(listing_view(entries@)),
            final(self)@.wf(),
    {
        proof {
            use_type_invariant(&*self);
        }
        if self.tabs.len() == 0 {
            return ;
        }
        let listing = sort_entries(entries);
        match self.selected_item {
            Some(k) => {
                if k >= listing.len() {
                    self.selected_item = None;
                }
            },
            None => {},
        }
        self.current_dir_contents = listing;
    }

    /// Selects the project at `tab_index`, whose entries were read as
    /// `entries`: their listing replaces the entry list and the cursor is off.
    /// An index that names no project changes nothing.
    pub fn switch_tab(&mut self, tab_index: usize, entries: Vec<DirEntry>)
        ensures
            final(self)@ == old(self)@.switched(tab_index as int, listing_view(entries@)),
            final(self)@.wf(),
    {
        proof {
            use_type_invariant(&*self);
        }
        if tab_index < self.tabs.len() {
            self.current_tab = tab_index;
            self.selected_item = None;
            self.update_current_dir_contents(entries);
        }
    }

    /// Moves the cursor one entry up.
    pub fn move_up(&mut self)
        ensures
            final(self)@ == old(self)@.moved_up(),
            final(self)@.wf(),
    {
        proof {
            use_type_invariant(&*self);
        }
        if self.show_content && self.current_dir_contents.len() > 0 {
            self.selected_item = match self.selected_item {
                Some(k) => if k > 0 {
                    Some(k - 1)
                } else {
                    Some(0)
                },
                None => Some(0),
            };
        }
    }

    /// Moves the cursor one entry down.
    pub fn move_down(&mut self)
        ensures
            final(self)@ == old(self)@.moved_down(),
            final(self)@.wf(),
    {
        proof {
            use_type_invariant(&*self);
        }
        let len = self.current_dir_contents.len();
        if self.show_content && len > 0 {
            self.selected_item = match self.selected_item {
                Some(k) => if k + 1 < len {
                    Some(k + 1)
                } else {
                    Some(k)
                },
                None => Some(0),
            };
        }
    }

    /// Handles the confirm key.
    pub fn open_confirmation(&mut self)
        ensures
            final(self)@ == old(self)@.confirmation_opened(),
            final(self)@.wf(),
    {
        proof {
            use_type_invariant(&*self);
        }
        if self.show_content && self.selected_item.is_some() {
            self.show_editor_selection = false;
            self.show_confirmation = true;
        }
    }

    /// Closes whichever popup is open.
    pub fn close_popups(&mut self)
        ensures
            final(self)@ == old(self)@.popups_closed(),
            final(self)@.wf(),
    {
        proof {
            use_type_invariant(&*self);
        }
        self.show_confirmation = false;
        self.show_editor_selection = false;
    }

    /// The command that opens the entry under the cursor, with `base` as the
    /// base directory, if an entry is under the cursor.
    pub fn launch_command(&self, base: &str) -> (command: Option<LaunchCommand>)
        ensures
            match command {
                Some(c) => self@.selected_item is Some && c@ == editor_command_for(
                    self@.entry_path(base@, self@.selected_item->0),
                ),
                None => self@.selected_item is None,
            },
    {
        proof {
            use_type_invariant(self);
        }
        match self.selected_item {
            Some(k) => {
                let path = entry_path(
                    base,
                    self.tabs[self.current_tab].as_str(),
                    self.current_dir_contents[k].name.as_str(),
                );
                Some(editor_command(path))
            },
            None => None,
        }
    }

    /// Handles a key, with `base` as the base directory: changes the state
    /// and tells the caller what is left to do.
    pub fn handle_key(&mut self, key: Key, base: &str) -> (action: Action)
        ensures
            final(self)@ == old(self)@.after_key(key),
            action@ == old(self)@.action_on(key, base@),
            final(self)@.wf(),
    {
        proof {
            use_type_invariant(&*self);
        }
        match key {
            Key::Char(c) => {
                if c == 'q' {
                    return Action::Quit;
                }
                match tab_index(c) {
                    Some(index) => {
                        if index < self.tabs.len() {
                            let dir = child_path(base, self.tabs[index].as_str());
                            Action::ReadProject { index, dir }
                        } else {
                            Action::Idle
                        }
                    },
                    None => {
                        if c == 'y' && self.show_confirmation {
                            let command = self.launch_command(base);
                            self.show_confirmation = false;
                            match command {
                                Some(command) => Action::Launch { command },
                                None => Action::Idle,
                            }
                        } else if c == 'n' && self.show_confirmation {
                            self.show_confirmation = false;
                            Action::Idle
                        } else {
                            Action::Idle
                        }
                    },
                }
            },
            Key::Up => {
                self.move_up();
                Action::Idle
            },
            Key::Down => {
                self.move_down();
                Action::Idle
            },
            Key::Enter => {
                self.open_confirmation();
                Action::Idle
            },
            Key::Esc => {
                self.close_popups();
                Action::Idle
            },
            Key::Other => Action::Idle,
        }
    }

    /// Handles a key with the base directory as it resolves at this moment.
    pub fn on_key(&mut self, key: Key) -> (action: Action)
        ensures
            final(self)@ == old(self)@.after_key(key),
            exists|base: Seq<char>| #[trigger]
                is_expansion_of(base, BASE_DIR@) && action@ == old(self)@.action_on(key, base),
            final(self)@.wf(),
    {
        let base = expand_home(BASE_DIR);
        self.handle_key(key, base.as_str())
    }
}

} // verus!
