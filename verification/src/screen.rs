//! What the screen shows, as plain values: the header, the tab strip, the
//! keyboard legend, the entry list and the popup, each a function of the state.

use vstd::prelude::*;
use crate::clock::{current_date, current_time, is_date_text, is_time_text};
use crate::entry::{DirEntry, EntryView, listing_view};
use crate::launch::texts_of;
use crate::state::{App, AppView};
use crate::text::{decimal_of, decimal_text};

verus! {

/// A colour of the screen.
#[derive(Debug, Clone, Copy, PartialEq, Eq, Structural)]
pub enum Color {
    White,
    Yellow,
    Cyan,
}

/// A piece of text and its look: its colour, if it has one of its own, and
/// whether it is bold.
#[derive(Debug)]
pub struct Span {
    pub text: String,
    pub color: Option<Color>,
    pub bold: bool,
}

/// A span as plain values.
pub struct SpanView {
    pub text: Seq<char>,
    pub color: Option<Color>,
    pub bold: bool,
}

impl View for Span {
    type V = SpanView;

    open spec fn view(&self) -> SpanView {
        SpanView { text: self.text@, color: self.color, bold: self.bold }
    }
}

/// One row of the entry list: the glyph of the entry's kind, its name, and the
/// look of the name.
#[derive(Debug)]
pub struct Row {
    pub icon: String,
    pub name: String,
    pub color: Color,
    pub bold: bool,
}

/// A row as plain values.
pub struct RowView {
    pub icon: Seq<char>,
    pub name: Seq<char>,
    pub color: Color,
    pub bold: bool,
}

impl View for Row {
    type V = RowView;

    open spec fn view(&self) -> RowView {
        RowView { icon: self.icon@, name: self.name@, color: self.color, bold: self.bold }
    }
}

/// The entry list with its title.
#[derive(Debug)]
pub struct Content {
    pub title: String,
    pub rows: Vec<Row>,
}

/// The entry list as plain values.
pub struct ContentView {
    pub title: Seq<char>,
    pub rows: Seq<RowView>,
}

impl View for Content {
    type V = ContentView;

    open spec fn view(&self) -> ContentView {
        ContentView { title: self.title@, rows: rows_view(self.rows@) }
    }
}

/// A popup: its title, if it has one, its text, and its colour, if it has one.
#[derive(Debug)]
pub struct Popup {
    pub title: Option<String>,
    pub text: String,
    pub color: Option<Color>,
}

/// A popup as plain values.
pub struct PopupView {
    pub title: Option<Seq<char>>,
    pub text: Seq<char>,
    pub color: Option<Color>,
}

impl View for Popup {
    type V = PopupView;

    open spec fn view(&self) -> PopupView {
        PopupView {
            title: match self.title {
                Some(t) => Some(t@),
                None => None,
            },
            text: self.text@,
            color: self.color,
        }
    }
}

/// Everything that one frame shows.
#[derive(Debug)]
pub struct Screen {
    /// The date, in the first cell of the header.
    pub date: String,
    /// The label, in the middle cell of the header.
    pub label: String,
    /// The time of day, in the last cell of the header.
    pub time: String,
    /// The titles of the tabs.
    pub tab_titles: Vec<String>,
    /// The index of the highlighted tab.
    pub selected_tab: usize,
    /// The keyboard legend.
    pub legend: Vec<Span>,
    /// The entry list, while it is visible.
    pub content: Option<Content>,
    /// The popup, while one is open.
    pub popup: Option<Popup>,
}

/// A frame as plain values.
pub struct ScreenView {
    pub date: Seq<char>,
    pub label: Seq<char>,
    pub time: Seq<char>,
    pub tab_titles: Seq<Seq<char>>,
    pub selected_tab: int,
    pub legend: Seq<SpanView>,
    pub content: Option<ContentView>,
    pub popup: Option<PopupView>,
}

impl View for Screen {
    type V = ScreenView;

    open spec fn view(&self) -> ScreenView {
        ScreenView {
            date: self.date@,
            label: self.label@,
            time: self.time@,
            tab_titles: texts_of(self.tab_titles@),
            selected_tab: self.selected_tab as int,
            legend: spans_view(self.legend@),
            content: match self.content {
                Some(c) => Some(c@),
                None => None,
            },
            popup: match self.popup {
                Some(p) => Some(p@),
                None => None,
            },
        }
    }
}

/// The spans of a list, each by its view.
pub open spec fn spans_view(spans: Seq<Span>) -> Seq<SpanView> {
    spans.map_values(|s: Span| s@)
}

/// The rows of a list, each by its view.
pub open spec fn rows_view(rows: Seq<Row>) -> Seq<RowView> {
    rows.map_values(|r: Row| r@)
}

/// The label in the middle of the header.
pub const LABEL: &'static str = "Rakesh";

/// The glyph of a directory.
pub const DIR_ICON: &'static str = "\u{1F4C1}";

/// The glyph of a file.
pub const FILE_ICON: &'static str = "\u{1F4C4}";

/// The text of the popup that asks for confirmation.
pub const CONFIRM_TEXT: &'static str = "Open in Neovim? (y/n)";

/// The title of the popup that offers the editors.
pub const EDITORS_TITLE: &'static str = "Select Editor";

/// The text of the popup that offers the editors, one editor to a line.
pub const EDITORS_TEXT: &'static str = "VSCode\nNeovim";

/// The title of the tab at `index`: its number, counted from one, an
/// underscore, and the project's name.
pub open spec fn tab_title_of(index: int, name: Seq<char>) -> Seq<char> {
    decimal_of((index + 1) as nat) + seq!['_'] + name
}

/// The titles of all tabs.
pub open spec fn tab_titles_of(tabs: Seq<Seq<char>>) -> Seq<Seq<char>> {
    Seq::new(tabs.len(), |i: int| tab_title_of(i, tabs[i]))
}

/// A span of the legend that names keys.
pub open spec fn key_span_of(text: Seq<char>) -> SpanView {
    SpanView { text, color: Some(Color::Yellow), bold: false }
}

/// A span of the legend that says what the keys do.
pub open spec fn plain_span_of(text: Seq<char>) -> SpanView {
    SpanView { text, color: None, bold: false }
}

/// The keyboard legend.
pub open spec fn legend_of() -> Seq<SpanView> {
    seq![
        key_span_of("1-9"@),
        plain_span_of(": Switch Tabs | "@),
        key_span_of("\u{2191}/\u{2193}"@),
        plain_span_of(": Navigate | "@),
        key_span_of("Enter"@),
        plain_span_of(": Select | "@),
        key_span_of("y/n"@),
        plain_span_of(": Confirm | "@),
        key_span_of("q"@),
        plain_span_of(": Quit"@),
    ]
}

/// The row of an entry: a directory is cyan and a file white, and the entry
/// under the cursor is yellow and bold.
pub open spec fn row_of(entry: EntryView, selected: bool) -> RowView {
    RowView {
        icon: if entry.is_dir {
            DIR_ICON@
        } else {
            FILE_ICON@
        },
        name: entry.name,
        color: if selected {
            Color::Yellow
        } else if entry.is_dir {
            Color::Cyan
        } else {
            Color::White
        },
        bold: selected,
    }
}

/// The rows of the entries, with the cursor on the entry at `selected`.
pub open spec fn rows_of(entries: Seq<EntryView>, selected: Option<int>) -> Seq<RowView> {
    Seq::new(entries.len(), |i: int| row_of(entries[i], selected == Some(i)))
}

/// The title of the entry list of a project.
pub open spec fn content_title_of(project: Seq<char>) -> Seq<char> {
    " Contents of "@ + project + " "@
}

/// The entry list: shown while the content is visible and there is a project.
pub open spec fn content_of(app: AppView) -> Option<ContentView> {
    if app.show_content && app.tabs.len() > 0 {
        Some(
            ContentView {
                title: content_title_of(app.tabs[app.current_tab]),
                rows: rows_of(app.entries, app.selected_item),
            },
        )
    } else {
        None
    }
}

/// The popup: the one that asks for confirmation, in yellow, or the one that
/// offers the editors, or none.
pub open spec fn popup_of(app: AppView) -> Option<PopupView> {
    if app.show_confirmation {
        Some(PopupView { title: None, text: CONFIRM_TEXT@, color: Some(Color::Yellow) })
    } else if app.show_editor_selection {
        Some(PopupView { title: Some(EDITORS_TITLE@), text: EDITORS_TEXT@, color: None })
    } else {
        None
    }
}

/// The frame that shows the state `app` at the given date and time.
pub open spec fn screen_of(app: AppView, date: Seq<char>, time: Seq<char>) -> ScreenView {
    ScreenView {
        date,
        label: LABEL@,
        time,
        tab_titles: tab_titles_of(app.tabs),
        selected_tab: app.current_tab,
        legend: legend_of(),
        content: content_of(app),
        popup: popup_of(app),
    }
}

/// Writes the title of the tab at `index`.
pub fn tab_title(index: usize, name: &str) -> (title: String)
    requires
        index < usize::MAX,
    ensures
        title@ == tab_title_of(index as int, name@),
{
    proof {
        reveal_strlit("_");
    }
    let mut title = decimal_text(index + 1);
    title.append("_");
    assert(title@ =~= decimal_of((index + 1) as nat) + seq!['_']);
    title.append(name);
    title
}

/// Writes the titles of all tabs.
pub fn tab_titles(tabs: &Vec<String>) -> (titles: Vec<String>)
    ensures
        texts_of(titles@) == tab_titles_of(texts_of(tabs@)),
{
    let mut titles: Vec<String> = Vec::new();
    let mut i: usize = 0;
    while i < tabs.len()
        invariant
            i <= tabs.len(),
            titles.len() == i,
            forall|k: int|
                0 <= k < i ==> (#[trigger] titles[k])@ == tab_title_of(k, tabs[k]@),
        decreases tabs.len() - i,
    {
        titles.push(tab_title(i, tabs[i].as_str()));
        i = i + 1;
    }
    assert(texts_of(titles@) =~= tab_titles_of(texts_of(tabs@)));
    titles
}

/// A span of the legend that names keys.
fn key_span(text: &str) -> (span: Span)
    ensures
        span@ == key_span_of(text@),
{
    Span { text: text.to_owned(), color: Some(Color::Yellow), bold: false }
}

/// A span of the legend that says what the keys do.
fn plain_span(text: &str) -> (span: Span)
    ensures
        span@ == plain_span_of(text@),
{
    Span { text: text.to_owned(), color: None, bold: false }
}

/// Builds the keyboard legend.
pub fn legend() -> (spans: Vec<Span>)
    ensures
        spans_view(spans@) == legend_of(),
{
    let mut spans: Vec<Span> = Vec::new();
    spans.push(key_span("1-9"));
    spans.push(plain_span(": Switch Tabs | "));
    spans.push(key_span("\u{2191}/\u{2193}"));
    spans.push(plain_span(": Navigate | "));
    spans.push(key_span("Enter"));
    spans.push(plain_span(": Select | "));
    spans.push(key_span("y/n"));
    spans.push(plain_span(": Confirm | "));
    spans.push(key_span("q"));
    spans.push(plain_span(": Quit"));
    assert(spans_view(spans@) =~= legend_of());
    spans
}

/// Builds the row of an entry.
pub fn row(entry: &DirEntry, selected: bool) -> (r: Row)
    ensures
        r@ == row_of(entry@, selected),
{
    let icon = if entry.is_dir {
        DIR_ICON
    } else {
        FILE_ICON
    };
    let color = if selected {
        Color::Yellow
    } else if entry.is_dir {
        Color::Cyan
    } else {
        Color::White
    };
    Row { icon: icon.to_owned(), name: entry.name.clone(), color, bold: selected }
}

/// Builds the rows of the entries, with the cursor on the entry at `selected`.
pub fn rows(entries: &Vec<DirEntry>, selected: Option<usize>) -> (list: Vec<Row>)
    ensures
        rows_view(list@) == rows_of(
            listing_view(entries@),
            match selected {
                Some(k) => Some(k as int),
                None => None,
            },
        ),
{
    let ghost cursor: Option<int> = match selected {
        Some(k) => Some(k as int),
        None => None,
    };
    let mut list: Vec<Row> = Vec::new();
    let mut i: usize = 0;
    while i < entries.len()
        invariant
            i <= entries.len(),
            list.len() == i,
            cursor == match selected {
                Some(k) => Some(k as int),
                None => None,
            },
            forall|k: int|
                0 <= k < i ==> (#[trigger] list[k])@ == row_of(entries[k]@, cursor == Some(k)),
        decreases entries.len() - i,
    {
        let on_cursor = match selected {
            Some(k) => k == i,
            None => false,
        };
        list.push(row(&entries[i], on_cursor));
        i = i + 1;
    }
    assert(rows_view(list@) =~= rows_of(listing_view(entries@), cursor));
    list
}

/// Writes the title of the entry list of a project.
pub fn content_title(project: &str) -> (title: String)
    ensures
        title@ == content_title_of(project@),
{
    let mut title = " Contents of ".to_owned();
    title.append(project);
    title.append(" ");
    title
}

/// Builds the entry list of the state, if it is to be shown.
pub fn content(app: &App) -> (pane: Option<Content>)
    ensures
        match pane {
            Some(c) => content_of(app@) == Some(c@),
            None => content_of(app@) is None,
        },
{
    let tabs = app.tabs();
    if app.show_content() && tabs.len() > 0 {
        let title = content_title(tabs[app.current_tab()].as_str());
        let list = rows(app.entries(), app.selected_item());
        Some(Content { title, rows: list })
    } else {
        None
    }
}

/// Builds the popup of the state, if one is open.
pub fn popup(app: &App) -> (shown: Option<Popup>)
    ensures
        match shown {
            Some(p) => popup_of(app@) == Some(p@),
            None => popup_of(app@) is None,
        },
{
    if app.show_confirmation() {
        Some(Popup { title: None, text: CONFIRM_TEXT.to_owned(), color: Some(Color::Yellow) })
    } else if app.show_editor_selection() {
        Some(
            Popup {
                title: Some(EDITORS_TITLE.to_owned()),
                text: EDITORS_TEXT.to_owned(),
                color: None,
            },
        )
    } else {
        None
    }
}

/// Builds the frame that shows the state at the given date and time. The
/// state is left as it is.
pub fn render(app: &App, date: String, time: String) -> (screen: Screen)
    ensures
        screen@ == screen_of(app@, date@, time@),
{
    Screen {
        date,
        label: LABEL.to_owned(),
        time,
        tab_titles: tab_titles(app.tabs()),
        selected_tab: app.current_tab(),
        legend: legend(),
        content: content(app),
        popup: popup(app),
    }
}

/// Builds the frame that shows the state now: with the date and the time of
/// day that the clock gives at this moment, written as the header shows
/// them.
pub fn render_now(app: &App) -> (screen: Screen)
    ensures
        screen@ == screen_of(app@, screen@.date, screen@.time),
        is_date_text(screen@.date),
        is_time_text(screen@.time),
{
    let date = current_date();
    let time = current_time();
    render(app, date, time)
}

} // verus!
