use project_tabs::clock::{current_date, current_time};
use project_tabs::entry::DirEntry;
use project_tabs::screen::{
    content, content_title, legend, popup, render, render_now, row, rows, tab_title, tab_titles,
    Color,
};
use project_tabs::state::App;
use project_tabs::text::decimal_text;

fn entry(name: &str, is_dir: bool) -> DirEntry {
    DirEntry::new(name.to_string(), is_dir)
}

fn browsing() -> App {
    let mut app = App::new(vec![entry("alpha", true), entry("beta", true)]);
    app.update_current_dir_contents(vec![entry("main.rs", false), entry("src", true)]);
    app
}

#[test]
fn numbers_are_written_in_decimal() {
    assert_eq!(decimal_text(0), "0");
    assert_eq!(decimal_text(7), "7");
    assert_eq!(decimal_text(9), "9");
    assert_eq!(decimal_text(10), "10");
    assert_eq!(decimal_text(99), "99");
    assert_eq!(decimal_text(100), "100");
    assert_eq!(decimal_text(1234567890), "1234567890");
    assert_eq!(decimal_text(usize::MAX), usize::MAX.to_string());
}

#[test]
fn tab_titles_count_from_one() {
    assert_eq!(tab_title(0, "alpha"), "1_alpha");
    assert_eq!(tab_title(9, "k"), "10_k");
    let titles = tab_titles(&vec!["alpha".to_string(), "beta".to_string(), "".to_string()]);
    assert_eq!(titles, vec!["1_alpha", "2_beta", "3_"]);
    assert!(tab_titles(&Vec::new()).is_empty());
}

#[test]
fn the_legend_names_the_keys() {
    let spans = legend();
    let texts: Vec<&str> = spans.iter().map(|s| s.text.as_str()).collect();
    assert_eq!(
        texts,
        vec![
            "1-9",
            ": Switch Tabs | ",
            "\u{2191}/\u{2193}",
            ": Navigate | ",
            "Enter",
            ": Select | ",
            "y/n",
            ": Confirm | ",
            "q",
            ": Quit",
        ]
    );
    for (i, span) in spans.iter().enumerate() {
        let expected = if i % 2 == 0 { Some(Color::Yellow) } else { None };
        assert_eq!(span.color, expected);
        assert!(!span.bold);
    }
}

#[test]
fn rows_show_kind_and_cursor() {
    let dir = row(&entry("src", true), false);
    assert_eq!(dir.icon, "\u{1F4C1}");
    assert_eq!(dir.name, "src");
    assert_eq!(dir.color, Color::Cyan);
    assert!(!dir.bold);
    let file = row(&entry("main.rs", false), false);
    assert_eq!(file.icon, "\u{1F4C4}");
    assert_eq!(file.color, Color::White);
    assert!(!file.bold);
    let chosen = row(&entry("src", true), true);
    assert_eq!(chosen.icon, "\u{1F4C1}");
    assert_eq!(chosen.color, Color::Yellow);
    assert!(chosen.bold);
}

#[test]
fn only_the_row_under_the_cursor_is_highlighted() {
    let entries = vec![entry("a", true), entry("b", false), entry("c", false)];
    let list = rows(&entries, Some(1));
    assert_eq!(list.len(), 3);
    assert_eq!(list[0].color, Color::Cyan);
    assert_eq!(list[1].color, Color::Yellow);
    assert!(list[1].bold);
    assert_eq!(list[2].color, Color::White);
    assert!(!list[0].bold && !list[2].bold);
    let plain = rows(&entries, None);
    assert!(plain.iter().all(|r| !r.bold));
    let beyond = rows(&entries, Some(7));
    assert!(beyond.iter().all(|r| !r.bold));
}

#[test]
fn the_content_title_names_the_project() {
    assert_eq!(content_title("alpha"), " Contents of alpha ");
}

#[test]
fn the_content_lists_the_entries_of_the_shown_project() {
    let mut app = browsing();
    app.move_down();
    let pane = content(&app).unwrap();
    assert_eq!(pane.title, " Contents of alpha ");
    let shown: Vec<(&str, &str, bool)> =
        pane.rows.iter().map(|r| (r.icon.as_str(), r.name.as_str(), r.bold)).collect();
    assert_eq!(shown, vec![("\u{1F4C1}", "src", true), ("\u{1F4C4}", "main.rs", false)]);
}

#[test]
fn without_a_project_there_is_no_content() {
    let app = App::new(Vec::new());
    assert!(content(&app).is_none());
    let screen = render(&app, "d".to_string(), "t".to_string());
    assert!(screen.tab_titles.is_empty());
    assert!(screen.content.is_none());
    assert_eq!(screen.selected_tab, 0);
}

#[test]
fn the_confirmation_popup_asks_in_yellow() {
    let mut app = browsing();
    assert!(popup(&app).is_none());
    app.move_down();
    app.open_confirmation();
    let shown = popup(&app).unwrap();
    assert_eq!(shown.title, None);
    assert_eq!(shown.text, "Open in Neovim? (y/n)");
    assert_eq!(shown.color, Some(Color::Yellow));
    app.close_popups();
    assert!(popup(&app).is_none());
}

#[test]
fn a_frame_shows_the_whole_state() {
    let mut app = browsing();
    app.switch_tab(1, vec![entry("lib.rs", false)]);
    app.move_down();
    let screen = render(&app, "2024-05-06".to_string(), "07:08:09".to_string());
    assert_eq!(screen.date, "2024-05-06");
    assert_eq!(screen.label, "Rakesh");
    assert_eq!(screen.time, "07:08:09");
    assert_eq!(screen.tab_titles, vec!["1_alpha", "2_beta"]);
    assert_eq!(screen.selected_tab, 1);
    assert_eq!(screen.legend.len(), 10);
    let pane = screen.content.unwrap();
    assert_eq!(pane.title, " Contents of beta ");
    assert_eq!(pane.rows.len(), 1);
    assert_eq!(pane.rows[0].name, "lib.rs");
    assert_eq!(pane.rows[0].color, Color::Yellow);
    assert!(screen.popup.is_none());
}

#[test]
fn rendering_leaves_the_state_alone() {
    let mut app = browsing();
    app.move_down();
    let _ = render(&app, String::new(), String::new());
    assert_eq!(app.selected_item(), Some(0));
    assert_eq!(app.current_tab(), 0);
    assert_eq!(app.entries().len(), 2);
}

fn all_digits(text: &str) -> bool {
    !text.is_empty() && text.chars().all(|c| c.is_ascii_digit())
}

#[test]
fn the_date_is_year_month_day() {
    let date = current_date();
    let parts: Vec<&str> = date.split('-').collect();
    assert_eq!(parts.len(), 3);
    assert!(parts.iter().all(|p| all_digits(p)));
    assert_eq!(parts[1].len(), 2);
    assert_eq!(parts[2].len(), 2);
}

#[test]
fn the_time_is_hours_minutes_seconds() {
    let time = current_time();
    let parts: Vec<&str> = time.split(':').collect();
    assert_eq!(parts.len(), 3);
    assert!(parts.iter().all(|p| p.len() == 2 && all_digits(p)));
}

#[test]
fn date_and_time_lie_within_their_ranges() {
    let date = current_date();
    let fields: Vec<&str> = date.rsplitn(3, '-').collect();
    assert_eq!(fields.len(), 3);
    let day: u32 = fields[0].parse().unwrap();
    let month: u32 = fields[1].parse().unwrap();
    assert!((1..=31).contains(&day));
    assert!((1..=12).contains(&month));
    assert!(fields[2].len() >= 4);
    let time = current_time();
    assert_eq!(time.len(), 8);
    let hour: u32 = time[0..2].parse().unwrap();
    let minute: u32 = time[3..5].parse().unwrap();
    let second: u32 = time[6..8].parse().unwrap();
    assert!(hour <= 23 && minute <= 59 && second <= 60);
}

#[test]
fn a_frame_of_this_moment_carries_date_and_time() {
    let app = browsing();
    let screen = render_now(&app);
    assert_eq!(screen.date.split('-').count(), 3);
    assert_eq!(screen.time.split(':').count(), 3);
    assert_eq!(screen.label, "Rakesh");
    assert_eq!(screen.tab_titles, vec!["1_alpha", "2_beta"]);
}
