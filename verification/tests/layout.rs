use project_tabs::layout::{
    centered_constraints, centered_rect, frame_areas, header_constraints, middle_part,
    row_constraints, Constraint, Rect,
};

fn within(inner: Rect, outer: Rect) -> bool {
    outer.x <= inner.x
        && inner.x as u32 + inner.width as u32 <= outer.x as u32 + outer.width as u32
        && outer.y <= inner.y
        && inner.y as u32 + inner.height as u32 <= outer.y as u32 + outer.height as u32
}

#[test]
fn popup_is_centered_in_a_plain_terminal() {
    let popup = centered_rect(30, 20, Rect::new(0, 0, 100, 50));
    assert_eq!(popup, Rect::new(35, 20, 30, 10));
}

#[test]
fn popup_follows_the_offset_of_its_area() {
    let popup = centered_rect(50, 50, Rect::new(10, 4, 40, 20));
    assert_eq!(popup, Rect::new(20, 9, 20, 10));
}

#[test]
fn popup_lies_within_areas_of_any_size() {
    for (w, h) in [(0, 0), (1, 1), (3, 7), (80, 24), (81, 25), (200, 60), (65535, 65535)] {
        for (px, py) in [(0, 0), (30, 20), (33, 33), (100, 100), (99, 1)] {
            let area = Rect::new(2, 5, w, h);
            let popup = centered_rect(px, py, area);
            assert!(within(popup, area));
        }
    }
}

#[test]
fn a_full_size_popup_covers_its_area() {
    let area = Rect::new(0, 0, 80, 24);
    assert_eq!(centered_rect(100, 100, area), area);
}

#[test]
fn frame_rows_have_fixed_heights() {
    let areas = frame_areas(Rect::new(0, 0, 100, 40));
    assert_eq!(areas.date, Rect::new(0, 0, 33, 3));
    assert_eq!(areas.label, Rect::new(33, 0, 34, 3));
    assert_eq!(areas.time, Rect::new(67, 0, 33, 3));
    assert_eq!(areas.tabs, Rect::new(0, 3, 100, 3));
    assert_eq!(areas.legend, Rect::new(0, 6, 100, 3));
    assert_eq!(areas.content, Rect::new(0, 9, 100, 31));
    assert_eq!(areas.popup, Rect::new(35, 16, 30, 8));
}

#[test]
fn frame_areas_fit_small_terminals() {
    for (w, h) in [(0, 0), (1, 1), (10, 5), (10, 9), (20, 10)] {
        let size = Rect::new(0, 0, w, h);
        let areas = frame_areas(size);
        for part in [
            areas.date,
            areas.label,
            areas.time,
            areas.tabs,
            areas.legend,
            areas.content,
            areas.popup,
        ] {
            assert!(within(part, size));
        }
        assert_eq!(areas.tabs.width, w);
        assert_eq!(areas.legend.width, w);
        assert_eq!(areas.content.width, w);
        assert_eq!(areas.date.y, areas.time.y);
    }
}

#[test]
fn centering_splits_the_rest_in_two() {
    assert_eq!(
        centered_constraints(30),
        vec![Constraint::Percentage(35), Constraint::Percentage(30), Constraint::Percentage(35)]
    );
    assert_eq!(
        centered_constraints(25),
        vec![Constraint::Percentage(37), Constraint::Percentage(25), Constraint::Percentage(37)]
    );
    assert_eq!(
        centered_constraints(100),
        vec![Constraint::Percentage(0), Constraint::Percentage(100), Constraint::Percentage(0)]
    );
    assert_eq!(
        centered_constraints(0),
        vec![Constraint::Percentage(50), Constraint::Percentage(0), Constraint::Percentage(50)]
    );
}

#[test]
fn the_frame_has_three_fixed_rows_and_a_flexible_one() {
    assert_eq!(
        row_constraints(),
        vec![Constraint::Length(3), Constraint::Length(3), Constraint::Length(3), Constraint::Min(0)]
    );
    assert_eq!(
        header_constraints(),
        vec![Constraint::Percentage(33), Constraint::Percentage(34), Constraint::Percentage(33)]
    );
}

#[test]
fn the_middle_part_is_the_second() {
    let parts = vec![Rect::new(0, 0, 1, 1), Rect::new(1, 0, 2, 1), Rect::new(3, 0, 1, 1)];
    assert_eq!(middle_part(&parts), Rect::new(1, 0, 2, 1));
}

fn boundary(start: u16, length: u16, hundredths: u32) -> u32 {
    let end = (start as u32 + length as u32).min(65535);
    start as u32 + ((end - start as u32) * hundredths + 50) / 100
}

fn centered(percent_x: u16, percent_y: u16, r: Rect) -> Rect {
    let mx = (100 - percent_x as u32) / 2;
    let my = (100 - percent_y as u32) / 2;
    let left = boundary(r.x, r.width, mx);
    let right = boundary(r.x, r.width, mx + percent_x as u32);
    let top = boundary(r.y, r.height, my);
    let bottom = boundary(r.y, r.height, my + percent_y as u32);
    Rect::new(left as u16, top as u16, (right - left) as u16, (bottom - top) as u16)
}

#[test]
fn popup_boundaries_round_to_the_nearest_cell() {
    assert_eq!(centered_rect(30, 20, Rect::new(0, 0, 10, 10)), Rect::new(4, 4, 3, 2));
    assert_eq!(centered_rect(30, 20, Rect::new(0, 0, 1, 1)), Rect::new(0, 0, 1, 1));
    assert_eq!(centered_rect(25, 25, Rect::new(0, 0, 10, 10)), Rect::new(4, 4, 2, 2));
    assert_eq!(centered_rect(50, 50, Rect::new(0, 0, 5, 3)), Rect::new(1, 1, 3, 1));
    assert_eq!(centered_rect(0, 0, Rect::new(7, 9, 20, 10)), Rect::new(17, 14, 0, 0));
}

#[test]
fn popup_width_follows_the_rule_for_every_share() {
    for width in 0..=120u16 {
        for percent in 0..=100u16 {
            let r = Rect::new(3, 2, width, 10);
            assert_eq!(centered_rect(percent, 50, r), centered(percent, 50, r));
        }
    }
}

#[test]
fn popup_height_follows_the_rule_for_every_share() {
    for height in 0..=120u16 {
        for percent in 0..=100u16 {
            let r = Rect::new(0, 11, 40, height);
            assert_eq!(centered_rect(30, percent, r), centered(30, percent, r));
        }
    }
}

#[test]
fn popup_follows_the_rule_on_large_and_far_areas() {
    let areas = [
        Rect::new(0, 0, 65535, 65535),
        Rect::new(65535, 65535, 0, 0),
        Rect::new(65000, 65000, 535, 535),
        Rect::new(65000, 65000, 1000, 2000),
        Rect::new(1, 1, 65535, 65535),
        Rect::new(12345, 54321, 4321, 1234),
        Rect::new(0, 0, 32767, 999),
    ];
    for r in areas {
        for (px, py) in [(30, 20), (0, 0), (100, 100), (1, 99), (33, 67), (50, 51)] {
            assert_eq!(centered_rect(px, py, r), centered(px, py, r));
        }
    }
}

#[test]
fn the_rows_are_stacked_from_the_top_wherever_they_fit() {
    for height in 9..=200u16 {
        let size = Rect::new(4, 7, 50, height);
        let areas = frame_areas(size);
        assert_eq!(areas.date.y, 7);
        assert_eq!(areas.date.height, 3);
        assert_eq!(areas.label.y, 7);
        assert_eq!(areas.label.height, 3);
        assert_eq!(areas.time.y, 7);
        assert_eq!(areas.time.height, 3);
        assert_eq!(areas.tabs, Rect::new(4, 10, 50, 3));
        assert_eq!(areas.legend, Rect::new(4, 13, 50, 3));
        assert_eq!(areas.content, Rect::new(4, 16, 50, height - 9));
    }
    let far = frame_areas(Rect::new(0, 65500, 10, 1000));
    assert_eq!(far.tabs, Rect::new(0, 65503, 10, 3));
    assert_eq!(far.content, Rect::new(0, 65509, 10, 26));
    let huge = frame_areas(Rect::new(0, 0, 65535, 65535));
    assert_eq!(huge.content, Rect::new(0, 9, 65535, 65526));
}

#[test]
fn the_header_cells_share_the_width_for_every_terminal() {
    for width in 0..=300u16 {
        for height in [0u16, 1, 5, 9, 24] {
            let size = Rect::new(5, 0, width, height);
            let areas = frame_areas(size);
            let first = boundary(5, width, 33) as u16;
            let second = boundary(5, width, 67) as u16;
            assert_eq!((areas.date.x, areas.date.width), (5, first - 5));
            assert_eq!((areas.label.x, areas.label.width), (first, second - first));
            assert_eq!((areas.time.x, areas.time.width), (second, 5 + width - second));
        }
    }
}

#[test]
fn the_popup_of_the_frame_is_the_centered_one() {
    for (w, h) in [(0u16, 0u16), (1, 1), (10, 5), (80, 24), (81, 25), (200, 60), (65535, 65535)] {
        let size = Rect::new(2, 3, w, h);
        assert_eq!(frame_areas(size).popup, centered(30, 20, size));
        assert_eq!(frame_areas(size).popup, centered_rect(30, 20, size));
    }
}
