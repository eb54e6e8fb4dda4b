use tachyon::layout::{centered_rect, centering_spans, screen_areas, Area, Span};
use tachyon::viewer::screen::{footer_text, level_color, LevelColor, Screen};
use tachyon::viewer::{App, AppMode, Key, KeyOutcome};

const LOG: &[u8] = b"{\"level\":\"error\",\"msg\":\"zero\"}\nplain one\n{\"msg\":\"two\"}\nplain three\n";

fn messages(screen: &Screen) -> Vec<String> {
    screen.rows.iter().map(|row| row.message.clone()).collect()
}

fn look(app: &mut App) -> Screen {
    app.compose(10, "1ms", "2ms")
}

fn press(app: &mut App, keys: &[Key]) {
    for key in keys {
        assert_ne!(app.handle_key(*key), KeyOutcome::Quit);
    }
}

fn opened(log: &[u8]) -> App<'_> {
    let mut app = App::new(log);
    app.select_first();
    app
}

fn numbered(n: usize) -> Vec<u8> {
    let mut log: Vec<u8> = Vec::new();
    for i in 0..n {
        log.extend_from_slice(format!("line {i}\n").as_bytes());
    }
    log
}

#[test]
fn a_new_explorer_lists_every_line() {
    let mut app = App::new(LOG);
    let screen = look(&mut app);
    assert_eq!(messages(&screen), vec!["zero", "plain one", "two", "plain three"]);
    assert_eq!(
        screen.header,
        " Tachyon | Total Lines: 4 | Filtered: 4 | Mmap Time: 1ms | Filter Time: 2ms "
    );
    assert_eq!(screen.highlighted, Some(0));
    assert!(screen.popup.is_none());
    assert_eq!(screen.rows[0].level, "ERROR");
    assert_eq!(screen.rows[0].color, LevelColor::Red);
    assert_eq!(screen.rows[1].level, "RAW");
    assert_eq!(screen.rows[1].timestamp, "-");
    assert_eq!(screen.rows[1].color, LevelColor::White);
    assert_eq!(screen.rows[2].color, LevelColor::Green);
}

#[test]
fn an_empty_file_shows_nothing() {
    let mut app = opened(b"");
    press(&mut app, &[Key::Down, Key::PageDown, Key::Char('G'), Key::Enter]);
    let screen = look(&mut app);
    assert!(screen.rows.is_empty());
    assert_eq!(screen.highlighted, None);
    assert!(screen.popup.is_none());
    assert_eq!(
        screen.header,
        " Tachyon | Total Lines: 0 | Filtered: 0 | Mmap Time: 1ms | Filter Time: 2ms "
    );
}

#[test]
fn filtering_lists_the_lines_that_hold_the_query() {
    let mut app = opened(LOG);
    press(&mut app, &[Key::Char('f'), Key::Char('p'), Key::Char('l')]);
    assert_eq!(look(&mut app).header, " Filter: pl_ ");
    assert_eq!(look(&mut app).rows.len(), 4);
    press(&mut app, &[Key::Enter]);
    let screen = look(&mut app);
    assert_eq!(messages(&screen), vec!["plain one", "plain three"]);
    assert_eq!(
        screen.header,
        " Tachyon | Total Lines: 4 | Filtered: 2 | Mmap Time: 1ms | Filter Time: 2ms "
    );
    press(&mut app, &[Key::Esc]);
    assert_eq!(look(&mut app).rows.len(), 4);
}

#[test]
fn cancelling_a_filter_keeps_the_list() {
    let mut app = opened(LOG);
    press(&mut app, &[Key::Down, Key::Char('/'), Key::Char('t'), Key::Esc]);
    let screen = look(&mut app);
    assert_eq!(screen.rows.len(), 4);
    assert_eq!(screen.highlighted, Some(1));
    assert_eq!(screen.footer, footer_text(AppMode::Normal));
}

#[test]
fn backspace_takes_characters_back() {
    let mut app = opened(LOG);
    press(
        &mut app,
        &[Key::Char('f'), Key::Backspace, Key::Char('t'), Key::Char('\u{e9}'), Key::Backspace],
    );
    assert_eq!(look(&mut app).header, " Filter: t_ ");
    press(&mut app, &[Key::Char('w'), Key::Char('o'), Key::Enter]);
    assert_eq!(messages(&look(&mut app)), vec!["two"]);
}

#[test]
fn letters_are_typed_while_filtering() {
    let mut app = opened(LOG);
    press(&mut app, &[Key::Char('/'), Key::Char('q'), Key::Char('G'), Key::Char('f'), Key::Char('j')]);
    assert_eq!(look(&mut app).header, " Filter: qGfj_ ");
    press(&mut app, &[Key::Enter]);
    let screen = look(&mut app);
    assert!(screen.rows.is_empty());
    assert_eq!(screen.highlighted, None);
    press(&mut app, &[Key::Char('f')]);
    assert_eq!(look(&mut app).header, " Filter: _ ");
}

#[test]
fn the_letter_q_quits_only_from_the_list() {
    let mut app = opened(LOG);
    press(&mut app, &[Key::Enter, Key::Char('q')]);
    press(&mut app, &[Key::Char('f'), Key::Char('q'), Key::Esc]);
    assert_eq!(app.handle_key(Key::Char('q')), KeyOutcome::Quit);
}

#[test]
fn the_inspector_shows_the_selected_line() {
    let mut app = opened(LOG);
    press(&mut app, &[Key::Char('j'), Key::Char('j'), Key::Enter]);
    let screen = look(&mut app);
    assert_eq!(screen.footer, footer_text(AppMode::Inspecting));
    let popup = screen.popup.expect("inspector open");
    assert_eq!(popup.lines, vec!["{", "  \"msg\": \"two\"", "}"]);
    assert_eq!(popup.scroll, 0);
    press(&mut app, &[Key::Up, Key::Down, Key::Char('j'), Key::Char('j'), Key::Char('k')]);
    assert_eq!(look(&mut app).popup.expect("inspector open").scroll, 2);
    press(&mut app, &[Key::Esc]);
    let screen = look(&mut app);
    assert!(screen.popup.is_none());
    assert_eq!(screen.highlighted, Some(2));
    assert_eq!(screen.rows.len(), 4);
}

#[test]
fn reopening_the_inspector_starts_at_its_top() {
    let mut app = opened(LOG);
    press(&mut app, &[Key::Enter, Key::Down, Key::Esc, Key::Enter]);
    assert_eq!(look(&mut app).popup.expect("inspector open").scroll, 0);
}

#[test]
fn nothing_is_inspected_without_a_selection() {
    let mut app = App::new(LOG);
    press(&mut app, &[Key::Enter]);
    assert!(look(&mut app).popup.is_none());
}

#[test]
fn inspected_text_is_cut_at_line_ends() {
    let mut app = opened(b"a\rb \r\n");
    press(&mut app, &[Key::Enter]);
    assert_eq!(look(&mut app).popup.expect("inspector open").lines, vec!["a\rb "]);
}

#[test]
fn moving_stays_in_the_list() {
    let log = numbered(50);
    let mut app = opened(&log);
    let row = |app: &mut App| {
        let screen = app.compose(7, "", "");
        let row = screen.highlighted.expect("a row");
        screen.rows[row].message.clone()
    };
    press(&mut app, &[Key::Up]);
    assert_eq!(row(&mut app), "line 0");
    press(&mut app, &[Key::Down, Key::Char('j'), Key::Char('k')]);
    assert_eq!(row(&mut app), "line 1");
    press(&mut app, &[Key::PageDown]);
    assert_eq!(row(&mut app), "line 21");
    press(&mut app, &[Key::PageDown, Key::PageDown]);
    assert_eq!(row(&mut app), "line 49");
    press(&mut app, &[Key::Down]);
    assert_eq!(row(&mut app), "line 49");
    press(&mut app, &[Key::PageUp]);
    assert_eq!(row(&mut app), "line 29");
    press(&mut app, &[Key::Char('g')]);
    assert_eq!(row(&mut app), "line 0");
    press(&mut app, &[Key::Char('G')]);
    assert_eq!(row(&mut app), "line 49");
    press(&mut app, &[Key::PageUp, Key::PageUp, Key::PageUp]);
    assert_eq!(row(&mut app), "line 0");
}

#[test]
fn the_table_scrolls_with_the_selection() {
    let log = numbered(50);
    let mut app = opened(&log);
    let rows = |app: &mut App| {
        let screen = app.compose(7, "", "");
        (screen.rows[0].message.clone(), screen.rows.len(), screen.highlighted)
    };
    assert_eq!(rows(&mut app), ("line 0".to_string(), 7, Some(0)));
    press(&mut app, &[Key::PageDown]);
    assert_eq!(rows(&mut app), ("line 17".to_string(), 7, Some(3)));
    press(&mut app, &[Key::Char('G')]);
    assert_eq!(rows(&mut app), ("line 43".to_string(), 7, Some(6)));
    let screen = app.compose(0, "", "");
    assert!(screen.rows.is_empty());
    assert_eq!(screen.highlighted, None);
    assert_eq!(app.compose(1, "", "").rows[0].message, "line 49");
}

#[test]
fn columns_are_kept_once_read() {
    let mut app = App::new(LOG);
    let first = app.get_or_cache_parsed_line(2).clone();
    assert_eq!(first, ("-".to_string(), "INFO".to_string(), "two".to_string()));
    assert_eq!(*app.get_or_cache_parsed_line(2), first);
}

#[test]
fn keys_without_meaning_change_nothing() {
    let mut app = opened(LOG);
    press(&mut app, &[Key::Down, Key::Other, Key::Backspace, Key::Char('x')]);
    let screen = look(&mut app);
    assert_eq!(screen.highlighted, Some(1));
    assert_eq!(screen.rows.len(), 4);
}

#[test]
fn levels_have_colours() {
    for (level, color) in [
        ("ERROR", LevelColor::Red),
        ("ERR", LevelColor::Red),
        ("FATAL", LevelColor::Red),
        ("WARN", LevelColor::Yellow),
        ("WARNING", LevelColor::Yellow),
        ("INFO", LevelColor::Green),
        ("DEBUG", LevelColor::Blue),
        ("TRACE", LevelColor::Magenta),
        ("RAW", LevelColor::White),
        ("error", LevelColor::White),
        ("", LevelColor::White),
    ] {
        assert_eq!(level_color(level), color, "{level}");
    }
}

#[test]
fn footers_name_the_keys() {
    assert_eq!(
        footer_text(AppMode::Normal),
        " [q] Quit | [f] Filter | [Enter] Inspect JSON | [g/G] Top/Bottom | [↑/↓] Navigate "
    );
    assert_eq!(footer_text(AppMode::Filtering), " [Enter] Apply Filter | [Esc] Cancel ");
    assert_eq!(
        footer_text(AppMode::Inspecting),
        " [Esc] Close Inspector | [↑/↓] Scroll JSON "
    );
}

#[test]
fn the_screen_is_cut_into_three() {
    let screen = Area { x: 0, y: 0, width: 80, height: 24 };
    assert_eq!(
        screen_areas(screen),
        vec![
            Area { x: 0, y: 0, width: 80, height: 3 },
            Area { x: 0, y: 3, width: 80, height: 20 },
            Area { x: 0, y: 23, width: 80, height: 1 },
        ]
    );
}

#[test]
fn the_popup_is_centred() {
    let screen = Area { x: 10, y: 20, width: 100, height: 50 };
    assert_eq!(
        centered_rect(80, 80, screen),
        Area { x: 20, y: 25, width: 80, height: 40 }
    );
    assert_eq!(
        centering_spans(80),
        vec![Span::Percentage(10), Span::Percentage(80), Span::Percentage(10)]
    );
    assert_eq!(
        centering_spans(75),
        vec![Span::Percentage(12), Span::Percentage(75), Span::Percentage(12)]
    );
}

#[test]
fn drawing_fills_the_table_between_its_borders() {
    let log = numbered(50);
    let mut app = opened(&log);
    let area = Area { x: 0, y: 0, width: 80, height: 24 };
    let frame = app.draw(area, "1ms", "2ms");
    assert_eq!(frame.areas[1].height, 20);
    assert_eq!(frame.screen.rows.len(), 18);
    assert!(frame.popup_area.is_none());
    press(&mut app, &[Key::Enter]);
    let frame = app.draw(area, "1ms", "2ms");
    let popup = frame.popup_area.expect("inspector open");
    assert_eq!(popup.width, 64);
    assert!(popup.x >= 8 && popup.y >= 2);
    assert!(frame.screen.popup.is_some());
}

#[test]
fn a_tiny_screen_still_draws() {
    let mut app = opened(LOG);
    for height in 0..6u16 {
        let area = Area { x: 3, y: 5, width: 2, height };
        let frame = app.draw(area, "", "");
        assert_eq!(frame.areas.len(), 3);
        for part in &frame.areas {
            assert!(part.x == 3 && part.width == 2 && part.y >= 5);
            assert!(part.y + part.height <= 5 + height);
        }
    }
}

#[test]
fn filtering_anew_is_reported() {
    let mut app = opened(LOG);
    assert_eq!(app.handle_key(Key::Char('f')), KeyOutcome::Continue);
    assert_eq!(app.handle_key(Key::Enter), KeyOutcome::Refiltered);
    assert_eq!(app.handle_key(Key::Esc), KeyOutcome::Refiltered);
    assert_eq!(app.handle_key(Key::Enter), KeyOutcome::Continue);
    assert_eq!(app.handle_key(Key::Esc), KeyOutcome::Continue);
}
