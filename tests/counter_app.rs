use counter_tui::{App, InputEvent, KeyCode, Tint, Hue};
use ratatui::buffer::Buffer;
use ratatui::layout::{Constraint, Direction, Layout, Rect};

fn get_string_from_buffer(buf: &Buffer, x: u16, y: u16, width: u16) -> String {
    let mut extracted_string = String::new();
    for i in 0..width {
        let cell = buf
            .cell((x + i, y))
            .expect(&format!("Expected a cell at ({}, {}) for string extraction, but none was found.", x + i, y));
        extracted_string.push(cell.symbol().chars().next().unwrap_or(' '));
    }
    extracted_string.trim().to_string()
}

fn get_gauge_label_text(app_instance: &mut App, area: Rect) -> String {
    let mut buf = Buffer::empty(area);
    app_instance.render(buf.area, &mut buf);

    let main_chunks = Layout::default()
        .direction(Direction::Vertical)
        .constraints([Constraint::Length(4), Constraint::Min(0), Constraint::Length(1)])
        .split(area);

    let content_chunks = Layout::default()
        .direction(Direction::Vertical)
        .constraints([Constraint::Length(4), Constraint::Length(4), Constraint::Min(0)])
        .margin(1)
        .split(main_chunks[1]);

    let gauge_area = content_chunks[0];
    let gauge_label_y_pos = gauge_area.y + 2;
    let label_width = 10;
    let label_start_x = gauge_area.x + (gauge_area.width.saturating_sub(label_width)) / 2;
    let label_end_x = label_start_x + label_width;

    let mut extracted_string = String::new();
    for x in label_start_x.max(gauge_area.x)..label_end_x.min(gauge_area.right()) {
        let cell = buf
            .cell((x, gauge_label_y_pos))
            .expect(&format!("Cell at ({}, {}) not found in gauge label area", x, gauge_label_y_pos));
        extracted_string.push(cell.symbol().chars().next().unwrap_or(' '));
    }
    extracted_string.trim().to_string()
}

#[test]
fn render() {
    let mut app = App::default();
    let mut buf = Buffer::empty(Rect::new(0, 0, 80, 15));

    (&mut app).render(buf.area, &mut buf);

    assert_eq!(get_string_from_buffer(&buf, 31, 0, 17), "Compteur Avancé", "Le titre principal ne correspond pas.");

    let instructions_line_full = get_string_from_buffer(&buf, 0, 3, 80);
    assert!(instructions_line_full.contains("Décrémenter"), "Instructions missing 'Décrémenter'.");
    assert!(instructions_line_full.contains("<Gauche>"), "Instructions missing '<Gauche>'.");
    assert!(instructions_line_full.contains("Incrémenter"), "Instructions missing 'Incrémenter'.");
    assert!(instructions_line_full.contains("<Droite>"), "Instructions missing '<Droite>'.");
    assert!(instructions_line_full.contains("Quitter"), "Instructions missing 'Quitter'.");
    assert!(instructions_line_full.contains("<Q>"), "Instructions missing '<Q>'.");

    assert_eq!(get_string_from_buffer(&buf, 35, 6, 9), "Valeur:", "Le texte de la valeur du compteur ne correspond pas.");
    assert_eq!(get_string_from_buffer(&buf, 37, 7, 3), "0", "Le label du gauge de progression ne correspond pas.");
    assert_eq!(get_string_from_buffer(&buf, 35, 10, 8), "Tours:", "Le texte du compteur de tours ne correspond pas.");
    assert_eq!(get_string_from_buffer(&buf, 37, 11, 4), "0/5", "Le label du gauge de tours ne correspond pas.");
}

#[test]
fn handle_key_event() {
    let mut app = App::default();
    let area = Rect::new(0, 0, 80, 15);

    app.counter = -10;
    app.max_counter = 100;
    assert_eq!(get_gauge_label_text(&mut app, area), "0%", "Le gauge devrait afficher 0% pour un compteur négatif.");

    app.counter = 0;
    assert_eq!(get_gauge_label_text(&mut app, area), "0%", "Le gauge devrait afficher 0% pour un compteur à zéro.");

    app.counter = 2;
    app.max_counter = 5;
    assert_eq!(get_gauge_label_text(&mut app, area), "40%", "Le gauge devrait afficher 40% pour un compteur à 2 et max à 5.");

    let mut app = App::default();
    app.max_counter = 5;
    app.min_counter = -5;

    for _ in 0..app.max_counter {
        app.handle_key_event(KeyCode::Right);
    }
    assert_eq!(app.counter, app.max_counter, "Le compteur devrait atteindre max_counter.");
    assert_eq!(app.round_counter, 0, "Le compteur de tours devrait rester à 0.");

    app.handle_key_event(KeyCode::Right);
    assert_eq!(app.counter, 0, "Le compteur devrait se réinitialiser à 0 après un nouveau tour.");
    assert_eq!(app.round_counter, 1, "Le compteur de tours devrait passer à 1.");
    assert_eq!(app.message, "Nouveau tour ! Tour actuel: 1", "Le message devrait indiquer un nouveau tour.");

    for _ in 0..app.min_counter.abs() {
        app.handle_key_event(KeyCode::Left);
    }
    assert_eq!(app.counter, app.min_counter, "Le compteur devrait atteindre min_counter.");
    assert_eq!(app.round_counter, 1, "Le compteur de tours devrait rester à 1.");

    app.handle_key_event(KeyCode::Left);
    assert_eq!(app.counter, 0, "Le compteur devrait se réinitialiser à 0 après retour au tour précédent.");
    assert_eq!(app.round_counter, 0, "Le compteur de tours devrait revenir à 0.");
    assert_eq!(app.message, "Retour au tour précédent ! Tour actuel: 0", "Le message devrait indiquer le retour au tour précédent.");

    app.counter = -5;
    app.handle_key_event(KeyCode::Left);
    assert_eq!(app.counter, app.min_counter, "Le compteur devrait rester à min_counter si déjà à la limite.");
    assert_eq!(app.round_counter, 0, "Le compteur de tours devrait rester à 0 à la limite inférieure.");
    assert_eq!(
        app.message,
        format!("Limite inférieure des tours atteinte et compteur à {}. Impossible de décrémenter davantage.", app.min_counter),
        "Le message devrait indiquer que la limite inférieure est atteinte."
    );

    let mut app = App::default();
    app.handle_key_event(KeyCode::Char('q'));
    assert!(app.exit, "L'application devrait se quitter après 'q'.");
}

#[test]
fn default_state() {
    let app = App::default();
    assert_eq!(app.counter, 0);
    assert_eq!(app.round_counter, 0);
    assert!(!app.exit);
    assert_eq!(app.max_counter, 100);
    assert_eq!(app.min_counter, -100);
    assert_eq!(app.max_rounds, 50);
    assert_eq!(app.message, "");
}

#[test]
fn increment_below_and_at_upper_bound() {
    let mut app = App::default();
    app.counter = 41;
    app.increment_counter();
    assert_eq!((app.counter, app.round_counter), (42, 0));
    assert_eq!(app.message, "");
    app.counter = 100;
    app.round_counter = 12;
    app.increment_counter();
    assert_eq!((app.counter, app.round_counter), (0, 13));
    assert_eq!(app.message, "Nouveau tour ! Tour actuel: 13");
}

#[test]
fn increment_past_round_target_is_not_clamped() {
    let mut app = App::default();
    app.counter = 100;
    app.round_counter = 50;
    app.increment_counter();
    assert_eq!(app.round_counter, 51);
}

#[test]
fn decrement_above_and_at_lower_bound() {
    let mut app = App::default();
    app.counter = -99;
    app.decrement_counter();
    assert_eq!((app.counter, app.round_counter), (-100, 0));
    app.round_counter = 7;
    app.decrement_counter();
    assert_eq!((app.counter, app.round_counter), (0, 6));
    assert_eq!(app.message, "Retour au tour précédent ! Tour actuel: 6");
}

#[test]
fn lower_limit_changes_only_the_message() {
    let mut app = App::default();
    app.counter = -100;
    app.decrement_counter();
    assert_eq!((app.counter, app.round_counter, app.exit), (-100, 0, false));
    assert_eq!((app.max_counter, app.min_counter, app.max_rounds), (100, -100, 50));
    assert_eq!(
        app.message,
        "Limite inférieure des tours atteinte et compteur à -100. Impossible de décrémenter davantage."
    );
}

#[test]
fn small_bounds_scenario() {
    let mut app = App::default();
    app.max_counter = 5;
    app.min_counter = -5;
    for _ in 0..5 {
        app.handle_key_event(KeyCode::Right);
    }
    assert_eq!((app.counter, app.round_counter), (5, 0));
    app.handle_key_event(KeyCode::Right);
    assert_eq!((app.counter, app.round_counter), (0, 1));
    assert_eq!(app.message, "Nouveau tour ! Tour actuel: 1");
    for _ in 0..5 {
        app.handle_key_event(KeyCode::Left);
    }
    assert_eq!((app.counter, app.round_counter), (-5, 1));
    app.handle_key_event(KeyCode::Left);
    assert_eq!((app.counter, app.round_counter), (0, 0));
    assert_eq!(app.message, "Retour au tour précédent ! Tour actuel: 0");
    for _ in 0..5 {
        app.handle_key_event(KeyCode::Left);
    }
    app.handle_key_event(KeyCode::Left);
    assert_eq!((app.counter, app.round_counter), (-5, 0));
    assert_eq!(
        app.message,
        "Limite inférieure des tours atteinte et compteur à -5. Impossible de décrémenter davantage."
    );
}

#[test]
fn quit_key_only_sets_exit() {
    let mut app = App::default();
    app.counter = 17;
    app.round_counter = 3;
    app.handle_key_event(KeyCode::Char('q'));
    assert!(app.exit);
    assert_eq!((app.counter, app.round_counter), (17, 3));
    assert_eq!((app.max_counter, app.min_counter, app.max_rounds), (100, -100, 50));
    let mut app = App::default();
    app.message = String::from("kept");
    app.exit();
    assert!(app.exit);
    assert_eq!(app.message, "kept");
}

#[test]
fn other_keys_and_events_only_clear_the_message() {
    let mut app = App::default();
    app.counter = 3;
    app.message = String::from("old");
    app.handle_key_event(KeyCode::Char('x'));
    assert_eq!((app.counter, app.exit), (3, false));
    assert_eq!(app.message, "");
    app.message = String::from("old");
    app.handle_event(InputEvent::Other);
    assert_eq!(app.message, "");
    app.handle_event(InputEvent::KeyPress(KeyCode::Right));
    assert_eq!(app.counter, 4);
    app.handle_event(InputEvent::KeyPress(KeyCode::Other));
    assert_eq!(app.counter, 4);
}

#[test]
fn counter_gauge_percent_values() {
    let mut app = App::default();
    app.counter = 2;
    app.max_counter = 5;
    assert_eq!(app.screen().counter.percent, 40);
    assert_eq!(app.screen().counter.label, "40%");
    app.counter = 1;
    app.max_counter = 3;
    assert_eq!(app.screen().counter.label, "33%");
    app.counter = 1;
    app.max_counter = 8;
    assert_eq!(app.screen().counter.label, "12%");
    app.counter = 3;
    app.max_counter = 8;
    assert_eq!(app.screen().counter.label, "38%");
    app.counter = 5;
    app.max_counter = 5;
    assert_eq!(app.screen().counter.percent, 100);
    app.counter = -3;
    assert_eq!(app.screen().counter.percent, 0);
}

#[test]
fn counter_value_colours() {
    let mut app = App::default();
    app.counter = 4;
    assert!(app.screen().counter.caption[1].tint == Tint::BoldIn(Hue::LightGreen));
    assert_eq!(app.screen().counter.caption[1].text, "4");
    app.counter = -4;
    assert!(app.screen().counter.caption[1].tint == Tint::BoldIn(Hue::LightRed));
    assert_eq!(app.screen().counter.caption[1].text, "-4");
    app.counter = 0;
    assert!(app.screen().counter.caption[1].tint == Tint::BoldIn(Hue::Yellow));
}

#[test]
fn round_gauge_saturates_past_target() {
    let mut app = App::default();
    app.round_counter = 75;
    let s = app.screen();
    assert_eq!(s.rounds.percent, 100);
    assert_eq!(s.rounds.label, "75/50");
    app.round_counter = 10;
    assert_eq!(app.screen().rounds.percent, 20);
    app.max_rounds = 0;
    assert_eq!(app.screen().rounds.percent, 0);
}

#[test]
fn message_line_only_when_set() {
    let mut app = App::default();
    assert!(app.screen().message.is_none());
    app.message = String::from("hello");
    let s = app.screen();
    let line = s.message.expect("a message line");
    assert_eq!(line.len(), 1);
    assert_eq!(line[0].text, "hello");
    let mut buf = Buffer::empty(Rect::new(0, 0, 80, 15));
    app.render(buf.area, &mut buf);
    assert_eq!(get_string_from_buffer(&buf, 0, 14, 80), "hello");
}

#[test]
fn render_twice_gives_same_cells() {
    let mut app = App::default();
    app.counter = -7;
    app.round_counter = 3;
    app.message = String::from("note");
    let area = Rect::new(0, 0, 80, 15);
    let mut a = Buffer::empty(area);
    let mut b = Buffer::empty(area);
    app.render(area, &mut a);
    app.render(area, &mut b);
    assert!(a == b);
}

#[test]
fn render_into_smaller_buffer_is_clipped() {
    let app = App::default();
    let mut buf = Buffer::empty(Rect::new(0, 0, 80, 5));
    app.render(Rect::new(0, 0, 80, 15), &mut buf);
    assert_eq!(get_string_from_buffer(&buf, 31, 0, 17), "Compteur Avancé");
    let mut tiny = Buffer::empty(Rect::new(3, 2, 4, 2));
    app.render(Rect::new(0, 0, 80, 15), &mut tiny);
    let mut offset = Buffer::empty(Rect::new(10, 10, 80, 15));
    app.render(Rect::new(0, 0, 80, 15), &mut offset);
}

#[test]
fn extreme_values_are_written_in_full() {
    let mut app = App::default();
    app.round_counter = i32::MIN;
    app.counter = i8::MIN;
    app.min_counter = i8::MIN;
    let s = app.screen();
    assert_eq!(s.rounds.label, "-2147483648/50");
    assert_eq!(s.counter.caption[1].text, "-128");
    app.round_counter = i32::MAX;
    assert_eq!(app.screen().rounds.label, "2147483647/50");
    app.round_counter = 1000;
    assert_eq!(app.screen().rounds.caption[1].text, "1000");
}

#[test]
fn counter_gauge_with_negative_or_zero_bound() {
    let mut app = App::default();
    app.counter = 3;
    app.max_counter = -2;
    app.min_counter = -5;
    assert_eq!(app.screen().counter.percent, 0);
    assert_eq!(app.screen().counter.label, "0%");
    app.counter = 0;
    app.max_counter = 0;
    assert_eq!(app.screen().counter.percent, 100);
}
