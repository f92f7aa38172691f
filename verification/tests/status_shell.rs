use gps_fix::outcome::CoordinateResult;
use gps_fix::shell::StatusShell;

#[test]
fn open_window_shows_its_initial_text() {
    let shell = StatusShell::open("Aguardando dados de GPS...".to_string());
    assert!(shell.is_open());
    assert_eq!(shell.status_text(), Some("Aguardando dados de GPS..."));
}

#[test]
fn set_text_is_shown_verbatim() {
    let mut shell = StatusShell::open(String::new());
    for text in ["", " ", "Latitude: 1.0000, Longitude: 2.0000", "line\nbreak", "\u{1f6f0}"] {
        assert!(shell.set_status_text(text.to_string()));
        assert_eq!(shell.status_text(), Some(text));
    }
}

#[test]
fn setting_the_same_text_twice_changes_nothing_more() {
    let mut shell = StatusShell::open("waiting".to_string());
    assert!(shell.set_status_text("Erro: provider disabled".to_string()));
    let once = shell.status_text().map(str::to_string);
    assert!(shell.set_status_text("Erro: provider disabled".to_string()));
    assert_eq!(shell.status_text().map(str::to_string), once);
    assert!(shell.is_open());
}

#[test]
fn last_text_set_is_the_one_shown() {
    let mut shell = StatusShell::open("waiting".to_string());
    assert!(shell.set_status_text("first".to_string()));
    assert!(shell.set_status_text("second".to_string()));
    assert_eq!(shell.status_text(), Some("second"));
}

#[test]
fn result_for_a_closed_window_is_dropped_quietly() {
    let mut shell = StatusShell::open("waiting".to_string());
    shell.close();
    let result = CoordinateResult::success((-23.55f64).to_bits(), (-46.63f64).to_bits());
    assert!(!shell.show_result(&result));
    assert!(!shell.is_open());
    assert_eq!(shell.status_text(), None);
    let failed = CoordinateResult::failure("provider disabled".to_string());
    assert!(!shell.show_result(&failed));
    assert!(!shell.set_status_text("anything".to_string()));
    assert_eq!(shell.status_text(), None);
}

#[test]
fn result_for_an_open_window_is_shown() {
    let mut shell = StatusShell::open("waiting".to_string());
    let result = CoordinateResult::success((-23.55f64).to_bits(), (-46.63f64).to_bits());
    assert!(shell.show_result(&result));
    assert_eq!(shell.status_text(), Some("Latitude: -23.5500, Longitude: -46.6300"));
    let failed = CoordinateResult::failure("provider disabled".to_string());
    assert!(shell.show_result(&failed));
    assert_eq!(shell.status_text(), Some("Erro: provider disabled"));
}

#[test]
fn window_and_result_may_come_in_either_order() {
    let result = CoordinateResult::failure("no known location".to_string());

    let mut shown_then_closed = StatusShell::open("waiting".to_string());
    assert!(shown_then_closed.show_result(&result));
    shown_then_closed.close();

    let mut closed_then_shown = StatusShell::open("waiting".to_string());
    closed_then_shown.close();
    assert!(!closed_then_shown.show_result(&result));

    assert_eq!(shown_then_closed.status_text(), None);
    assert_eq!(closed_then_shown.status_text(), None);
}

#[test]
fn closing_twice_is_harmless() {
    let mut shell = StatusShell::open("waiting".to_string());
    shell.close();
    shell.close();
    assert!(!shell.is_open());
}
