use git_sv::loading::{frame_index, render_inline, LoadingSpinner, SPINNER_CHARS};

#[test]
fn frames_turn_every_eighty_milliseconds() {
    assert_eq!(frame_index(0), 0);
    assert_eq!(frame_index(79), 0);
    assert_eq!(frame_index(80), 1);
    assert_eq!(frame_index(799), 9);
    assert_eq!(frame_index(800), 0);
}

#[test]
fn spinner_keeps_its_message_and_shows_a_frame() {
    let mut spinner = LoadingSpinner::new("Chargement");
    assert!(spinner.is_active());
    let c = spinner.current_char();
    assert!(SPINNER_CHARS.contains(&c));
    spinner.set_message("Fetch");
    assert_eq!(spinner.message(), "Fetch");
    let line = render_inline(&mut spinner);
    assert_eq!(line.len(), 3);
    assert!(SPINNER_CHARS.contains(&line[0].text.as_str()));
    assert_eq!(line[1].text, " ");
    assert_eq!(line[2].text, "Fetch");
    assert!(spinner.current_frame() < 10);
}
