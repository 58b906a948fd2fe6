use rofi_todo::color::Color;
use rofi_todo::present::Colors;
use rofi_todo::store::{tasks_from_text, tasks_to_text};
use rofi_todo::task::{Task, NO_PRIORITY};
use rofi_todo::text::remove_occurrences;

fn colors() -> Colors {
    Colors {
        priority: Color::rgb(255, 0, 0),
        project: Color::rgb(0, 128, 0),
        context: Color::rgb(255, 165, 0),
    }
}

#[test]
fn tag_extraction() {
    let t = Task::new("(A) Buy milk +errands @store");
    assert_eq!(t.priority, 0);
    assert!(!t.finished);
    assert_eq!(t.projects, vec!["errands".to_string()]);
    assert_eq!(t.contexts, vec!["store".to_string()]);
    assert!(t.hashtags.is_empty());
    assert_eq!(t.subject, "Buy milk +errands @store");
    assert_eq!(t.stripped_subject(), "Buy milk");
}

#[test]
fn parse_markers() {
    let t = Task::new("x (C) Water plants #garden");
    assert!(t.finished);
    assert_eq!(t.priority, 2);
    assert_eq!(t.subject, "Water plants #garden");
    assert_eq!(t.hashtags, vec!["garden".to_string()]);
    assert_eq!(t.stripped_subject(), "Water plants");

    let plain = Task::new("Just words");
    assert!(!plain.finished);
    assert_eq!(plain.priority, NO_PRIORITY);
}

#[test]
fn serialize_canonical_line() {
    assert_eq!(Task::new("(A) Buy milk +errands @store").serialize(), "(A) Buy milk +errands @store");
    assert_eq!(Task::new("x Done thing").serialize(), "x Done thing");
    assert_eq!(Task::new("Plain").serialize(), "Plain");
}

#[test]
fn round_trip_reparse() {
    let lines = [
        "(A) Buy milk +errands @store",
        "x (B) 2024-01-02 2023-12-31 Pay rent +home due:2024-01-05",
        "2023-05-06 Call mom @phone key:value",
        "plain task #tag",
    ];
    for line in lines {
        let t = Task::new(line);
        let again = Task::new(&t.serialize());
        assert_eq!(t, again, "line {line}");
    }
}

#[test]
fn serialize_keeps_dates_and_tags() {
    let line = "x (B) 2024-01-02 2023-12-31 Pay rent +home due:2024-01-05";
    assert_eq!(Task::new(line).serialize(), line);
}

#[test]
fn complete_then_uncomplete_restores() {
    let mut t = Task::new("2023-05-06 Call mom @phone");
    let before = t.clone();
    t.complete();
    assert!(t.finished);
    assert_eq!(t.subject, before.subject);
    t.uncomplete();
    assert_eq!(t, before);
}

#[test]
fn update_replaces_subject_and_tags_only() {
    let mut t = Task::new("x (B) Old +a @b #c");
    t.update("(A) New words +p @q");
    assert!(t.finished);
    assert_eq!(t.priority, 1);
    assert_eq!(t.subject, "New words +p @q");
    assert_eq!(t.projects, vec!["p".to_string()]);
    assert_eq!(t.contexts, vec!["q".to_string()]);
    assert!(t.hashtags.is_empty());
}

#[test]
fn remove_occurrences_from_left() {
    assert_eq!(remove_occurrences("a +x b +x", " +x"), "a b");
    assert_eq!(remove_occurrences("aaa", "aa"), "a");
    assert_eq!(remove_occurrences("", " +x"), "");
    assert_eq!(remove_occurrences("abc", ""), "abc");
}

#[test]
fn color_as_rgba_hex() {
    assert_eq!(Color::rgb(0, 128, 0).display_rgba(), "#008000FF");
    assert_eq!(Color { r: 1, g: 171, b: 255, a: 16 }.display_rgba(), "#01ABFF10");
}

#[test]
fn markup_of_task() {
    let t = Task::new("(A) Buy milk +errands @store");
    assert_eq!(
        t.pango_string(&colors()),
        "<span fgcolor='#FF0000FF'><b>A</b></span> Buy milk \
         <span fgcolor='#FFA500FF'>@store</span> <span fgcolor='#008000FF'>+errands</span>"
    );
    let done = Task::new("x Walk +dog +park");
    assert_eq!(
        done.pango_string(&colors()),
        "<span alpha='60%'><span fgcolor='#FF0000FF'><b></b></span> Walk  \
         <span fgcolor='#008000FF'>+dog</span> <span fgcolor='#008000FF'>+park</span></span>"
    );
}

#[test]
fn markup_parts() {
    let t = Task::new("(Z) Read @home @train");
    assert_eq!(t.pango_string_priority(&colors()), "<span fgcolor='#FF0000FF'><b>Z</b></span>");
    assert_eq!(
        t.pango_string_contexts(&colors()),
        "<span fgcolor='#FFA500FF'>@home</span> <span fgcolor='#FFA500FF'>@train</span>"
    );
    assert_eq!(t.pango_string_projects(&colors()), "");
}

#[test]
fn save_then_load_fixed_point() {
    let tasks = tasks_from_text("(A) One +p\nx Two @c\n2023-05-06 Three due:2024-01-01");
    assert_eq!(tasks.len(), 3);
    let text = tasks_to_text(&tasks);
    assert_eq!(text, "(A) One +p\nx Two @c\n2023-05-06 Three due:2024-01-01");
    assert_eq!(tasks_from_text(&text), tasks);
}

#[test]
fn load_skips_blank_lines() {
    let tasks = tasks_from_text("a\n\nb\r\n\n");
    assert_eq!(tasks.len(), 2);
    assert_eq!(tasks[0].subject, "a");
    assert_eq!(tasks[1].subject, "b");
    assert!(tasks_from_text("").is_empty());
    assert_eq!(tasks_to_text(&[]), "");
}
