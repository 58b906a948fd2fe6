use rofi_todo::color::Color;
use rofi_todo::mode::{Action, Event, Menu, Mode, ModifyOption};
use rofi_todo::present::Colors;
use rofi_todo::task::NO_PRIORITY;

fn colors() -> Colors {
    Colors {
        priority: Color::rgb(255, 0, 0),
        project: Color::rgb(0, 128, 0),
        context: Color::rgb(255, 165, 0),
    }
}

fn mode(text: &str) -> Mode {
    Mode::new(colors(), Ok(text.to_string()))
}

#[test]
fn starts_on_task_list() {
    let m = mode("a\nb");
    assert_eq!(m.menu, Menu::Tasks);
    assert_eq!(m.entries(), 2);
    assert_eq!(m.display_name(), "tasks");
    assert_eq!(m.message(), "");
    assert!(m.error.is_none());
}

#[test]
fn load_error_is_sticky() {
    let mut m = Mode::new(colors(), Err("NotFound".to_string()));
    assert!(m.tasks.is_empty());
    assert_eq!(m.message(), "<span fgcolor='red'>NotFound</span>");
    let mut input = "Write +x".to_string();
    m.react(Event::CustomInput, &mut input);
    assert_eq!(m.message(), "<span fgcolor='red'>NotFound</span>");
}

#[test]
fn priority_menu_indexing() {
    let mut m = mode("(C) a");
    let mut input = String::new();
    assert_eq!(m.handle_ok(0, &mut input), Action::Reset);
    assert_eq!(m.handle_ok(2, &mut input), Action::Reset);
    assert_eq!(m.menu, Menu::ModifyTask(0, Some(ModifyOption::Priority)));
    assert_eq!(m.entries(), 26);
    assert_eq!(m.menu(0), "Reset priority");
    assert_eq!(m.menu(1), "A");
    assert_eq!(m.menu(25), "Y");
    m.handle_ok(0, &mut input);
    assert_eq!(m.tasks[0].priority, NO_PRIORITY);
    assert_eq!(m.menu, Menu::ModifyTask(0, None));
    m.handle_ok(2, &mut input);
    m.handle_ok(4, &mut input);
    assert_eq!(m.tasks[0].priority, 3);
    m.handle_ok(2, &mut input);
    assert_eq!(m.tasks[0].priority, 3);
    assert!(m.message().starts_with("Priority: <span fgcolor='#FF0000FF'><b>D</b></span>"));
}

#[test]
fn delete_confirmation() {
    let mut m = mode("a\nb");
    let mut input = String::new();
    m.handle_ok(0, &mut input);
    m.handle_ok(3, &mut input);
    assert_eq!(m.menu, Menu::ModifyTask(0, Some(ModifyOption::Delete)));
    assert_eq!(m.entries(), 2);
    assert_eq!(m.menu(0), "Confirm");
    assert_eq!(m.menu(1), "Cancel");
    m.handle_ok(1, &mut input);
    assert_eq!(m.tasks.len(), 2);
    assert_eq!(m.menu, Menu::ModifyTask(0, None));
    m.handle_ok(3, &mut input);
    m.handle_ok(0, &mut input);
    assert_eq!(m.tasks.len(), 1);
    assert_eq!(m.tasks[0].subject, "b");
    assert_eq!(m.menu, Menu::Tasks);
}

#[test]
fn add_flow() {
    let mut m = mode("a");
    let mut input = "Call dentist +health".to_string();
    assert_eq!(m.handle_custom_ok(&mut input), Action::Reset);
    assert!(input.is_empty());
    match &m.menu {
        Menu::AddTask(p) => assert_eq!(p.projects, vec!["health".to_string()]),
        other => panic!("unexpected page {other:?}"),
    }
    assert_eq!(m.display_name(), "add");
    assert!(m.message().starts_with("Add: "));
    m.handle_ok(0, &mut input);
    assert_eq!(m.menu, Menu::Tasks);
    assert_eq!(m.tasks.len(), 2);
    assert_eq!(m.tasks[1].subject, "Call dentist +health");

    let mut input = "Another".to_string();
    m.handle_custom_ok(&mut input);
    m.handle_ok(1, &mut input);
    assert_eq!(m.tasks.len(), 2);
    assert_eq!(m.menu, Menu::Tasks);
}

#[test]
fn done_toggles_in_place() {
    let mut m = mode("a");
    let mut input = String::new();
    m.handle_ok(0, &mut input);
    assert_eq!(m.menu(0), "1. Mark as done");
    assert_eq!(m.handle_ok(0, &mut input), Action::Reload);
    assert!(m.tasks[0].finished);
    assert_eq!(m.menu, Menu::ModifyTask(0, None));
    assert_eq!(m.menu(0), "1. Mark as undone");
    assert_eq!(m.menu(1), "2. Edit task");
    assert_eq!(m.menu(2), "3. Edit priority");
    assert_eq!(m.menu(3), "4. Delete");
    assert_eq!(m.menu(4), "&#60;- Back");
    assert_eq!(m.display_name(), "modify");
}

#[test]
fn edit_subject_flow() {
    let mut m = mode("(B) Old words +a");
    let mut input = String::new();
    m.handle_ok(0, &mut input);
    assert_eq!(m.handle_ok(1, &mut input), Action::Reload);
    assert_eq!(input, "Old words +a");
    assert_eq!(m.menu, Menu::ModifyTask(0, Some(ModifyOption::Subject)));
    assert_eq!(m.display_name(), "edit");
    assert_eq!(m.entries(), 0);
    input = "x (A) New words @c".to_string();
    m.handle_custom_ok(&mut input);
    assert!(input.is_empty());
    assert_eq!(m.menu, Menu::ModifyTask(0, None));
    assert_eq!(m.tasks[0].subject, "New words @c");
    assert_eq!(m.tasks[0].priority, 1);
    assert!(!m.tasks[0].finished);
    assert!(m.tasks[0].projects.is_empty());
    assert_eq!(m.tasks[0].contexts, vec!["c".to_string()]);
}

#[test]
fn alt_select_toggles_on_list() {
    let mut m = mode("a\nb");
    let mut input = String::new();
    assert_eq!(m.react(Event::Select { alt: true, selected: 1 }, &mut input), Action::Reload);
    assert!(m.tasks[1].finished);
    assert_eq!(m.menu, Menu::Tasks);
    m.react(Event::Select { alt: false, selected: 1 }, &mut input);
    m.react(Event::Select { alt: true, selected: 4 }, &mut input);
    assert_eq!(m.menu, Menu::Tasks);
}

#[test]
fn delete_entry_only_on_list() {
    let mut m = mode("a\nb");
    let mut input = String::new();
    assert_eq!(m.react(Event::DeleteEntry { selected: 0 }, &mut input), Action::Reload);
    assert_eq!(m.tasks.len(), 1);
    assert_eq!(m.tasks[0].subject, "b");
    m.handle_ok(0, &mut input);
    m.react(Event::DeleteEntry { selected: 0 }, &mut input);
    assert_eq!(m.tasks.len(), 1);
}

#[test]
fn cancel_goes_up() {
    let mut m = mode("a");
    let mut input = String::new();
    m.handle_ok(0, &mut input);
    m.handle_ok(2, &mut input);
    assert_eq!(m.handle_cancel(), Action::Reset);
    assert_eq!(m.menu, Menu::ModifyTask(0, None));
    assert_eq!(m.handle_cancel(), Action::Reset);
    assert_eq!(m.menu, Menu::Tasks);
    assert_eq!(m.react(Event::Cancel, &mut input), Action::Exit);
    assert_eq!(m.react(Event::Other, &mut input), Action::Exit);
    assert_eq!(m.tasks.len(), 1);
}

#[test]
fn save_text_and_error() {
    let mut m = mode("(A) One\nTwo");
    let mut input = String::new();
    m.react(Event::Select { alt: true, selected: 1 }, &mut input);
    assert_eq!(m.save(), "(A) One\nx Two");
    m.set_error("denied".to_string());
    assert_eq!(m.message(), "<span fgcolor='red'>denied</span>");
}

#[test]
fn match_text_by_page() {
    let mut m = mode("(A) Buy milk +errands");
    let mut input = String::new();
    assert_eq!(m.match_text(0), "Buy milk +errands");
    m.handle_ok(0, &mut input);
    assert_eq!(m.match_text(3), "4. Delete");
}

#[test]
fn options_by_index() {
    assert_eq!(ModifyOption::from_repr(0), Some(ModifyOption::Done));
    assert_eq!(ModifyOption::from_repr(4), Some(ModifyOption::Back));
    assert_eq!(ModifyOption::from_repr(5), None);
}
