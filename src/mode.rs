use crate::present::{priority_letter, task_markup, Colors};
use crate::store::{loaded, saved, tasks_from_text, tasks_to_text, views};
use crate::task::{parsed, Task, TaskView, NO_PRIORITY};
use crate::text::string_of;
use vstd::prelude::*;

verus! {

/// The number of entries of the modify page.
pub const MODIFY_OPTIONS: usize = 5;

/// The number of entries of the priority page: "none", then the letters.
pub const PRIORITY_ENTRIES: usize = 26;

/// The number of entries of a confirmation page.
pub const CONFIRM_ENTRIES: usize = 2;

/// What can be done to a task, in the order of the modify page.
#[derive(Clone, Copy, Debug, PartialEq, Eq, Structural)]
pub enum ModifyOption {
    Done,
    Subject,
    Priority,
    Delete,
    Back,
}

/// The option shown at an entry of the modify page.
pub open spec fn option_at(i: int) -> ModifyOption {
    if i == 0 {
        ModifyOption::Done
    } else if i == 1 {
        ModifyOption::Subject
    } else if i == 2 {
        ModifyOption::Priority
    } else if i == 3 {
        ModifyOption::Delete
    } else {
        ModifyOption::Back
    }
}

impl ModifyOption {
    /// The option at an entry of the modify page, if there is one.
    pub fn from_repr(i: usize) -> (r: Option<ModifyOption>)
        ensures
            r == (if i < MODIFY_OPTIONS {
                Some(option_at(i as int))
            } else {
                None
            }),
    {
        if i == 0 {
            Some(ModifyOption::Done)
        } else if i == 1 {
            Some(ModifyOption::Subject)
        } else if i == 2 {
            Some(ModifyOption::Priority)
        } else if i == 3 {
            Some(ModifyOption::Delete)
        } else if i == 4 {
            Some(ModifyOption::Back)
        } else {
            None
        }
    }
}

/// The page shown.
#[derive(Clone, Debug, PartialEq, Eq)]
pub enum Menu {
    /// The list of tasks.
    Tasks,
    /// The modify page of a task, or one of its pages below.
    ModifyTask(usize, Option<ModifyOption>),
    /// Confirming a task to add.
    AddTask(Task),
}

/// What the host is to do after an event.
#[derive(Clone, Copy, Debug, PartialEq, Eq, Structural)]
pub enum Action {
    /// Show the entries again and clear the input.
    Reset,
    /// Show the entries again.
    Reload,
    /// End the session.
    Exit,
}

/// What the user did.
#[derive(Clone, Copy, Debug, PartialEq, Eq, Structural)]
pub enum Event {
    /// Escape.
    Cancel,
    /// An entry chosen; `alt` for the alternative binding.
    Select { alt: bool, selected: usize },
    /// Text entered that is no entry.
    CustomInput,
    /// An entry to remove.
    DeleteEntry { selected: usize },
    /// Anything else, which ends the session.
    Other,
}

/// The editor: the tasks, the page shown and a sticky error message.
pub struct Mode {
    pub colors: Colors,
    pub tasks: Vec<Task>,
    pub error: Option<String>,
    pub menu: Menu,
}

pub open spec fn tasks_wf(ts: Seq<Task>) -> bool {
    forall|i: int| 0 <= i < ts.len() ==> (#[trigger] ts[i]).wf()
}

/// The task with its completion flipped.
pub open spec fn toggled(t: Task) -> Task {
    Task { finished: !t.finished, ..t }
}

/// The task with another priority.
pub open spec fn with_priority(t: Task, p: u8) -> Task {
    Task { priority: p, ..t }
}

/// The priority chosen at an entry of the priority page.
pub open spec fn priority_choice(line: int) -> u8 {
    if line == 0 {
        NO_PRIORITY
    } else {
        (line - 1) as u8
    }
}

/// A task after its subject was replaced by the one parsed from `line`.
pub open spec fn subject_updated(t: TaskView, line: Seq<char>) -> TaskView {
    TaskView {
        subject: parsed(line).subject,
        projects: parsed(line).projects,
        contexts: parsed(line).contexts,
        hashtags: parsed(line).hashtags,
        ..t
    }
}

/// The same editor, but for the tasks and the page.
pub open spec fn same_but_page(s: Mode, n: Mode) -> bool {
    n.colors == s.colors && n.error == s.error
}

/// An entry chosen with the plain binding.
pub open spec fn ok_post(
    s: Mode,
    n: Mode,
    line: int,
    input: Seq<char>,
    input2: Seq<char>,
    r: Action,
) -> bool {
    same_but_page(s, n) && match s.menu {
        Menu::Tasks => n.tasks@ == s.tasks@ && n.menu == Menu::ModifyTask(line as usize, None)
            && input2 == input && r == Action::Reset,
        Menu::ModifyTask(t, None) => {
            let o = option_at(line);
            if o == ModifyOption::Done {
                n.tasks@ == s.tasks@.update(t as int, toggled(s.tasks@[t as int])) && n.menu
                    == s.menu && input2 == input && r == Action::Reload
            } else if o == ModifyOption::Subject {
                n.tasks@ == s.tasks@ && n.menu == Menu::ModifyTask(
                    t,
                    Some(ModifyOption::Subject),
                ) && input2 == s.tasks@[t as int].subject@ && r == Action::Reload
            } else if o == ModifyOption::Back {
                n.tasks@ == s.tasks@ && n.menu == Menu::Tasks && input2 == input && r
                    == Action::Reset
            } else {
                n.tasks@ == s.tasks@ && n.menu == Menu::ModifyTask(t, Some(o)) && input2 == input
                    && r == Action::Reset
            }
        },
        Menu::ModifyTask(t, Some(ModifyOption::Priority)) => n.tasks@ == s.tasks@.update(
            t as int,
            with_priority(s.tasks@[t as int], priority_choice(line)),
        ) && n.menu == Menu::ModifyTask(t, None) && input2 == input && r == Action::Reset,
        Menu::ModifyTask(t, Some(ModifyOption::Delete)) => input2 == input && r == Action::Reset
            && if line == 0 {
            n.tasks@ == s.tasks@.remove(t as int) && n.menu == Menu::Tasks
        } else {
            n.tasks@ == s.tasks@ && n.menu == Menu::ModifyTask(t, None)
        },
        Menu::ModifyTask(t, Some(_)) => n.tasks@ == s.tasks@ && n.menu == Menu::ModifyTask(t, None)
            && input2 == input && r == Action::Reset,
        Menu::AddTask(p) => n.menu == Menu::Tasks && input2 == input && r == Action::Reset && (
        if line == 0 {
            n.tasks@ == s.tasks@.push(p)
        } else {
            n.tasks@ == s.tasks@
        }),
    }
}

/// An entry chosen with the alternative binding.
pub open spec fn alt_ok_post(
    s: Mode,
    n: Mode,
    line: int,
    input: Seq<char>,
    input2: Seq<char>,
    r: Action,
) -> bool {
    match s.menu {
        Menu::Tasks => same_but_page(s, n) && n.tasks@ == s.tasks@.update(
            line,
            toggled(s.tasks@[line]),
        ) && n.menu == s.menu && input2 == input && r == Action::Reload,
        _ => ok_post(s, n, line, input, input2, r),
    }
}

/// Text entered.
pub open spec fn custom_post(
    s: Mode,
    n: Mode,
    input: Seq<char>,
    input2: Seq<char>,
    r: Action,
) -> bool {
    match s.menu {
        Menu::Tasks => same_but_page(s, n) && n.tasks@ == s.tasks@ && (match n.menu {
            Menu::AddTask(p) => p@ == parsed(input),
            _ => false,
        }) && input2.len() == 0 && r == Action::Reset,
        Menu::ModifyTask(t, Some(ModifyOption::Subject)) => same_but_page(s, n) && n.tasks@
            == s.tasks@.update(t as int, n.tasks@[t as int]) && n.tasks@[t as int]@
            == subject_updated(s.tasks@[t as int]@, input) && n.menu == Menu::ModifyTask(t, None)
            && input2.len() == 0 && r == Action::Reset,
        _ => n == s && input2 == input && r == Action::Reload,
    }
}

/// An entry removed.
pub open spec fn delete_post(s: Mode, n: Mode, line: int, r: Action) -> bool {
    r == Action::Reload && match s.menu {
        Menu::Tasks => same_but_page(s, n) && n.tasks@ == s.tasks@.remove(line) && n.menu
            == s.menu,
        _ => n == s,
    }
}

/// Escape.
pub open spec fn cancel_post(s: Mode, n: Mode, r: Action) -> bool {
    same_but_page(s, n) && n.tasks@ == s.tasks@ && match s.menu {
        Menu::Tasks => n.menu == s.menu && r == Action::Exit,
        Menu::ModifyTask(t, Some(_)) => n.menu == Menu::ModifyTask(t, None) && r == Action::Reset,
        _ => n.menu == Menu::Tasks && r == Action::Reset,
    }
}

/// The label of a page's entry.
pub open spec fn entry_label(m: Mode, line: int) -> Seq<char> {
    match m.menu {
        Menu::Tasks => task_markup(m.tasks@[line]@, m.colors),
        Menu::ModifyTask(t, None) => {
            let o = option_at(line);
            if o == ModifyOption::Done {
                if m.tasks@[t as int].finished {
                    "1. Mark as undone"@
                } else {
                    "1. Mark as done"@
                }
            } else if o == ModifyOption::Subject {
                "2. Edit task"@
            } else if o == ModifyOption::Priority {
                "3. Edit priority"@
            } else if o == ModifyOption::Delete {
                "4. Delete"@
            } else {
                "&#60;- Back"@
            }
        },
        Menu::ModifyTask(_, Some(ModifyOption::Priority)) => if line == 0 {
            "Reset priority"@
        } else {
            priority_letter((line - 1) as u8)
        },
        Menu::ModifyTask(_, Some(ModifyOption::Delete)) | Menu::AddTask(_) => if line == 0 {
            "Confirm"@
        } else if line == 1 {
            "Cancel"@
        } else {
            Seq::<char>::empty()
        },
        Menu::ModifyTask(_, Some(_)) => Seq::<char>::empty(),
    }
}

/// The status line of the editor.
pub open spec fn message_text(m: Mode) -> Seq<char> {
    match m.error {
        Some(e) => "<span fgcolor='red'>"@ + e@ + "</span>"@,
        None => match m.menu {
            Menu::Tasks => Seq::<char>::empty(),
            Menu::ModifyTask(t, None) => "Task: "@ + task_markup(m.tasks@[t as int]@, m.colors),
            Menu::ModifyTask(t, Some(ModifyOption::Delete)) => "Delete: "@ + task_markup(
                m.tasks@[t as int]@,
                m.colors,
            ),
            Menu::ModifyTask(t, Some(ModifyOption::Priority)) => "Priority: "@ + task_markup(
                m.tasks@[t as int]@,
                m.colors,
            ),
            Menu::ModifyTask(t, Some(_)) => "Edit: "@ + task_markup(m.tasks@[t as int]@, m.colors),
            Menu::AddTask(p) => "Add: "@ + task_markup(p@, m.colors),
        },
    }
}

impl Mode {
    /// The editor's invariant: the tasks are well formed and the page shown
    /// refers to a task that exists.
    pub open spec fn wf(&self) -> bool {
        tasks_wf(self.tasks@) && match self.menu {
            Menu::Tasks => true,
            Menu::ModifyTask(t, _) => t < self.tasks@.len(),
            Menu::AddTask(p) => p.wf(),
        }
    }

    /// The number of entries of the page shown.
    pub open spec fn entry_count(&self) -> nat {
        match self.menu {
            Menu::Tasks => self.tasks@.len(),
            Menu::ModifyTask(_, None) => MODIFY_OPTIONS as nat,
            Menu::ModifyTask(_, Some(ModifyOption::Priority)) => PRIORITY_ENTRIES as nat,
            Menu::ModifyTask(_, Some(ModifyOption::Delete)) => CONFIRM_ENTRIES as nat,
            Menu::ModifyTask(_, Some(_)) => 0,
            Menu::AddTask(_) => CONFIRM_ENTRIES as nat,
        }
    }

    /// Whether an entry of the page shown can be chosen: on the pages that
    /// list a fixed set of entries, one of them; on the confirmation pages,
    /// any entry other than the first cancels.
    pub open spec fn selectable(&self, line: usize) -> bool {
        match self.menu {
            Menu::Tasks => line < self.tasks@.len(),
            Menu::ModifyTask(_, None) => line < MODIFY_OPTIONS,
            Menu::ModifyTask(_, Some(ModifyOption::Priority)) => line < PRIORITY_ENTRIES,
            _ => true,
        }
    }

    /// Starts on the task list with the text read from the store, or with no
    /// task and the error that reading gave.
    pub fn new(colors: Colors, contents: Result<String, String>) -> (m: Mode)
        ensures
            m.wf(),
            m.menu == Menu::Tasks,
            m.colors == colors,
            match contents {
                Ok(text) => views(m.tasks@) == loaded(text@) && m.error.is_none(),
                Err(e) => m.tasks@.len() == 0 && m.error == Some(e),
            },
    {
        match contents {
            Ok(text) => Mode {
                colors,
                tasks: tasks_from_text(text.as_str()),
                error: None,
                menu: Menu::Tasks,
            },
            Err(e) => Mode { colors, tasks: Vec::new(), error: Some(e), menu: Menu::Tasks },
        }
    }

    /// The text the store is to be rewritten with.
    pub fn save(&self) -> (text: String)
        requires
            self.wf(),
        ensures
            text@ == saved(views(self.tasks@)),
    {
        tasks_to_text(self.tasks.as_slice())
    }

    /// Keeps a message to show in place of the status line.
    pub fn set_error(&mut self, message: String)
        ensures
            final(self).error == Some(message),
            final(self).tasks == old(self).tasks,
            final(self).menu == old(self).menu,
            final(self).colors == old(self).colors,
    {
        self.error = Some(message);
    }

    /// Shows another page.
    pub fn switch_menu(&mut self, menu: Menu) -> (r: Action)
        ensures
            final(self).menu == menu,
            final(self).tasks == old(self).tasks,
            final(self).error == old(self).error,
            final(self).colors == old(self).colors,
            r == Action::Reset,
    {
        self.menu = menu;
        Action::Reset
    }

    /// The name of the page shown.
    pub fn display_name(&self) -> (r: &'static str)
        ensures
            r@ == match self.menu {
                Menu::Tasks => "tasks"@,
                Menu::ModifyTask(_, None) => "modify"@,
                Menu::ModifyTask(_, Some(_)) => "edit"@,
                Menu::AddTask(_) => "add"@,
            },
    {
        match self.menu {
            Menu::Tasks => "tasks",
            Menu::ModifyTask(_, None) => "modify",
            Menu::ModifyTask(_, Some(_)) => "edit",
            Menu::AddTask(_) => "add",
        }
    }

    /// Whether an entry of the page shown can be chosen or labelled.
    pub fn is_selectable(&self, line: usize) -> (r: bool)
        ensures
            r == self.selectable(line),
    {
        match self.menu {
            Menu::Tasks => line < self.tasks.len(),
            Menu::ModifyTask(_, None) => line < MODIFY_OPTIONS,
            Menu::ModifyTask(_, Some(ModifyOption::Priority)) => line < PRIORITY_ENTRIES,
            _ => true,
        }
    }

    /// The number of entries of the page shown.
    pub fn entries(&self) -> (n: usize)
        ensures
            n == self.entry_count(),
    {
        match self.menu {
            Menu::Tasks => self.tasks.len(),
            Menu::ModifyTask(_, None) => MODIFY_OPTIONS,
            Menu::ModifyTask(_, Some(ModifyOption::Priority)) => PRIORITY_ENTRIES,
            Menu::ModifyTask(_, Some(ModifyOption::Delete)) => CONFIRM_ENTRIES,
            Menu::ModifyTask(_, Some(_)) => 0,
            Menu::AddTask(_) => CONFIRM_ENTRIES,
        }
    }

    /// Flips the completion of a task.
    fn toggle(&mut self, i: usize)
        requires
            i < old(self).tasks.len(),
        ensures
            final(self).tasks@ == old(self).tasks@.update(
                i as int,
                toggled(old(self).tasks@[i as int]),
            ),
            final(self).menu == old(self).menu,
            final(self).error == old(self).error,
            final(self).colors == old(self).colors,
    {
        if self.tasks[i].finished {
            self.tasks[i].uncomplete();
        } else {
            self.tasks[i].complete();
        }
    }
}


impl Mode {
    /// Chooses an entry of the page shown.
    pub fn handle_ok(&mut self, line: usize, input: &mut String) -> (r: Action)
        requires
            old(self).wf(),
            old(self).selectable(line),
        ensures
            final(self).wf(),
            ok_post(*old(self), *final(self), line as int, old(input)@, final(input)@, r),
    {
        let mut cur = Menu::Tasks;
        std::mem::swap(&mut cur, &mut self.menu);
        match cur {
            Menu::Tasks => self.switch_menu(Menu::ModifyTask(line, None)),
            Menu::ModifyTask(t, None) => match ModifyOption::from_repr(line) {
                Some(ModifyOption::Done) => {
                    self.toggle(t);
                    self.menu = Menu::ModifyTask(t, None);
                    Action::Reload
                },
                Some(ModifyOption::Subject) => {
                    *input = self.tasks[t].subject.clone();
                    self.switch_menu(Menu::ModifyTask(t, Some(ModifyOption::Subject)));
                    Action::Reload
                },
                Some(ModifyOption::Priority) => self.switch_menu(
                    Menu::ModifyTask(t, Some(ModifyOption::Priority)),
                ),
                Some(ModifyOption::Delete) => self.switch_menu(
                    Menu::ModifyTask(t, Some(ModifyOption::Delete)),
                ),
                _ => self.switch_menu(Menu::Tasks),
            },
            Menu::ModifyTask(t, Some(option)) => {
                match option {
                    ModifyOption::Priority => {
                        self.tasks[t].priority = if line == 0 {
                            NO_PRIORITY
                        } else {
                            (line - 1) as u8
                        };
                    },
                    ModifyOption::Delete => {
                        if line == 0 {
                            self.tasks.remove(t);
                            return self.switch_menu(Menu::Tasks);
                        }
                    },
                    _ => {},
                }
                self.switch_menu(Menu::ModifyTask(t, None))
            },
            Menu::AddTask(task) => {
                if line == 0 {
                    self.tasks.push(task);
                }
                self.switch_menu(Menu::Tasks)
            },
        }
    }

    /// Takes the text entered: on the task list it becomes a task to add, on
    /// the subject page the task's new subject. The input is then cleared.
    pub fn handle_custom_ok(&mut self, input: &mut String) -> (r: Action)
        requires
            old(self).wf(),
        ensures
            final(self).wf(),
            custom_post(*old(self), *final(self), old(input)@, final(input)@, r),
    {
        match self.menu {
            Menu::Tasks => {
                let mut text = String::new();
                std::mem::swap(&mut text, input);
                let task = Task::new(text.as_str());
                self.switch_menu(Menu::AddTask(task))
            },
            Menu::ModifyTask(t, Some(ModifyOption::Subject)) => {
                self.tasks[t].update(input.as_str());
                *input = String::new();
                self.switch_menu(Menu::ModifyTask(t, None))
            },
            _ => Action::Reload,
        }
    }

    /// Removes a task, on the task list only.
    pub fn handle_delete(&mut self, line: usize) -> (r: Action)
        requires
            old(self).wf(),
            old(self).menu == Menu::Tasks ==> line < old(self).tasks.len(),
        ensures
            final(self).wf(),
            delete_post(*old(self), *final(self), line as int, r),
    {
        if let Menu::Tasks = self.menu {
            self.tasks.remove(line);
        }
        Action::Reload
    }

    /// On the task list, flips the completion of a task; elsewhere the same as
    /// `handle_ok`.
    pub fn handle_alt_ok(&mut self, line: usize, input: &mut String) -> (r: Action)
        requires
            old(self).wf(),
            old(self).selectable(line),
        ensures
            final(self).wf(),
            alt_ok_post(*old(self), *final(self), line as int, old(input)@, final(input)@, r),
    {
        match self.menu {
            Menu::Tasks => {
                self.toggle(line);
                Action::Reload
            },
            _ => self.handle_ok(line, input),
        }
    }

    /// Goes one page up; on the task list, ends the session.
    pub fn handle_cancel(&mut self) -> (r: Action)
        requires
            old(self).wf(),
        ensures
            final(self).wf(),
            cancel_post(*old(self), *final(self), r),
    {
        match self.menu {
            Menu::Tasks => Action::Exit,
            Menu::ModifyTask(t, Some(_)) => self.switch_menu(Menu::ModifyTask(t, None)),
            _ => self.switch_menu(Menu::Tasks),
        }
    }

    /// Handles one event. When the result is `Action::Exit` the tasks are to
    /// be saved.
    pub fn react(&mut self, event: Event, input: &mut String) -> (r: Action)
        requires
            old(self).wf(),
            match event {
                Event::Select { selected, .. } => old(self).selectable(selected),
                Event::DeleteEntry { selected } => old(self).menu == Menu::Tasks ==> selected
                    < old(self).tasks.len(),
                _ => true,
            },
        ensures
            final(self).wf(),
            match event {
                Event::DeleteEntry { selected } => delete_post(
                    *old(self),
                    *final(self),
                    selected as int,
                    r,
                ) && final(input)@ == old(input)@,
                Event::Select { alt: false, selected } => ok_post(
                    *old(self),
                    *final(self),
                    selected as int,
                    old(input)@,
                    final(input)@,
                    r,
                ),
                Event::Select { alt: true, selected } => alt_ok_post(
                    *old(self),
                    *final(self),
                    selected as int,
                    old(input)@,
                    final(input)@,
                    r,
                ),
                Event::CustomInput => custom_post(
                    *old(self),
                    *final(self),
                    old(input)@,
                    final(input)@,
                    r,
                ),
                Event::Cancel => cancel_post(*old(self), *final(self), r) && final(input)@ == old(
                    input,
                )@,
                Event::Other => *final(self) == *old(self) && final(input)@ == old(input)@ && r
                    == Action::Exit,
            },
    {
        match event {
            Event::DeleteEntry { selected } => self.handle_delete(selected),
            Event::Select { alt, selected } => if alt {
                self.handle_alt_ok(selected, input)
            } else {
                self.handle_ok(selected, input)
            },
            Event::CustomInput => self.handle_custom_ok(input),
            Event::Cancel => self.handle_cancel(),
            Event::Other => Action::Exit,
        }
    }
}


impl Mode {
    /// The label of an entry of the page shown.
    pub fn menu(&self, line: usize) -> (r: String)
        requires
            self.wf(),
            self.selectable(line),
        ensures
            r@ == entry_label(*self, line as int),
    {
        match &self.menu {
            Menu::Tasks => self.tasks[line].pango_string(&self.colors),
            Menu::ModifyTask(t, None) => match ModifyOption::from_repr(line) {
                Some(ModifyOption::Done) => if self.tasks[*t].finished {
                    String::from_str("1. Mark as undone")
                } else {
                    String::from_str("1. Mark as done")
                },
                Some(ModifyOption::Subject) => String::from_str("2. Edit task"),
                Some(ModifyOption::Priority) => String::from_str("3. Edit priority"),
                Some(ModifyOption::Delete) => String::from_str("4. Delete"),
                _ => String::from_str("&#60;- Back"),
            },
            Menu::ModifyTask(_, Some(ModifyOption::Priority)) => if line == 0 {
                String::from_str("Reset priority")
            } else {
                string_of(&vec![(65u8 + (line - 1) as u8) as char])
            },
            Menu::ModifyTask(_, Some(ModifyOption::Delete)) | Menu::AddTask(_) => if line == 0 {
                String::from_str("Confirm")
            } else if line == 1 {
                String::from_str("Cancel")
            } else {
                String::new()
            },
            Menu::ModifyTask(_, Some(_)) => String::new(),
        }
    }

    /// What incremental search matches an entry against: a task's subject on
    /// the task list, the entry's label elsewhere.
    pub fn match_text(&self, line: usize) -> (r: String)
        requires
            self.wf(),
            self.selectable(line),
        ensures
            r@ == match self.menu {
                Menu::Tasks => self.tasks@[line as int].subject@,
                _ => entry_label(*self, line as int),
            },
    {
        match self.menu {
            Menu::Tasks => self.tasks[line].subject.clone(),
            _ => self.menu(line),
        }
    }

    /// The status line: the sticky error if there is one, else what the page
    /// is about.
    pub fn message(&self) -> (r: String)
        requires
            self.wf(),
        ensures
            r@ == message_text(*self),
    {
        if let Some(error) = &self.error {
            let mut s = String::from_str("<span fgcolor='red'>");
            s.append(error.as_str());
            s.append("</span>");
            return s;
        }
        let (head, markup) = match &self.menu {
            Menu::Tasks => {
                return String::new();
            },
            Menu::ModifyTask(t, None) => ("Task: ", self.tasks[*t].pango_string(&self.colors)),
            Menu::ModifyTask(t, Some(ModifyOption::Delete)) => (
                "Delete: ",
                self.tasks[*t].pango_string(&self.colors),
            ),
            Menu::ModifyTask(t, Some(ModifyOption::Priority)) => (
                "Priority: ",
                self.tasks[*t].pango_string(&self.colors),
            ),
            Menu::ModifyTask(t, Some(_)) => ("Edit: ", self.tasks[*t].pango_string(&self.colors)),
            Menu::AddTask(task) => ("Add: ", task.pango_string(&self.colors)),
        };
        let mut s = String::from_str(head);
        s.append(markup.as_str());
        s
    }
}


/// On the priority page of task `t`, entry 0 takes the priority away and entry
/// `k` sets the letter of ordinal `k - 1`; opening the priority page again from
/// the modify page shows the task with the priority chosen.
pub proof fn lemma_priority_choice_kept(
    s0: Mode,
    s1: Mode,
    s2: Mode,
    t: usize,
    line: usize,
    in0: Seq<char>,
    in1: Seq<char>,
    in2: Seq<char>,
    r1: Action,
    r2: Action,
)
    requires
        s0.wf(),
        s0.menu == Menu::ModifyTask(t, Some(ModifyOption::Priority)),
        line < PRIORITY_ENTRIES,
        ok_post(s0, s1, line as int, in0, in1, r1),
        ok_post(s1, s2, 2, in1, in2, r2),
    ensures
        s1.menu == Menu::ModifyTask(t, None),
        line == 0 ==> s1.tasks@[t as int].priority == NO_PRIORITY,
        line > 0 ==> s1.tasks@[t as int].priority == line - 1,
        s2.menu == Menu::ModifyTask(t, Some(ModifyOption::Priority)),
        s2.tasks@[t as int].priority == s1.tasks@[t as int].priority,
        s2.tasks@.len() == s0.tasks@.len(),
{
}

/// Opening the delete page of task `t` and choosing entry 1 keeps every task
/// and goes back to the modify page; choosing entry 0 removes exactly that task
/// and goes back to the task list.
pub proof fn lemma_delete_confirmation(
    s0: Mode,
    s1: Mode,
    s2: Mode,
    t: usize,
    line: usize,
    in0: Seq<char>,
    in1: Seq<char>,
    in2: Seq<char>,
    r1: Action,
    r2: Action,
)
    requires
        s0.wf(),
        s0.menu == Menu::ModifyTask(t, None),
        ok_post(s0, s1, 3, in0, in1, r1),
        ok_post(s1, s2, line as int, in1, in2, r2),
    ensures
        s1.menu == Menu::ModifyTask(t, Some(ModifyOption::Delete)),
        line == 1 ==> s2.tasks@ == s0.tasks@ && s2.menu == Menu::ModifyTask(t, None),
        line == 0 ==> s2.tasks@ == s0.tasks@.remove(t as int) && s2.tasks@.len() + 1
            == s0.tasks@.len() && s2.menu == Menu::Tasks,
{
}

/// Text entered on the task list becomes a pending task parsed from it;
/// confirming appends that task after all others, cancelling keeps the tasks.
pub proof fn lemma_add_flow(
    s0: Mode,
    s1: Mode,
    s2: Mode,
    line: usize,
    in0: Seq<char>,
    in1: Seq<char>,
    in2: Seq<char>,
    r1: Action,
    r2: Action,
)
    requires
        s0.wf(),
        s0.menu == Menu::Tasks,
        custom_post(s0, s1, in0, in1, r1),
        ok_post(s1, s2, line as int, in1, in2, r2),
    ensures
        s1.tasks@ == s0.tasks@,
        s2.menu == Menu::Tasks,
        line == 0 ==> s2.tasks@.len() == s0.tasks@.len() + 1 && s2.tasks@.drop_last()
            == s0.tasks@ && s2.tasks@.last()@ == parsed(in0),
        line != 0 ==> s2.tasks@ == s0.tasks@,
{
    if line == 0 {
        assert(s2.tasks@.drop_last() =~= s0.tasks@);
    }
}

} // verus!
