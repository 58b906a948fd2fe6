use todo_txt::task::Task as TodoItem;
use vstd::prelude::*;

verus! {

#[verifier::external_type_specification]
#[verifier::external_body]
pub struct ExTodoTask(TodoItem);

/// Relies on the derived `Clone` of todo_txt's task: a copy equal to the
/// original, field by field.
pub assume_specification[ <TodoItem as std::clone::Clone>::clone ](t: &TodoItem) -> (r: TodoItem)
    ensures
        r == *t,
;

/// The number of lettered priorities, `A` to `Z`; it is also the value that
/// stands for "no priority".
pub const NO_PRIORITY: u8 = 26;

/// One task of a todo.txt file.
///
/// `projects`, `contexts` and `hashtags` are the tags found in `subject` when it
/// was last parsed. `rest` carries the dates and `key:value` tags of the line
/// through unread; only they are taken from it when the task is written back.
#[derive(Clone, Debug, PartialEq, Eq)]
pub struct Task {
    pub finished: bool,
    /// `0` is `A`, the highest, up to `25` for `Z`; `NO_PRIORITY` for none.
    pub priority: u8,
    pub subject: String,
    pub projects: Vec<String>,
    pub contexts: Vec<String>,
    pub hashtags: Vec<String>,
    pub rest: TodoItem,
}

/// What a task holds, as mathematical values.
pub ghost struct TaskView {
    pub finished: bool,
    pub priority: u8,
    pub subject: Seq<char>,
    pub projects: Seq<Seq<char>>,
    pub contexts: Seq<Seq<char>>,
    pub hashtags: Seq<Seq<char>>,
    pub rest: TodoItem,
}

pub open spec fn strings_view(v: Seq<String>) -> Seq<Seq<char>> {
    v.map_values(|s: String| s@)
}

impl View for Task {
    type V = TaskView;

    open spec fn view(&self) -> TaskView {
        TaskView {
            finished: self.finished,
            priority: self.priority,
            subject: self.subject@,
            projects: strings_view(self.projects@),
            contexts: strings_view(self.contexts@),
            hashtags: strings_view(self.hashtags@),
            rest: self.rest,
        }
    }
}

/// The task that todo.txt's parser reads from a line.
pub uninterp spec fn parsed(line: Seq<char>) -> TaskView;

/// The line that todo.txt's writer makes of a task.
pub uninterp spec fn serialized(t: TaskView) -> Seq<char>;

/// A line starts with the completion marker `x `.
pub open spec fn has_done_marker(line: Seq<char>) -> bool {
    line.len() >= 2 && line[0] == 'x' && line[1] == ' '
}

/// The completion and priority markers that open the line of a task.
pub open spec fn markers(finished: bool, priority: u8) -> Seq<char> {
    (if finished {
        seq!['x', ' ']
    } else {
        Seq::<char>::empty()
    }) + (if priority < NO_PRIORITY {
        seq!['(', (('A' as u8) + priority) as char, ')', ' ']
    } else {
        Seq::<char>::empty()
    })
}

/// Relies on `todo_txt::parser::task`, which never fails: `finished` is set
/// exactly when the line opens with `x `, and the priority is a letter's
/// ordinal or the default, 26. The tag lists are moved out of the parsed
/// record; what stays in `rest` is carried through.
#[verifier::external_body]
fn parse_line(line: &str) -> (t: Task)
    ensures
        t@ == parsed(line@),
        t.finished == has_done_marker(line@),
        t.priority <= NO_PRIORITY,
{
    let mut s = todo_txt::parser::task(line);
    #[allow(deprecated)]
    let (projects, contexts) = (std::mem::take(&mut s.projects), std::mem::take(&mut s.contexts));
    Task {
        finished: s.finished,
        priority: u8::from(s.priority.clone()),
        subject: std::mem::take(&mut s.subject),
        projects,
        contexts,
        hashtags: std::mem::take(&mut s.hashtags),
        rest: s,
    }
}

/// Relies on the `Display` of `TodoItem`, which writes `x ` when
/// finished, then `(L) ` unless the priority is the default, then the dates,
/// the subject and the `key:value` tags.
#[verifier::external_body]
fn write_line(t: &Task) -> (s: String)
    requires
        t.priority <= NO_PRIORITY,
    ensures
        s@ == serialized(t@),
        s@.len() >= markers(t.finished, t.priority).len(),
        s@.subrange(0, markers(t.finished, t.priority).len() as int) == markers(
            t.finished,
            t.priority,
        ),
{
    let mut s = t.rest.clone();
    s.finished = t.finished;
    s.priority = todo_txt::Priority::from(t.priority);
    s.subject = t.subject.clone();
    s.to_string()
}

impl Task {
    /// The task's invariant: a priority is a letter or none.
    pub open spec fn wf(&self) -> bool {
        self.priority <= NO_PRIORITY
    }

    /// Parses one todo.txt line; this never fails.
    pub fn new(line: &str) -> (t: Task)
        ensures
            t@ == parsed(line@),
            t.wf(),
            t.finished == has_done_marker(line@),
    {
        parse_line(line)
    }

    /// The task as one todo.txt line, which opens with its markers.
    pub fn serialize(&self) -> (s: String)
        requires
            self.wf(),
        ensures
            s@ == serialized(self@),
            s@.len() >= markers(self.finished, self.priority).len(),
            s@.subrange(0, markers(self.finished, self.priority).len() as int) == markers(
                self.finished,
                self.priority,
            ),
    {
        write_line(self)
    }

    /// Replaces the subject and the tags found in it by those parsed from
    /// `line`; completion, priority, dates and `key:value` tags stay.
    pub fn update(&mut self, line: &str)
        ensures
            final(self)@ == (TaskView {
                subject: parsed(line@).subject,
                projects: parsed(line@).projects,
                contexts: parsed(line@).contexts,
                hashtags: parsed(line@).hashtags,
                ..old(self)@
            }),
    {
        let edited = parse_line(line);
        self.subject = edited.subject;
        self.projects = edited.projects;
        self.contexts = edited.contexts;
        self.hashtags = edited.hashtags;
    }

    /// Marks the task as done; nothing else changes.
    pub fn complete(&mut self)
        ensures
            *final(self) == completed(*old(self)),
    {
        self.finished = true;
    }

    /// Marks the task as not done; nothing else changes.
    pub fn uncomplete(&mut self)
        ensures
            *final(self) == uncompleted(*old(self)),
    {
        self.finished = false;
    }
}

/// The task marked as done.
pub open spec fn completed(t: Task) -> Task {
    Task { finished: true, ..t }
}

/// The task marked as not done.
pub open spec fn uncompleted(t: Task) -> Task {
    Task { finished: false, ..t }
}

/// Completing a task that is not done and then taking the completion back
/// gives the task as it was.
pub proof fn lemma_complete_then_uncomplete(t: Task)
    requires
        !t.finished,
    ensures
        uncompleted(completed(t)) == t,
{
}

} // verus!
