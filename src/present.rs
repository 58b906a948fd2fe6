use crate::color::{rgba_text, Color};
use crate::task::{Task, TaskView, NO_PRIORITY};
use crate::text::{remove_all, remove_occurrences, string_of};
use vstd::prelude::*;

verus! {

/// The colors a task is drawn in.
#[derive(Clone, Copy, Debug, PartialEq, Eq, Structural)]
pub struct Colors {
    pub priority: Color,
    pub project: Color,
    pub context: Color,
}

/// `s` with each `prefix + tag` removed, one tag after the other.
pub open spec fn strip_tags(s: Seq<char>, tags: Seq<Seq<char>>, prefix: Seq<char>) -> Seq<char>
    decreases tags.len(),
{
    if tags.len() == 0 {
        s
    } else {
        remove_all(strip_tags(s, tags.drop_last(), prefix), prefix + tags.last())
    }
}

/// The subject without its project, context and hashtag tokens, each with the
/// space before it.
pub open spec fn display_subject(t: TaskView) -> Seq<char> {
    strip_tags(
        strip_tags(strip_tags(t.subject, t.projects, " +"@), t.contexts, " @"@),
        t.hashtags,
        " #"@,
    )
}

/// The letter of a priority, or nothing for none.
pub open spec fn priority_letter(p: u8) -> Seq<char> {
    if p < NO_PRIORITY {
        seq![(('A' as u8) + p) as char]
    } else {
        Seq::<char>::empty()
    }
}

/// Text in a span of the given color.
pub open spec fn colored(color: Color, body: Seq<char>) -> Seq<char> {
    "<span fgcolor='"@ + rgba_text(color) + "'>"@ + body + "</span>"@
}

/// The priority, bold and colored.
pub open spec fn priority_markup(p: u8, color: Color) -> Seq<char> {
    colored(color, "<b>"@ + priority_letter(p) + "</b>"@)
}

/// Each tag with its sigil in a colored span, separated by spaces.
pub open spec fn tags_markup(tags: Seq<Seq<char>>, sigil: Seq<char>, color: Color) -> Seq<char>
    decreases tags.len(),
{
    if tags.len() == 0 {
        Seq::<char>::empty()
    } else if tags.len() == 1 {
        colored(color, sigil + tags[0])
    } else {
        tags_markup(tags.drop_last(), sigil, color) + " "@ + colored(color, sigil + tags.last())
    }
}

/// A task as markup: priority, subject, contexts and projects, dimmed when done.
pub open spec fn task_markup(t: TaskView, colors: Colors) -> Seq<char> {
    let body = priority_markup(t.priority, colors.priority) + " "@ + display_subject(t) + " "@
        + tags_markup(t.contexts, "@"@, colors.context) + " "@ + tags_markup(
        t.projects,
        "+"@,
        colors.project,
    );
    if t.finished {
        "<span alpha='60%'>"@ + body + "</span>"@
    } else {
        body
    }
}

/// Removes `prefix + tag` from `s` for each tag in turn.
fn strip_each(s: String, tags: &Vec<String>, prefix: &str) -> (r: String)
    ensures
        r@ == strip_tags(s@, tags@.map_values(|t: String| t@), prefix@),
{
    let ghost tv = tags@.map_values(|t: String| t@);
    let mut cur = s;
    let mut k: usize = 0;
    assert(tv.take(0).len() == 0);
    while k < tags.len()
        invariant
            k <= tags.len(),
            tv == tags@.map_values(|t: String| t@),
            cur@ == strip_tags(s@, tv.take(k as int), prefix@),
        decreases tags.len() - k,
    {
        let mut pat = String::from_str(prefix);
        pat.append(tags[k].as_str());
        cur = remove_occurrences(cur.as_str(), pat.as_str());
        assert(tv.take(k + 1).drop_last() =~= tv.take(k as int));
        k = k + 1;
    }
    assert(tv.take(k as int) =~= tv);
    cur
}

/// `body` in a span of the given color.
fn colored_span(color: Color, body: &str) -> (r: String)
    ensures
        r@ == colored(color, body@),
{
    let mut s = String::from_str("<span fgcolor='");
    s.append(color.display_rgba().as_str());
    s.append("'>");
    s.append(body);
    s.append("</span>");
    s
}

/// The tags with their sigil, each in a colored span.
fn tags_string(tags: &Vec<String>, sigil: &str, color: Color) -> (r: String)
    ensures
        r@ == tags_markup(tags@.map_values(|t: String| t@), sigil@, color),
{
    let ghost tv = tags@.map_values(|t: String| t@);
    let mut s = String::new();
    let mut k: usize = 0;
    while k < tags.len()
        invariant
            k <= tags.len(),
            tv == tags@.map_values(|t: String| t@),
            s@ == tags_markup(tv.take(k as int), sigil@, color),
        decreases tags.len() - k,
    {
        let mut body = String::from_str(sigil);
        body.append(tags[k].as_str());
        let span = colored_span(color, body.as_str());
        assert(tv.take(k + 1).drop_last() =~= tv.take(k as int));
        if k > 0 {
            s.append(" ");
        }
        s.append(span.as_str());
        proof {
            if k == 0 {
                assert(s@ =~= tags_markup(tv.take(k + 1), sigil@, color));
            }
        }
        k = k + 1;
    }
    assert(tv.take(k as int) =~= tv);
    s
}

impl Task {
    /// The subject without its tag tokens, which are shown apart.
    pub fn stripped_subject(&self) -> (r: String)
        ensures
            r@ == display_subject(self@),
    {
        let s = strip_each(self.subject.clone(), &self.projects, " +");
        let s = strip_each(s, &self.contexts, " @");
        strip_each(s, &self.hashtags, " #")
    }

    /// The priority as bold colored markup.
    pub fn pango_string_priority(&self, colors: &Colors) -> (r: String)
        requires
            self.wf(),
        ensures
            r@ == priority_markup(self.priority, colors.priority),
    {
        let mut body = String::from_str("<b>");
        if self.priority < NO_PRIORITY {
            let letter = string_of(&vec![(65u8 + self.priority) as char]);
            body.append(letter.as_str());
        }
        body.append("</b>");
        colored_span(colors.priority, body.as_str())
    }

    /// The projects as colored markup.
    pub fn pango_string_projects(&self, colors: &Colors) -> (r: String)
        ensures
            r@ == tags_markup(self@.projects, "+"@, colors.project),
    {
        tags_string(&self.projects, "+", colors.project)
    }

    /// The contexts as colored markup.
    pub fn pango_string_contexts(&self, colors: &Colors) -> (r: String)
        ensures
            r@ == tags_markup(self@.contexts, "@"@, colors.context),
    {
        tags_string(&self.contexts, "@", colors.context)
    }

    /// The whole task as markup.
    pub fn pango_string(&self, colors: &Colors) -> (r: String)
        requires
            self.wf(),
        ensures
            r@ == task_markup(self@, *colors),
    {
        let mut s = self.pango_string_priority(colors);
        s.append(" ");
        s.append(self.stripped_subject().as_str());
        s.append(" ");
        s.append(self.pango_string_contexts(colors).as_str());
        s.append(" ");
        s.append(self.pango_string_projects(colors).as_str());
        if self.finished {
            let mut dim = String::from_str("<span alpha='60%'>");
            dim.append(s.as_str());
            dim.append("</span>");
            s = dim;
        }
        s
    }
}

} // verus!
