use crate::task::{parsed, serialized, Task, TaskView};
use crate::text::{chars_of, string_of};
use vstd::prelude::*;

verus! {

/// The text split at each `\n`: one piece more than there are newlines.
pub open spec fn split_lines(s: Seq<char>) -> Seq<Seq<char>>
    decreases s.len(),
{
    if s.len() == 0 {
        seq![Seq::<char>::empty()]
    } else {
        let prev = split_lines(s.drop_last());
        if s.last() == '\n' {
            prev.push(Seq::<char>::empty())
        } else {
            prev.update(prev.len() - 1, prev.last().push(s.last()))
        }
    }
}

/// A line without the `\r` of a `\r\n` ending.
pub open spec fn trim_cr(l: Seq<char>) -> Seq<char> {
    if l.len() > 0 && l.last() == '\r' {
        l.drop_last()
    } else {
        l
    }
}

/// The lines that hold a record: each trimmed of `\r`, the empty ones left out.
pub open spec fn records(ls: Seq<Seq<char>>) -> Seq<Seq<char>>
    decreases ls.len(),
{
    if ls.len() == 0 {
        Seq::<Seq<char>>::empty()
    } else if trim_cr(ls.last()).len() == 0 {
        records(ls.drop_last())
    } else {
        records(ls.drop_last()).push(trim_cr(ls.last()))
    }
}

/// The lines of a file's text that hold a record.
pub open spec fn record_lines(text: Seq<char>) -> Seq<Seq<char>> {
    records(split_lines(text))
}

/// Lines joined with `\n` between them.
pub open spec fn join_lines(ls: Seq<Seq<char>>) -> Seq<char>
    decreases ls.len(),
{
    if ls.len() == 0 {
        Seq::<char>::empty()
    } else if ls.len() == 1 {
        ls[0]
    } else {
        join_lines(ls.drop_last()) + seq!['\n'] + ls.last()
    }
}

/// The records a file's text holds, in order.
pub open spec fn loaded(text: Seq<char>) -> Seq<TaskView> {
    record_lines(text).map_values(|l: Seq<char>| parsed(l))
}

/// The text a collection is saved as.
pub open spec fn saved(tasks: Seq<TaskView>) -> Seq<char> {
    join_lines(tasks.map_values(|t: TaskView| serialized(t)))
}

pub open spec fn views(tasks: Seq<Task>) -> Seq<TaskView> {
    tasks.map_values(|t: Task| t@)
}

/// A line that comes back alone from the text it is joined into.
pub open spec fn framed(l: Seq<char>) -> bool {
    l.len() > 0 && !l.contains('\n') && l.last() != '\r'
}

proof fn lemma_split_len(s: Seq<char>)
    ensures
        split_lines(s).len() >= 1,
    decreases s.len(),
{
    if s.len() > 0 {
        lemma_split_len(s.drop_last());
    }
}

proof fn lemma_split_extend(a: Seq<char>, b: Seq<char>)
    requires
        !b.contains('\n'),
    ensures
        split_lines(a + b) == split_lines(a).update(
            split_lines(a).len() - 1,
            split_lines(a).last() + b,
        ),
    decreases b.len(),
{
    lemma_split_len(a);
    if b.len() == 0 {
        assert(a + b =~= a);
        assert(split_lines(a).last() + b =~= split_lines(a).last());
        assert(split_lines(a).update(split_lines(a).len() - 1, split_lines(a).last())
            =~= split_lines(a));
    } else {
        let b0 = b.drop_last();
        assert(!b0.contains('\n')) by {
            if b0.contains('\n') {
                let j = choose|j: int| 0 <= j < b0.len() && b0[j] == '\n';
                assert(b[j] == '\n');
            }
        }
        lemma_split_extend(a, b0);
        assert((a + b).drop_last() =~= a + b0);
        assert(b.last() != '\n') by {
            assert(b[b.len() - 1] == b.last());
        }
        assert((split_lines(a).last() + b0).push(b.last()) =~= split_lines(a).last() + b);
        assert(split_lines(a + b) =~= split_lines(a).update(
            split_lines(a).len() - 1,
            split_lines(a).last() + b,
        ));
    }
}

/// Joining framed lines and splitting the text again gives the same lines.
pub proof fn lemma_records_of_joined(ls: Seq<Seq<char>>)
    requires
        forall|i: int| 0 <= i < ls.len() ==> framed(#[trigger] ls[i]),
    ensures
        record_lines(join_lines(ls)) == ls,
    decreases ls.len(),
{
    if ls.len() == 0 {
        let e = Seq::<char>::empty();
        assert(split_lines(e) == seq![e]);
        assert(seq![e].drop_last() =~= Seq::<Seq<char>>::empty());
        assert(records(Seq::<Seq<char>>::empty()) == Seq::<Seq<char>>::empty());
        assert(trim_cr(seq![e].last()).len() == 0);
        assert(records(split_lines(e)) =~= ls);
    } else {
        let l = ls.last();
        assert(framed(ls[ls.len() - 1]));
        let init = ls.drop_last();
        let before = if ls.len() == 1 {
            Seq::<char>::empty()
        } else {
            join_lines(init) + seq!['\n']
        };
        assert(join_lines(ls) =~= before + l);
        lemma_split_extend(before, l);
        lemma_split_len(before);
        let sb = split_lines(before);
        if ls.len() == 1 {
            assert(sb =~= seq![Seq::<char>::empty()]);
            assert(Seq::<char>::empty() + l =~= l);
            assert(split_lines(join_lines(ls)) =~= seq![l]);
            assert(seq![l].drop_last() =~= Seq::<Seq<char>>::empty());
            assert(records(Seq::<Seq<char>>::empty()) == Seq::<Seq<char>>::empty());
            assert(trim_cr(l) == l);
            assert(seq![l].last() == l);
            assert(records(seq![l]) =~= seq![l]);
            assert(ls =~= seq![l]);
        } else {
            assert forall|i: int| 0 <= i < init.len() implies framed(#[trigger] init[i]) by {
                assert(init[i] == ls[i]);
            }
            lemma_records_of_joined(init);
            assert((join_lines(init) + seq!['\n']).drop_last() =~= join_lines(init));
            assert(sb == split_lines(join_lines(init)).push(Seq::<char>::empty()));
            assert(Seq::<char>::empty() + l =~= l);
            let whole = split_lines(join_lines(init)).push(l);
            assert(split_lines(join_lines(ls)) =~= whole);
            assert(whole.drop_last() =~= split_lines(join_lines(init)));
            assert(records(whole) =~= init.push(l));
            assert(init.push(l) =~= ls);
        }
    }
}

/// Saving a collection and loading its text gives back, in order, what the
/// parser reads from each saved line, provided each line is non-empty, holds
/// no newline and does not end in a carriage return.
pub proof fn lemma_save_then_load(tasks: Seq<TaskView>)
    requires
        forall|i: int| 0 <= i < tasks.len() ==> framed(serialized(#[trigger] tasks[i])),
    ensures
        loaded(saved(tasks)) == tasks.map_values(|t: TaskView| parsed(serialized(t))),
{
    let ls = tasks.map_values(|t: TaskView| serialized(t));
    assert forall|i: int| 0 <= i < ls.len() implies framed(#[trigger] ls[i]) by {
        assert(ls[i] == serialized(tasks[i]));
    }
    lemma_records_of_joined(ls);
    assert(loaded(saved(tasks)) =~= tasks.map_values(|t: TaskView| parsed(serialized(t))));
}

/// Parses each line of a file's text that holds a record.
pub fn tasks_from_text(text: &str) -> (r: Vec<Task>)
    ensures
        views(r@) == loaded(text@),
        forall|i: int| 0 <= i < r.len() ==> (#[trigger] r@[i]).wf(),
{
    let cs = chars_of(text);
    let n = cs.len();
    let mut out: Vec<Task> = Vec::new();
    let mut cur: Vec<char> = Vec::new();
    let mut i: usize = 0;
    assert(cs@.take(0) =~= Seq::<char>::empty());
    assert(split_lines(Seq::<char>::empty()).drop_last() =~= Seq::<Seq<char>>::empty());
    assert(views(out@) =~= Seq::<TaskView>::empty());
    while i < n
        invariant
            n == cs@.len(),
            i <= n,
            split_lines(cs@.take(i as int)).len() >= 1,
            split_lines(cs@.take(i as int)).last() == cur@,
            views(out@) == records(split_lines(cs@.take(i as int)).drop_last()).map_values(
                |l: Seq<char>| parsed(l),
            ),
            forall|k: int| 0 <= k < out.len() ==> (#[trigger] out@[k]).wf(),
        decreases n - i,
    {
        let ghost prev = split_lines(cs@.take(i as int));
        assert(cs@.take(i + 1).drop_last() =~= cs@.take(i as int));
        assert(cs@.take(i + 1).last() == cs@[i as int]);
        let c = cs[i];
        if c == '\n' {
            let ghost done = prev.drop_last();
            if cur.len() > 0 && cur[cur.len() - 1] == '\r' {
                cur.pop();
            }
            assert(cur@ == trim_cr(prev.last()));
            assert(prev.drop_last() =~= done);
            if cur.len() > 0 {
                let line = string_of(&cur);
                let t = Task::new(line.as_str());
                let ghost before = out@;
                out.push(t);
                assert(views(out@) =~= views(before).push(t@));
                assert(records(prev) == records(done).push(cur@));
                assert(records(prev).map_values(|l: Seq<char>| parsed(l)) =~= records(
                    done,
                ).map_values(|l: Seq<char>| parsed(l)).push(parsed(cur@)));
            } else {
                assert(records(prev) == records(done));
            }
            assert(split_lines(cs@.take(i + 1)).drop_last() =~= prev);
            cur = Vec::new();
        } else {
            cur.push(c);
            assert(split_lines(cs@.take(i + 1)).drop_last() =~= prev.drop_last());
        }
        i = i + 1;
    }
    let ghost all = split_lines(cs@.take(n as int));
    assert(cs@.take(n as int) =~= text@);
    if cur.len() > 0 && cur[cur.len() - 1] == '\r' {
        cur.pop();
    }
    assert(cur@ == trim_cr(all.last()));
    if cur.len() > 0 {
        let line = string_of(&cur);
        let t = Task::new(line.as_str());
        let ghost before = out@;
        out.push(t);
        assert(views(out@) =~= views(before).push(t@));
        assert(records(all) == records(all.drop_last()).push(cur@));
        assert(records(all).map_values(|l: Seq<char>| parsed(l)) =~= records(
            all.drop_last(),
        ).map_values(|l: Seq<char>| parsed(l)).push(parsed(cur@)));
    }
    out
}

/// The text a collection is saved as: each task's line, joined with `\n`.
pub fn tasks_to_text(tasks: &[Task]) -> (r: String)
    requires
        forall|i: int| 0 <= i < tasks@.len() ==> (#[trigger] tasks@[i]).wf(),
    ensures
        r@ == saved(views(tasks@)),
{
    let ghost tv = views(tasks@);
    let ghost ls = tv.map_values(|t: TaskView| serialized(t));
    let mut s = String::new();
    let mut k: usize = 0;
    proof {
        reveal_strlit("\n");
    }
    while k < tasks.len()
        invariant
            k <= tasks@.len(),
            tv == views(tasks@),
            ls == tv.map_values(|t: TaskView| serialized(t)),
            s@ == join_lines(ls.take(k as int)),
            "\n"@ == seq!['\n'],
            forall|i: int| 0 <= i < tasks@.len() ==> (#[trigger] tasks@[i]).wf(),
        decreases tasks.len() - k,
    {
        let line = tasks[k].serialize();
        assert(ls.take(k + 1).drop_last() =~= ls.take(k as int));
        assert(ls[k as int] == line@);
        if k > 0 {
            s.append("\n");
        }
        s.append(line.as_str());
        proof {
            if k == 0 {
                assert(s@ =~= join_lines(ls.take(1)));
            }
        }
        k = k + 1;
    }
    assert(ls.take(k as int) =~= ls);
    s
}

} // verus!
