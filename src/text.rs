use vstd::prelude::*;

verus! {

/// `s` with every occurrence of `pat` removed, scanning from the left and
/// resuming after each removed occurrence, as `str::replace(pat, "")` does.
pub open spec fn remove_all(s: Seq<char>, pat: Seq<char>) -> Seq<char>
    decreases s.len(),
{
    if pat.len() > 0 && pat.len() <= s.len() && s.subrange(0, pat.len() as int) == pat {
        remove_all(s.subrange(pat.len() as int, s.len() as int), pat)
    } else if s.len() == 0 {
        s
    } else {
        seq![s[0]] + remove_all(s.subrange(1, s.len() as int), pat)
    }
}

/// Relies on `str::chars`: the characters of the string, in order.
#[verifier::external_body]
pub(crate) fn chars_of(s: &str) -> (v: Vec<char>)
    ensures
        v@ == s@,
{
    s.chars().collect()
}

/// Relies on `String::from_iter` over characters: the string of them, in order.
#[verifier::external_body]
pub(crate) fn string_of(v: &Vec<char>) -> (s: String)
    ensures
        s@ == v@,
{
    String::from_iter(v.iter())
}

/// Whether `pat` occurs in `s` at position `i`.
fn occurs_at(s: &Vec<char>, i: usize, pat: &Vec<char>) -> (r: bool)
    requires
        i <= s.len(),
    ensures
        r == (pat@.len() <= s@.len() - i && s@.subrange(i as int, i + pat@.len()) == pat@),
{
    if pat.len() > s.len() - i {
        return false;
    }
    let mut k: usize = 0;
    while k < pat.len()
        invariant
            k <= pat.len(),
            pat.len() <= s.len() - i,
            forall|j: int| 0 <= j < k ==> s@[i + j] == pat@[j],
        decreases pat.len() - k,
    {
        if s[i + k] != pat[k] {
            assert(s@.subrange(i as int, i + pat@.len())[k as int] != pat@[k as int]);
            return false;
        }
        k = k + 1;
    }
    assert(s@.subrange(i as int, i + pat@.len()) =~= pat@);
    true
}

/// Removes every occurrence of `pat` from `s`, as `remove_all` says.
pub fn remove_occurrences(s: &str, pat: &str) -> (r: String)
    ensures
        r@ == remove_all(s@, pat@),
{
    let cs = chars_of(s);
    let ps = chars_of(pat);
    let n = cs.len();
    let m = ps.len();
    let mut out: Vec<char> = Vec::new();
    let mut i: usize = 0;
    assert(cs@.subrange(0, n as int) =~= cs@);
    assert(out@ + remove_all(cs@, ps@) =~= remove_all(cs@, ps@));
    while i < n
        invariant
            n == cs@.len(),
            m == ps@.len(),
            i <= n,
            out@ + remove_all(cs@.subrange(i as int, n as int), ps@) == remove_all(cs@, ps@),
        decreases n - i,
    {
        let rest = Ghost(cs@.subrange(i as int, n as int));
        if m > 0 && occurs_at(&cs, i, &ps) {
            assert(rest@.subrange(0, m as int) =~= cs@.subrange(i as int, i + m));
            assert(rest@.subrange(m as int, rest@.len() as int) =~= cs@.subrange(
                i + m,
                n as int,
            ));
            i = i + m;
        } else {
            assert(!(m > 0 && m <= rest@.len() && rest@.subrange(0, m as int) == ps@)) by {
                if m > 0 && m <= rest@.len() {
                    assert(rest@.subrange(0, m as int) =~= cs@.subrange(i as int, i + m));
                }
            }
            assert(rest@.subrange(1, rest@.len() as int) =~= cs@.subrange(i + 1, n as int));
            let ghost before = out@;
            out.push(cs[i]);
            assert(before + remove_all(rest@, ps@) =~= out@ + remove_all(
                cs@.subrange(i + 1, n as int),
                ps@,
            ));
            i = i + 1;
        }
    }
    assert(cs@.subrange(n as int, n as int) =~= Seq::<char>::empty());
    assert(out@ + remove_all(Seq::<char>::empty(), ps@) =~= out@);
    string_of(&out)
}

} // verus!
