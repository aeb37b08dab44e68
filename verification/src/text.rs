//! Small operations on strings, specified over their characters.

use vstd::prelude::*;

verus! {

/// Whether `s` begins with `prefix`. The comparison is by character and
/// case-sensitive; nothing beyond the first `prefix.len()` characters of `s`
/// is looked at.
pub fn starts_with(s: &str, prefix: &str) -> (r: bool)
    ensures
        r == prefix@.is_prefix_of(s@),
{
    let n: usize = prefix.unicode_len();
    if s.unicode_len() < n {
        return false;
    }
    let mut i: usize = 0;
    while i < n
        invariant
            n == prefix@.len(),
            n <= s@.len(),
            i <= n,
            forall|j: int| 0 <= j < i ==> s@[j] == prefix@[j],
        decreases n - i,
    {
        if s.get_char(i) != prefix.get_char(i) {
            assert(s@.subrange(0, n as int)[i as int] != prefix@[i as int]);
            return false;
        }
        i += 1;
    }
    assert(prefix@ =~= s@.subrange(0, n as int));
    true
}

/// Whether `part` stands somewhere in `text`, whole and unbroken.
pub open spec fn occurs_in(part: Seq<char>, text: Seq<char>) -> bool {
    exists|at: int| 0 <= at <= text.len() - part.len() && #[trigger] text.subrange(
        at,
        at + part.len(),
    ) == part
}

/// What stands between two texts occurs in the whole.
pub proof fn lemma_occurs_between(before: Seq<char>, part: Seq<char>, after: Seq<char>)
    ensures
        occurs_in(part, before + part + after),
{
    let text = before + part + after;
    let at = before.len() as int;
    assert(text.subrange(at, at + part.len()) =~= part);
}

/// The first `n` characters of `text`, or all of it where it has fewer.
pub open spec fn head(text: Seq<char>, n: nat) -> Seq<char> {
    if text.len() <= n {
        text
    } else {
        text.take(n as int)
    }
}

/// Whether `name` is one of `list`.
pub fn contains(list: &Vec<String>, name: &String) -> (r: bool)
    ensures
        r == list.deep_view().contains(name@),
{
    let n: usize = list.len();
    let mut i: usize = 0;
    while i < n
        invariant
            i <= n,
            n == list.len(),
            forall|j: int| 0 <= j < i ==> list.deep_view()[j] != name@,
        decreases n - i,
    {
        if list[i] == *name {
            assert(list.deep_view()[i as int] == name@);
            return true;
        }
        i += 1;
    }
    false
}

/// One line for each item, in order: the item between `before` and `after`.
/// Whatever ends a line is part of `after`.
pub open spec fn lines(before: Seq<char>, items: Seq<Seq<char>>, after: Seq<char>) -> Seq<char> {
    items.flat_map(|item: Seq<char>| before + item + after)
}

/// Appends `lines(before, items, after)` to `out`.
pub fn push_lines(out: &mut String, before: &str, items: &Vec<String>, after: &str)
    ensures
        final(out)@ == old(out)@ + lines(before@, items.deep_view(), after@),
{
    let ghost start = out@;
    let ghost all = items.deep_view();
    let ghost line = |item: Seq<char>| before@ + item + after@;
    let n: usize = items.len();
    let mut i: usize = 0;
    proof {
        assert(all.take(0).map_values(line) =~= Seq::<Seq<char>>::empty());
        assert(start + Seq::<char>::empty() =~= start);
    }
    while i < n
        invariant
            i <= n,
            n == items.len(),
            all == items.deep_view(),
            line == |item: Seq<char>| before@ + item + after@,
            out@ == start + all.take(i as int).map_values(line).flatten(),
        decreases n - i,
    {
        out.append(before);
        out.append(items[i].as_str());
        out.append(after);
        proof {
            let done = all.take(i as int).map_values(line);
            assert(all.take(i + 1).map_values(line) =~= done.push(line(all[i as int])));
            done.lemma_flatten_push(line(all[i as int]));
            assert(out@ =~= start + (done.flatten() + line(all[i as int])));
        }
        i += 1;
    }
    assert(all.take(n as int) =~= all);
}

} // verus!
