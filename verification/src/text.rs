//! Small helpers on strings and lists of strings.

use vstd::prelude::*;
use vstd::string::StrSliceExecFns;

verus! {

/// The character sequences of a list of strings, in order.
pub open spec fn texts(items: Seq<String>) -> Seq<Seq<char>> {
    Seq::new(items.len(), |i: int| items[i]@)
}

/// Whether two string slices hold the same characters.
pub fn same_text(a: &str, b: &str) -> (r: bool)
    ensures
        r == (a@ == b@),
{
    let left: String = a.to_owned();
    let right: String = b.to_owned();
    left == right
}

/// Whether `c` occurs in `s`.
pub fn holds_char(s: &str, c: char) -> (r: bool)
    ensures
        r == s@.contains(c),
{
    let n: usize = s.unicode_len();
    let mut i: usize = 0;
    while i < n
        invariant
            i <= n,
            n == s@.len(),
            forall|j: int| 0 <= j < i ==> s@[j] != c,
        decreases n - i,
    {
        if s.get_char(i) == c {
            assert(s@[i as int] == c);
            return true;
        }
        i = i + 1;
    }
    false
}

/// An owned copy of `s`.
pub fn owned(s: &str) -> (r: String)
    ensures
        r@ == s@,
{
    s.to_owned()
}

/// `head` followed by `tail`.
pub fn joined(head: &str, tail: &str) -> (r: String)
    ensures
        r@ == head@ + tail@,
{
    let mut out: String = head.to_owned();
    out.append(tail);
    out
}

/// Appends a copy of `item` to `list`.
pub fn push_text(list: &mut Vec<String>, item: &str)
    ensures
        texts(final(list)@) == texts(old(list)@).push(item@),
{
    list.push(item.to_owned());
    assert(texts(list@) =~= texts(old(list)@).push(item@));
}

/// Appends a copy of every string of `more` to `list`, in order.
pub fn push_texts(list: &mut Vec<String>, more: &Vec<String>)
    ensures
        texts(final(list)@) == texts(old(list)@) + texts(more@),
{
    let mut i: usize = 0;
    while i < more.len()
        invariant
            i <= more.len(),
            texts(list@) == texts(old(list)@) + texts(more@.subrange(0, i as int)),
        decreases more.len() - i,
    {
        push_text(list, more[i].as_str());
        assert(texts(more@.subrange(0, i + 1)) =~= texts(more@.subrange(0, i as int)).push(more@[i as int]@));
        assert((texts(old(list)@) + texts(more@.subrange(0, i as int))).push(more@[i as int]@)
            =~= texts(old(list)@) + texts(more@.subrange(0, i + 1)));
        i = i + 1;
    }
    assert(more@.subrange(0, i as int) =~= more@);
}

/// Whether two lists hold the same strings in the same order.
pub fn same_texts(a: &Vec<String>, b: &Vec<String>) -> (r: bool)
    ensures
        r == (texts(a@) == texts(b@)),
{
    if a.len() != b.len() {
        assert(texts(a@).len() != texts(b@).len());
        return false;
    }
    let mut i: usize = 0;
    while i < a.len()
        invariant
            i <= a.len(),
            a.len() == b.len(),
            forall|j: int| 0 <= j < i ==> a@[j]@ == b@[j]@,
        decreases a.len() - i,
    {
        if !same_text(a[i].as_str(), b[i].as_str()) {
            assert(texts(a@)[i as int] != texts(b@)[i as int]);
            return false;
        }
        i = i + 1;
    }
    assert(texts(a@) =~= texts(b@));
    true
}

/// The items of `items`, each but the first after one space.
pub open spec fn spaced(items: Seq<Seq<char>>) -> Seq<char>
    decreases items.len(),
{
    if items.len() == 0 {
        Seq::empty()
    } else if items.len() == 1 {
        items[0]
    } else {
        spaced(items.drop_last()) + seq![' '] + items.last()
    }
}

/// The strings of `items` on one line, with one space between neighbours.
pub fn join_spaced(items: &Vec<String>) -> (r: String)
    ensures
        r@ == spaced(texts(items@)),
{
    let mut out: String = String::new();
    let mut i: usize = 0;
    while i < items.len()
        invariant
            i <= items.len(),
            out@ == spaced(texts(items@.subrange(0, i as int))),
        decreases items.len() - i,
    {
        let ghost done = texts(items@.subrange(0, i as int));
        let ghost next = texts(items@.subrange(0, i + 1));
        assert(next.drop_last() =~= done);
        assert(next.last() == items@[i as int]@);
        if i > 0 {
            proof {
                reveal_strlit(" ");
                assert(" "@ =~= seq![' ']);
            }
            out.append(" ");
        } else {
            assert(out@ + items@[i as int]@ =~= items@[i as int]@);
        }
        out.append(items[i].as_str());
        i = i + 1;
    }
    assert(items@.subrange(0, i as int) =~= items@);
    out
}

} // verus!
