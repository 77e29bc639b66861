//! The files of a directory in the order of their names.

use vstd::prelude::*;

verus! {

/// An entry of a directory.
#[derive(Debug, Clone, PartialEq, Eq)]
pub struct DirEntry {
    pub name: String,
    pub is_file: bool,
}

/// Whether a text stands before another one in a dictionary that goes by
/// character codes.
pub open spec fn text_before(left: Seq<char>, right: Seq<char>) -> bool
    decreases left.len(),
{
    if right.len() == 0 {
        false
    } else if left.len() == 0 {
        true
    } else if left[0] == right[0] {
        text_before(left.drop_first(), right.drop_first())
    } else {
        left[0] < right[0]
    }
}

/// Whether an entry comes before another one: by name, and as listed where
/// the names are the same.
pub open spec fn entry_before(entries: Seq<DirEntry>, i: int, j: int) -> bool {
    text_before(entries[i].name@, entries[j].name@) || (entries[i].name@ == entries[j].name@ && i
        < j)
}

/// Whether `order` numbers the files among the entries, all of them, in the
/// order of their names.
pub open spec fn is_listing(order: Seq<usize>, entries: Seq<DirEntry>) -> bool {
    &&& forall|k: int|
        0 <= k < order.len() ==> (#[trigger] order[k]) < entries.len()
            && entries[order[k] as int].is_file
    &&& forall|j: int, k: int|
        0 <= j < k < order.len() ==> entry_before(
            entries,
            #[trigger] order[j] as int,
            #[trigger] order[k] as int,
        )
    &&& forall|i: usize|
        i < entries.len() && entries[i as int].is_file ==> #[trigger] order.contains(i)
}

/// No text stands before itself, and of two texts only one stands before the
/// other.
proof fn lemma_text_asymmetric(left: Seq<char>, right: Seq<char>)
    requires
        text_before(left, right),
    ensures
        !text_before(right, left),
        left != right,
    decreases left.len(),
{
    if left.len() > 0 && left[0] == right[0] {
        lemma_text_asymmetric(left.drop_first(), right.drop_first());
    }
}

proof fn lemma_text_transitive(left: Seq<char>, middle: Seq<char>, right: Seq<char>)
    requires
        text_before(left, middle),
        text_before(middle, right),
    ensures
        text_before(left, right),
    decreases left.len(),
{
    if left.len() > 0 && left[0] == middle[0] && middle[0] == right[0] {
        lemma_text_transitive(left.drop_first(), middle.drop_first(), right.drop_first());
    }
}

proof fn lemma_text_total(left: Seq<char>, right: Seq<char>)
    requires
        !text_before(left, right),
        !text_before(right, left),
    ensures
        left == right,
    decreases left.len(),
{
    if left.len() > 0 && right.len() > 0 {
        lemma_text_total(left.drop_first(), right.drop_first());
        assert(left =~= seq![left[0]] + left.drop_first());
        assert(right =~= seq![right[0]] + right.drop_first());
    } else {
        assert(left =~= right);
    }
}

proof fn lemma_entry_transitive(entries: Seq<DirEntry>, i: int, j: int, k: int)
    requires
        entry_before(entries, i, j),
        entry_before(entries, j, k),
    ensures
        entry_before(entries, i, k),
{
    let (left, middle, right) = (entries[i].name@, entries[j].name@, entries[k].name@);
    if text_before(left, middle) && text_before(middle, right) {
        lemma_text_transitive(left, middle, right);
    }
}

proof fn lemma_entry_asymmetric(entries: Seq<DirEntry>, i: int, j: int)
    requires
        entry_before(entries, i, j),
    ensures
        !entry_before(entries, j, i),
        i != j,
{
    let (left, right) = (entries[i].name@, entries[j].name@);
    if text_before(left, right) {
        lemma_text_asymmetric(left, right);
    } else if text_before(right, left) {
        lemma_text_asymmetric(right, left);
    }
}

/// Whether a text stands before another one.
pub fn stands_before(left: &str, right: &str) -> (before: bool)
    ensures
        before == text_before(left@, right@),
{
    let left_len: usize = left.unicode_len();
    let right_len: usize = right.unicode_len();
    let mut at: usize = 0;
    assert(left@.skip(0) =~= left@);
    assert(right@.skip(0) =~= right@);
    while at < left_len && at < right_len
        invariant
            left_len == left@.len(),
            right_len == right@.len(),
            at <= left_len,
            at <= right_len,
            text_before(left@, right@) == text_before(
                left@.skip(at as int),
                right@.skip(at as int),
            ),
        decreases left_len - at,
    {
        let l: char = left.get_char(at);
        let r: char = right.get_char(at);
        if l != r {
            return l < r;
        }
        proof {
            assert(left@.skip(at as int).drop_first() =~= left@.skip(at + 1));
            assert(right@.skip(at as int).drop_first() =~= right@.skip(at + 1));
        }
        at = at + 1;
    }
    at < right_len
}

/// Numbers the files of a directory in the order of their names.
pub fn file_order(entries: &Vec<DirEntry>) -> (order: Vec<usize>)
    ensures
        is_listing(order@, entries@),
{
    let mut order: Vec<usize> = Vec::new();
    for next in 0..entries.len()
        invariant
            is_listing(order@, entries@.take(next as int)),
    {
        let ghost before = order@;
        let ghost known = entries@.take(next as int);
        let ghost seen = entries@.take(next + 1);
        assert forall|i: int, j: int|
            0 <= i < next && 0 <= j < next && entry_before(known, i, j) implies entry_before(
            seen,
            i,
            j,
        ) by {
            assert(known[i] == seen[i] && known[j] == seen[j]);
        }
        if entries[next].is_file {
            let mut at: usize = 0;
            while at < order.len() && !stands_before(
                entries[next].name.as_str(),
                entries[order[at]].name.as_str(),
            )
                invariant
                    next < entries.len(),
                    at <= order.len(),
                    order@ == before,
                    known == entries@.take(next as int),
                    seen == entries@.take(next + 1),
                    is_listing(before, known),
                    forall|k: int|
                        0 <= k < at ==> entry_before(seen, #[trigger] before[k] as int, next as int),
                decreases order.len() - at,
            {
                proof {
                    let other = before[at as int] as int;
                    assert(entries@[other] == seen[other]);
                    assert(entries@[next as int] == seen[next as int]);
                    if !text_before(seen[other].name@, seen[next as int].name@) {
                        lemma_text_total(seen[other].name@, seen[next as int].name@);
                    }
                }
                at = at + 1;
            }
            order.insert(at, next);
            proof {
                assert(entries@[next as int] == seen[next as int]);
                assert(order@ =~= before.take(at as int).push(next) + before.skip(at as int));
                assert forall|k: int| at <= k < before.len() implies entry_before(
                    seen,
                    next as int,
                    #[trigger] before[k] as int,
                ) by {
                    let first = before[at as int] as int;
                    assert(entries@[first] == seen[first]);
                    assert(entry_before(seen, next as int, first));
                    if at < k {
                        assert(entry_before(known, first, before[k] as int));
                        lemma_entry_transitive(seen, next as int, first, before[k] as int);
                    }
                }
                assert forall|j: int, k: int| 0 <= j < k < order@.len() implies entry_before(
                    seen,
                    #[trigger] order@[j] as int,
                    #[trigger] order@[k] as int,
                ) by {
                    let was_j = if j < at { j } else { j - 1 };
                    let was_k = if k < at { k } else { k - 1 };
                    if j != at && k != at {
                        assert(order@[j] == before[was_j] && order@[k] == before[was_k]);
                        assert(entry_before(known, before[was_j] as int, before[was_k] as int));
                    } else if j == at {
                        assert(order@[k] == before[was_k]);
                    } else {
                        assert(order@[j] == before[was_j]);
                    }
                }
                assert forall|k: int| 0 <= k < order@.len() implies (#[trigger] order@[k])
                    < seen.len() && seen[order@[k] as int].is_file by {
                    if k != at {
                        let was = if k < at { k } else { k - 1 };
                        assert(order@[k] == before[was]);
                        assert(known[before[was] as int] == seen[before[was] as int]);
                    }
                }
                assert forall|i: usize|
                    i < seen.len() && seen[i as int].is_file implies #[trigger] order@.contains(
                    i,
                ) by {
                    if i == next {
                        assert(order@[at as int] == i);
                    } else {
                        assert(known[i as int] == seen[i as int]);
                        assert(before.contains(i));
                        let was = choose|k: int| 0 <= k < before.len() && before[k] == i;
                        let now = if was < at { was } else { was + 1 };
                        assert(order@[now] == i);
                    }
                }
            }
        } else {
            proof {
                assert forall|j: int, k: int| 0 <= j < k < order@.len() implies entry_before(
                    seen,
                    #[trigger] order@[j] as int,
                    #[trigger] order@[k] as int,
                ) by {
                    assert(entry_before(known, order@[j] as int, order@[k] as int));
                }
                assert forall|k: int| 0 <= k < order@.len() implies (#[trigger] order@[k])
                    < seen.len() && seen[order@[k] as int].is_file by {
                    assert(known[order@[k] as int] == seen[order@[k] as int]);
                }
                assert forall|i: usize|
                    i < seen.len() && seen[i as int].is_file implies #[trigger] order@.contains(
                    i,
                ) by {
                    assert(i < next);
                    assert(known[i as int] == seen[i as int]);
                }
            }
        }
    }
    assert(entries@.take(entries@.len() as int) =~= entries@);
    order
}

/// There is only one listing of a directory.
pub proof fn law_listing_unique(entries: Seq<DirEntry>, left: Seq<usize>, right: Seq<usize>)
    requires
        is_listing(left, entries),
        is_listing(right, entries),
    ensures
        left == right,
{
    lemma_same_front(entries, left, right, left.len() as int);
    lemma_same_front(entries, right, left, right.len() as int);
    assert(left =~= right);
}

/// Two listings agree as far as the first one goes.
proof fn lemma_same_front(
    entries: Seq<DirEntry>,
    left: Seq<usize>,
    right: Seq<usize>,
    len: int,
)
    requires
        is_listing(left, entries),
        is_listing(right, entries),
        0 <= len <= left.len(),
    ensures
        len <= right.len(),
        forall|k: int| 0 <= k < len ==> left[k] == right[k],
    decreases len,
{
    if len > 0 {
        let at = len - 1;
        lemma_same_front(entries, left, right, at);
        assert(right.contains(left[at]));
        let there = choose|k: int| 0 <= k < right.len() && right[k] == left[at];
        if there < at {
            assert(entry_before(entries, left[there] as int, left[at] as int));
            lemma_entry_asymmetric(entries, left[there] as int, left[at] as int);
        }
        assert(left.contains(right[at]));
        let back = choose|k: int| 0 <= k < left.len() && left[k] == right[at];
        if there > at {
            assert(entry_before(entries, right[at] as int, right[there] as int));
            lemma_entry_asymmetric(entries, right[at] as int, right[there] as int);
            if back < at {
                assert(left[back] == right[back]);
                assert(entry_before(entries, right[back] as int, right[at] as int));
                lemma_entry_asymmetric(entries, right[back] as int, right[at] as int);
            } else if back > at {
                assert(entry_before(entries, left[at] as int, left[back] as int));
            }
        }
    }
}

/// The first character in which two texts differ decides which one stands
/// first; a text stands before those that it starts.
pub proof fn law_first_difference_decides(
    start: Seq<char>,
    left: char,
    left_rest: Seq<char>,
    right: char,
    right_rest: Seq<char>,
)
    ensures
        left != right ==> (text_before(
            start.push(left) + left_rest,
            start.push(right) + right_rest,
        ) <==> (left as int) < (right as int)),
        text_before(start, start.push(right) + right_rest),
        !text_before(start, start),
        !text_before(start.push(left) + left_rest, start),
    decreases start.len(),
{
    let whole_left = start.push(left) + left_rest;
    let whole_right = start.push(right) + right_rest;
    if start.len() > 0 {
        let tail = start.drop_first();
        law_first_difference_decides(tail, left, left_rest, right, right_rest);
        assert(whole_left.drop_first() =~= tail.push(left) + left_rest);
        assert(whole_right.drop_first() =~= tail.push(right) + right_rest);
        assert(whole_left[0] == start[0] && whole_right[0] == start[0]);
    } else {
        assert(whole_left[0] == left && whole_right[0] == right);
    }
}

/// Two different names are ordered one way or the other, and an order of
/// three is kept.
pub proof fn law_names_are_ordered(left: Seq<char>, middle: Seq<char>, right: Seq<char>)
    ensures
        left != right ==> (text_before(left, right) <==> !text_before(right, left)),
        text_before(left, middle) && text_before(middle, right) ==> text_before(left, right),
{
    if !text_before(left, right) && !text_before(right, left) {
        lemma_text_total(left, right);
    }
    if text_before(left, right) {
        lemma_text_asymmetric(left, right);
    }
    if text_before(left, middle) && text_before(middle, right) {
        lemma_text_transitive(left, middle, right);
    }
}

/// A listing names the files and only the files, none twice, and a file with a
/// smaller name before one with a larger name.
pub proof fn law_listing_names_all_files_once(order: Seq<usize>, entries: Seq<DirEntry>)
    requires
        is_listing(order, entries),
    ensures
        forall|i: usize|
            i < entries.len() ==> (#[trigger] order.contains(i) <==> entries[i as int].is_file),
        forall|j: int, k: int|
            0 <= j < k < order.len() ==> #[trigger] order[j] != #[trigger] order[k]
                && !text_before(entries[order[k] as int].name@, entries[order[j] as int].name@),
{
    assert forall|j: int, k: int| 0 <= j < k < order.len() implies #[trigger] order[j]
        != #[trigger] order[k] && !text_before(
        entries[order[k] as int].name@,
        entries[order[j] as int].name@,
    ) by {
        assert(entry_before(entries, order[j] as int, order[k] as int));
        lemma_entry_asymmetric(entries, order[j] as int, order[k] as int);
    }
}

} // verus!
