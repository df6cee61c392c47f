//! Sources of log records: the top-level module named by a hierarchical path.

use vstd::prelude::*;

verus! {

broadcast use vstd::string::group_string_axioms;

/// The separator `::` stands in `path` at index `i`.
pub open spec fn separator_at(path: Seq<char>, i: int) -> bool {
    &&& 0 <= i
    &&& i + 1 < path.len()
    &&& path[i] == ':'
    &&& path[i + 1] == ':'
}

/// The first segment of `path` is made of its first `k` characters: no separator
/// starts before `k`, and at `k` the path ends or a separator starts.
pub open spec fn ends_first_segment(path: Seq<char>, k: int) -> bool {
    &&& 0 <= k <= path.len()
    &&& k < path.len() ==> separator_at(path, k)
    &&& forall|j: int| 0 <= j < k ==> !separator_at(path, j)
}

/// Length of the first segment of `path`.
pub open spec fn first_segment_len(path: Seq<char>) -> int
    decreases path.len(),
{
    if path.len() < 2 {
        path.len() as int
    } else if path[0] == ':' && path[1] == ':' {
        0
    } else {
        1 + first_segment_len(path.drop_first())
    }
}

/// The name given to a source that the path does not tell: `<unknown>`.
pub open spec fn unknown_module() -> Seq<char> {
    seq!['<', 'u', 'n', 'k', 'n', 'o', 'w', 'n', '>']
}

/// The source of a record logged under `path`: the first segment of the path,
/// or `unknown_module()` for the empty path.
pub open spec fn top_level_module(path: Seq<char>) -> Seq<char> {
    if path.len() == 0 {
        unknown_module()
    } else {
        path.take(first_segment_len(path))
    }
}

/// `first_segment_len` is the one place where the first segment ends.
pub proof fn lemma_first_segment_len(path: Seq<char>)
    ensures
        ends_first_segment(path, first_segment_len(path)),
        forall|k: int| ends_first_segment(path, k) ==> k == first_segment_len(path),
    decreases path.len(),
{
    if path.len() >= 2 && !(path[0] == ':' && path[1] == ':') {
        let rest = path.drop_first();
        lemma_first_segment_len(rest);
        let k = first_segment_len(path);
        assert forall|j: int| 0 <= j < k implies !separator_at(path, j) by {
            if j > 0 {
                assert(!separator_at(rest, j - 1));
            }
        }
        if k < path.len() {
            assert(separator_at(rest, k - 1));
        }
    }
    assert forall|k: int| ends_first_segment(path, k) implies k == first_segment_len(path) by {
        let m = first_segment_len(path);
        if k < m {
            assert(separator_at(path, k));
        } else if m < k {
            assert(separator_at(path, m));
        }
    }
}

/// The name of the unknown source as a string.
pub fn unknown_module_name() -> (name: String)
    ensures
        name@ == unknown_module(),
{
    proof {
        reveal_strlit("<unknown>");
    }
    let name = "<unknown>".to_owned();
    assert(name@ =~= unknown_module());
    name
}

/// Returns the top-level module of a record logged under `target`, or `<unknown>`
/// where `target` is empty.
pub fn get_top_level_record_module(target: &str) -> (module: String)
    ensures
        module@ == top_level_module(target@),
{
    let total = target.unicode_len();
    if total == 0 {
        return unknown_module_name();
    }
    let mut end: usize = 0;
    let mut found = false;
    let mut colon = false;
    let mut i: usize = 0;
    for c in it: target.chars()
        invariant
            total == target@.len(),
            i == it.index(),
            it.seq() == target@,
            i <= total,
            found ==> ends_first_segment(target@, end as int),
            !found ==> forall|j: int| 0 <= j < i - 1 ==> !separator_at(target@, j),
            !found ==> (colon <==> (i > 0 && target@[i - 1] == ':')),
    {
        if !found {
            if colon && c == ':' {
                end = i - 1;
                found = true;
            } else {
                colon = c == ':';
            }
        }
        i = i + 1;
    }
    if !found {
        end = total;
    }
    proof {
        lemma_first_segment_len(target@);
    }
    target.substring_char(0, end).to_owned()
}

} // verus!
