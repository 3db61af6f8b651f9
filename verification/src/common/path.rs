//! Paths as lists of components: the part that two paths share, and one
//! path as seen from another.

use vstd::prelude::*;
use vstd::string::*;
use crate::common::text::{lemma_push_string, str_eq};

verus! {

/// The number of leading components that two paths share.
pub open spec fn common_len(a: Seq<Seq<char>>, b: Seq<Seq<char>>) -> nat
    decreases a.len(),
{
    if a.len() == 0 || b.len() == 0 || a[0] != b[0] {
        0
    } else {
        1 + common_len(a.drop_first(), b.drop_first())
    }
}

/// The longest run of leading components that two paths share.
pub open spec fn common_path(a: Seq<Seq<char>>, b: Seq<Seq<char>>) -> Seq<Seq<char>> {
    a.take(common_len(a, b) as int)
}

/// `count` times the component that names the parent directory.
pub open spec fn parents(count: nat) -> Seq<Seq<char>> {
    Seq::new(count, |i: int| ".."@)
}

/// A path as seen from a directory: one step up for every component of
/// the directory that the path does not share, then the components of the
/// path that the directory does not share.
pub open spec fn relative_to(path: Seq<Seq<char>>, cwd: Seq<Seq<char>>) -> Seq<Seq<char>> {
    let shared = common_len(path, cwd);
    parents((cwd.len() - shared) as nat) + path.skip(shared as int)
}

/// The shared components are leading components of both paths, and
/// directly behind them the paths differ or one of them ends.
pub proof fn lemma_common_path_is_longest(a: Seq<Seq<char>>, b: Seq<Seq<char>>)
    ensures
        common_len(a, b) <= a.len(),
        common_len(a, b) <= b.len(),
        forall|i: int| 0 <= i < common_len(a, b) ==> a[i] == b[i],
        common_path(a, b) == b.take(common_len(a, b) as int),
        common_len(a, b) < a.len() && common_len(a, b) < b.len() ==> a[common_len(a, b) as int]
            != b[common_len(a, b) as int],
        common_len(a, b) == common_len(b, a),
    decreases a.len(),
{
    if a.len() == 0 || b.len() == 0 || a[0] != b[0] {
        assert(a.take(0) =~= b.take(0));
    } else {
        let (x, y) = (a.drop_first(), b.drop_first());
        lemma_common_path_is_longest(x, y);
        let n = common_len(x, y) as int;
        assert forall|i: int| 0 <= i < n + 1 implies a[i] == b[i] by {
            if i > 0 {
                assert(a[i] == x[i - 1]);
                assert(b[i] == y[i - 1]);
            }
        }
        assert(a.take(n + 1) =~= b.take(n + 1));
        if n < x.len() && n < y.len() {
            assert(a[n + 1] == x[n]);
            assert(b[n + 1] == y[n]);
        }
    }
}

proof fn lemma_common_len_step(a: Seq<Seq<char>>, b: Seq<Seq<char>>, k: int)
    requires
        0 <= k,
        k <= a.len(),
        k <= b.len(),
        forall|i: int| 0 <= i < k ==> a[i] == b[i],
    ensures
        common_len(a, b) == k + common_len(a.skip(k), b.skip(k)),
    decreases k,
{
    if k == 0 {
        assert(a.skip(0) =~= a);
        assert(b.skip(0) =~= b);
    } else {
        assert(a[0] == b[0]);
        let (x, y) = (a.drop_first(), b.drop_first());
        assert forall|i: int| 0 <= i < k - 1 implies x[i] == y[i] by {
            assert(x[i] == a[i + 1]);
            assert(y[i] == b[i + 1]);
        }
        lemma_common_len_step(x, y, k - 1);
        assert(x.skip(k - 1) =~= a.skip(k));
        assert(y.skip(k - 1) =~= b.skip(k));
    }
}

/// The number of leading components that two paths share.
fn shared_components(a: &Vec<String>, b: &Vec<String>) -> (n: usize)
    ensures
        n == common_len(a.deep_view(), b.deep_view()),
{
    let ghost x = a.deep_view();
    let ghost y = b.deep_view();
    let mut n: usize = 0;
    while n < a.len() && n < b.len()
        invariant
            x == a.deep_view(),
            y == b.deep_view(),
            n <= a@.len(),
            n <= b@.len(),
            forall|i: int| 0 <= i < n ==> x[i] == y[i],
        decreases a@.len() - n,
    {
        assert(x[n as int] == a@[n as int]@);
        assert(y[n as int] == b@[n as int]@);
        if !str_eq(a[n].as_str(), b[n].as_str()) {
            proof {
                lemma_common_len_step(x, y, n as int);
                assert(x.skip(n as int)[0] == x[n as int]);
                assert(y.skip(n as int)[0] == y[n as int]);
            }
            return n;
        }
        n = n + 1;
    }
    proof {
        lemma_common_len_step(x, y, n as int);
    }
    n
}

/// The longest run of leading components that two paths share.
pub fn find_common_path(path: &Vec<String>, other: &Vec<String>) -> (r: Vec<String>)
    ensures
        r.deep_view() == common_path(path.deep_view(), other.deep_view()),
{
    let n = shared_components(path, other);
    let mut common_path: Vec<String> = Vec::new();
    let ghost all = path.deep_view();
    proof {
        lemma_common_path_is_longest(all, other.deep_view());
    }
    assert(common_path.deep_view() =~= all.take(0));
    for i in 0..n
        invariant
            n <= path@.len(),
            all == path.deep_view(),
            common_path.deep_view() == all.take(i as int),
    {
        let ghost before = common_path;
        let component = path[i].clone();
        common_path.push(component);
        proof {
            lemma_push_string(before, common_path, component);
            assert(common_path.deep_view() =~= all.take(i + 1));
        }
    }
    common_path
}

/// A path as seen from the directory `cwd`.
pub fn to_relative(path: &Vec<String>, cwd: &Vec<String>) -> (r: Vec<String>)
    ensures
        r.deep_view() == relative_to(path.deep_view(), cwd.deep_view()),
{
    let shared = shared_components(path, cwd);
    let ghost all = path.deep_view();
    proof {
        lemma_common_path_is_longest(all, cwd.deep_view());
    }
    let up = cwd.len() - shared;
    let mut relative: Vec<String> = Vec::new();
    assert(relative.deep_view() =~= parents(0));
    for i in 0..up
        invariant
            relative.deep_view() == parents(i as nat),
    {
        let ghost before = relative;
        let parent = String::from_str("..");
        relative.push(parent);
        proof {
            lemma_push_string(before, relative, parent);
            assert(relative.deep_view() =~= parents((i + 1) as nat));
        }
    }
    let ghost head = relative.deep_view();
    let ghost tail = all.skip(shared as int);
    assert(head + tail.take(0) =~= head);
    for i in shared..path.len()
        invariant
            shared <= path@.len(),
            all == path.deep_view(),
            tail == all.skip(shared as int),
            relative.deep_view() == head + tail.take(i - shared),
    {
        let ghost before = relative;
        let component = path[i].clone();
        relative.push(component);
        proof {
            lemma_push_string(before, relative, component);
            assert(tail[i - shared] == all[i as int]);
            assert(relative.deep_view() =~= head + tail.take(i + 1 - shared));
        }
    }
    proof {
        assert(tail.take(path@.len() - shared) =~= tail);
    }
    relative
}

} // verus!
