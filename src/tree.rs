use vstd::prelude::*;

use crate::locations::{contains_id, id_set};
use crate::model::Location;

verus! {

/// `a` sorts before or equal to `b`: lexicographic order of code points,
/// which is how `str` compares.
pub open spec fn text_le(a: Seq<char>, b: Seq<char>) -> bool
    decreases a.len(),
{
    if a.len() == 0 {
        true
    } else if b.len() == 0 {
        false
    } else if a[0] != b[0] {
        (a[0] as u32) < (b[0] as u32)
    } else {
        text_le(a.drop_first(), b.drop_first())
    }
}

/// Relies on `<str as PartialOrd>::le`: lexicographic byte order, which for
/// UTF-8 text is the order of code points.
#[verifier::external_body]
fn name_le(a: &str, b: &str) -> (r: bool)
    ensures
        r == text_le(a@, b@),
{
    a <= b
}

/// Whether location `l` sits directly under `parent` (`None`: the root).
pub open spec fn is_child(l: Location, parent: Option<Seq<char>>) -> bool {
    match (l.parent_id, parent) {
        (None, None) => true,
        (Some(p), Some(q)) => p@ == q,
        _ => false,
    }
}

/// The indices below `k` of the locations under `parent`, in list order.
pub open spec fn children_upto(locs: Seq<Location>, parent: Option<Seq<char>>, k: int) -> Seq<usize>
    decreases k,
{
    if k <= 0 {
        Seq::empty()
    } else if is_child(locs[k - 1], parent) {
        children_upto(locs, parent, k - 1).push((k - 1) as usize)
    } else {
        children_upto(locs, parent, k - 1)
    }
}

/// Inserts index `x` into `s`, kept sorted by name, after every entry whose
/// name sorts before or equal to its own (so equal names keep list order).
pub open spec fn insert_by_name(locs: Seq<Location>, s: Seq<usize>, x: usize) -> Seq<usize>
    decreases s.len(),
{
    if s.len() == 0 {
        seq![x]
    } else if text_le(locs[s.last() as int].name@, locs[x as int].name@) {
        s.push(x)
    } else {
        insert_by_name(locs, s.drop_last(), x).push(s.last())
    }
}

/// `s` stably sorted by name.
pub open spec fn sort_by_name(locs: Seq<Location>, s: Seq<usize>) -> Seq<usize>
    decreases s.len(),
{
    if s.len() == 0 {
        s
    } else {
        insert_by_name(locs, sort_by_name(locs, s.drop_last()), s.last())
    }
}

/// The children of `parent`, sorted by name.
pub open spec fn sorted_children(locs: Seq<Location>, parent: Option<Seq<char>>) -> Seq<usize> {
    sort_by_name(locs, children_upto(locs, parent, locs.len() as int))
}

/// The rows of the tree below the locations `kids`, each at `depth`: a
/// location, then, when it is expanded, the rows of its children one level
/// deeper, then the rows of the next location. At most `fuel` levels are
/// opened below `kids`.
pub open spec fn rows(
    locs: Seq<Location>,
    expanded: Set<Seq<char>>,
    kids: Seq<usize>,
    depth: nat,
    fuel: nat,
) -> Seq<(usize, nat)>
    decreases fuel, kids.len(),
{
    if kids.len() == 0 {
        Seq::empty()
    } else {
        let k = kids[0];
        let below = if fuel > 0 && 0 <= k < locs.len() && expanded.contains(locs[k as int].id@) {
            rows(locs, expanded, sorted_children(locs, Some(locs[k as int].id@)), depth + 1, (fuel - 1) as nat)
        } else {
            Seq::empty()
        };
        seq![(k, depth)] + below + rows(locs, expanded, kids.drop_first(), depth, fuel)
    }
}

/// The rows of the whole tree, roots first: every location under the root,
/// and under each expanded location its children, sorted by name at every
/// level, with its depth. No branch is opened deeper than there are
/// locations.
pub open spec fn visual_tree(locs: Seq<Location>, expanded: Set<Seq<char>>) -> Seq<(usize, nat)> {
    rows(locs, expanded, sorted_children(locs, None), 0, locs.len() as nat)
}

fn collect_children(locs: &Vec<Location>, parent: &Option<String>) -> (r: Vec<usize>)
    ensures
        r@ == children_upto(locs@, match parent { Some(p) => Some(p@), None => None }, locs@.len() as int),
{
    let ghost pv = match parent { Some(p) => Some(p@), None => None };
    let mut out: Vec<usize> = Vec::new();
    let mut i: usize = 0;
    while i < locs.len()
        invariant
            0 <= i <= locs@.len(),
            pv == match parent { Some(p) => Some(p@), None => None::<Seq<char>> },
            out@ == children_upto(locs@, pv, i as int),
        decreases locs@.len() - i,
    {
        let child = match (&locs[i].parent_id, parent) {
            (None, None) => true,
            (Some(p), Some(q)) => *p == *q,
            _ => false,
        };
        if child {
            out.push(i);
        }
        i += 1;
    }
    out
}

fn insert_sorted(locs: &Vec<Location>, s: Vec<usize>, x: usize) -> (r: Vec<usize>)
    requires
        x < locs@.len(),
        forall|j: int| 0 <= j < s@.len() ==> #[trigger] s@[j] < locs@.len(),
    ensures
        r@ == insert_by_name(locs@, s@, x),
        forall|j: int| 0 <= j < r@.len() ==> #[trigger] r@[j] < locs@.len(),
    decreases s@.len(),
{
    let mut s = s;
    if s.len() == 0 {
        s.push(x);
        return s;
    }
    let last = s[s.len() - 1];
    if name_le(locs[last].name.as_str(), locs[x].name.as_str()) {
        s.push(x);
        s
    } else {
        let ghost before = s@;
        let l = s.pop().unwrap();
        assert(s@ == before.drop_last());
        let mut r = insert_sorted(locs, s, x);
        r.push(l);
        r
    }
}

fn sorted_children_of(locs: &Vec<Location>, parent: &Option<String>) -> (r: Vec<usize>)
    ensures
        r@ == sorted_children(locs@, match parent { Some(p) => Some(p@), None => None }),
        forall|j: int| 0 <= j < r@.len() ==> #[trigger] r@[j] < locs@.len(),
{
    let ghost pv = match parent { Some(p) => Some(p@), None => None::<Seq<char>> };
    let kids = collect_children(locs, parent);
    let total = locs.len();
    proof {
        lemma_children_in_range(locs@, pv, total as int);
    }
    let mut out: Vec<usize> = Vec::new();
    let mut i: usize = 0;
    while i < kids.len()
        invariant
            0 <= i <= kids@.len(),
            kids@ == children_upto(locs@, pv, locs@.len() as int),
            forall|j: int| 0 <= j < kids@.len() ==> #[trigger] kids@[j] < locs@.len(),
            out@ == sort_by_name(locs@, kids@.subrange(0, i as int)),
            forall|j: int| 0 <= j < out@.len() ==> #[trigger] out@[j] < locs@.len(),
        decreases kids@.len() - i,
    {
        let x = kids[i];
        proof {
            assert(kids@.subrange(0, i + 1).drop_last() =~= kids@.subrange(0, i as int));
        }
        out = insert_sorted(locs, out, x);
        i += 1;
    }
    assert(kids@.subrange(0, kids@.len() as int) =~= kids@);
    out
}

proof fn lemma_children_in_range(locs: Seq<Location>, parent: Option<Seq<char>>, k: int)
    requires
        k <= locs.len(),
        k <= usize::MAX,
    ensures
        forall|j: int| 0 <= j < children_upto(locs, parent, k).len() ==> #[trigger] children_upto(locs, parent, k)[j] < k,
    decreases k,
{
    if k > 0 {
        lemma_children_in_range(locs, parent, k - 1);
        let prev = children_upto(locs, parent, k - 1);
        if is_child(locs[k - 1], parent) {
            let cur = prev.push((k - 1) as usize);
            assert(cur == children_upto(locs, parent, k));
            assert forall|j: int| 0 <= j < cur.len() implies #[trigger] cur[j] < k by {
                if j < prev.len() {
                    assert(cur[j] == prev[j]);
                }
            }
        } else {
            assert(prev == children_upto(locs, parent, k));
        }
    }
}

fn process_node(
    locs: &Vec<Location>,
    expanded: &Vec<String>,
    kids: &Vec<usize>,
    depth: usize,
    fuel: usize,
    out: &mut Vec<(usize, usize)>,
)
    requires
        depth + fuel <= usize::MAX,
        forall|j: int| 0 <= j < kids@.len() ==> #[trigger] kids@[j] < locs@.len(),
    ensures
        final(out)@.map_values(|r: (usize, usize)| (r.0, r.1 as nat)) == old(out)@.map_values(
            |r: (usize, usize)| (r.0, r.1 as nat),
        ) + rows(locs@, id_set(expanded@), kids@, depth as nat, fuel as nat),
    decreases fuel,
{
    let ghost ex = id_set(expanded@);
    let ghost start = old(out)@.map_values(|r: (usize, usize)| (r.0, r.1 as nat));
    let n = kids.len();
    let mut i: usize = 0;
    assert(kids@.subrange(0, n as int) =~= kids@);
    assert(out@.map_values(|r: (usize, usize)| (r.0, r.1 as nat)) == start);
    while i < n
        invariant
            n == kids@.len(),
            0 <= i <= n,
            depth + fuel <= usize::MAX,
            forall|j: int| 0 <= j < kids@.len() ==> #[trigger] kids@[j] < locs@.len(),
            ex == id_set(expanded@),
            start == old(out)@.map_values(|r: (usize, usize)| (r.0, r.1 as nat)),
            out@.map_values(|r: (usize, usize)| (r.0, r.1 as nat)) + rows(
                locs@,
                ex,
                kids@.subrange(i as int, n as int),
                depth as nat,
                fuel as nat,
            ) == start + rows(locs@, ex, kids@, depth as nat, fuel as nat),
        decreases n - i,
    {
        let k = kids[i];
        let ghost rest = kids@.subrange(i + 1, n as int);
        let ghost cur = kids@.subrange(i as int, n as int);
        assert(cur[0] == k);
        assert(cur.drop_first() =~= rest);
        let ghost before = out@.map_values(|r: (usize, usize)| (r.0, r.1 as nat));
        out.push((k, depth));
        assert(out@.map_values(|r: (usize, usize)| (r.0, r.1 as nat)) =~= before.push((k, depth as nat)));
        if fuel > 0 && contains_id(expanded, &locs[k].id) {
            let ghost mid = out@.map_values(|r: (usize, usize)| (r.0, r.1 as nat));
            let child_parent = Some(locs[k].id.clone());
            let grand = sorted_children_of(locs, &child_parent);
            process_node(locs, expanded, &grand, depth + 1, fuel - 1, out);
            let ghost below = rows(locs@, ex, grand@, (depth + 1) as nat, (fuel - 1) as nat);
            assert(out@.map_values(|r: (usize, usize)| (r.0, r.1 as nat)) == mid + below);
            assert(rows(locs@, ex, cur, depth as nat, fuel as nat) == seq![(k, depth as nat)] + below + rows(
                locs@,
                ex,
                rest,
                depth as nat,
                fuel as nat,
            ));
            assert(before.push((k, depth as nat)) + below + rows(locs@, ex, rest, depth as nat, fuel as nat)
                =~= before + (seq![(k, depth as nat)] + below + rows(locs@, ex, rest, depth as nat, fuel as nat)));
        } else {
            assert(rows(locs@, ex, cur, depth as nat, fuel as nat) == seq![(k, depth as nat)] + Seq::<(usize, nat)>::empty() + rows(
                locs@,
                ex,
                rest,
                depth as nat,
                fuel as nat,
            ));
            assert(before.push((k, depth as nat)) + rows(locs@, ex, rest, depth as nat, fuel as nat)
                =~= before + (seq![(k, depth as nat)] + Seq::<(usize, nat)>::empty() + rows(locs@, ex, rest, depth as nat, fuel as nat)));
        }
        i += 1;
    }
    assert(kids@.subrange(n as int, n as int) =~= Seq::<usize>::empty());
}

/// The rows of the locations tree for display (see `visual_tree`): pairs of
/// an index into `locations` and a depth.
pub fn build_visual_tree(locations: &Vec<Location>, expanded: &Vec<String>) -> (r: Vec<(usize, usize)>)
    ensures
        r@.map_values(|r: (usize, usize)| (r.0, r.1 as nat)) == visual_tree(locations@, id_set(expanded@)),
{
    let roots = sorted_children_of(locations, &None);
    let mut out: Vec<(usize, usize)> = Vec::new();
    process_node(locations, expanded, &roots, 0, locations.len(), &mut out);
    assert(Seq::<(usize, usize)>::empty().map_values(|r: (usize, usize)| (r.0, r.1 as nat)) =~= Seq::<(usize, nat)>::empty());
    assert(Seq::<(usize, nat)>::empty() + visual_tree(locations@, id_set(expanded@)) =~= visual_tree(locations@, id_set(expanded@)));
    out
}

} // verus!
