use vstd::prelude::*;

verus! {

/// Most simulated paths handed out for display, whatever the number of draws.
pub const MAX_VISUAL_PATHS: usize = 100;

pub open spec fn visual_count_spec(iterations: int) -> int {
    if iterations < MAX_VISUAL_PATHS {
        iterations
    } else {
        MAX_VISUAL_PATHS as int
    }
}

/// Terminal value of one path that starts from `start`: its last value, or
/// the start itself when the horizon is zero days.
pub open spec fn terminal_of<T>(start: T, path: Seq<T>) -> T {
    if path.len() == 0 {
        start
    } else {
        path.last()
    }
}

/// Number of paths handed out for display: at most 100.
pub fn visual_path_count(iterations: usize) -> (r: usize)
    ensures
        r == visual_count_spec(iterations as int),
{
    if iterations < MAX_VISUAL_PATHS {
        iterations
    } else {
        MAX_VISUAL_PATHS
    }
}

fn copy_path<T: Copy>(path: &Vec<T>) -> (r: Vec<T>)
    ensures
        r@ == path@,
{
    let mut r: Vec<T> = Vec::new();
    let mut t: usize = 0;
    while t < path.len()
        invariant
            t <= path@.len(),
            r@ == path@.take(t as int),
        decreases path@.len() - t,
    {
        r.push(path[t]);
        t = t + 1;
        assert(r@ =~= path@.take(t as int));
    }
    assert(path@.take(path@.len() as int) =~= path@);
    r
}

/// The first paths, unchanged, up to the display cap.
pub fn visual_paths<T: Copy>(paths: &Vec<Vec<T>>) -> (r: Vec<Vec<T>>)
    ensures
        r@.len() == visual_count_spec(paths@.len() as int),
        forall|k: int| 0 <= k < r@.len() ==> #[trigger] r@[k]@ == paths@[k]@,
{
    let n = visual_path_count(paths.len());
    let mut r: Vec<Vec<T>> = Vec::new();
    let mut k: usize = 0;
    while k < n
        invariant
            k <= n,
            n <= paths@.len(),
            n == visual_count_spec(paths@.len() as int),
            r@.len() == k,
            forall|j: int| 0 <= j < k ==> #[trigger] r@[j]@ == paths@[j]@,
        decreases n - k,
    {
        let p = copy_path(&paths[k]);
        r.push(p);
        k = k + 1;
    }
    r
}

/// The terminal value of every path, one per draw and in the order of the
/// draws; none is left out.
pub fn terminal_values<T: Copy>(start: T, paths: &Vec<Vec<T>>) -> (r: Vec<T>)
    ensures
        r@.len() == paths@.len(),
        forall|k: int| 0 <= k < r@.len() ==> #[trigger] r@[k] == terminal_of(start, paths@[k]@),
{
    let mut r: Vec<T> = Vec::new();
    let mut k: usize = 0;
    while k < paths.len()
        invariant
            k <= paths@.len(),
            r@.len() == k,
            forall|j: int| 0 <= j < k ==> #[trigger] r@[j] == terminal_of(start, paths@[j]@),
        decreases paths@.len() - k,
    {
        let path = &paths[k];
        if path.len() == 0 {
            r.push(start);
        } else {
            r.push(path[path.len() - 1]);
        }
        k = k + 1;
    }
    r
}

} // verus!
