//! Block bookkeeping of the time-advance engine: the per-block solution
//! arrays of a radial chain of blocks, the check that they match the mesh,
//! and the ghost exchange that hands each block read-only copies of its
//! neighbours' boundary cells. Blocks are numbered from the innermost
//! outwards; the cell type is whatever the hydrodynamic system evolves.

use vstd::prelude::*;

verus! {

/// The total number of cells over all blocks.
pub open spec fn zone_count<C>(solution: Seq<Vec<C>>) -> int
    decreases solution.len(),
{
    if solution.len() == 0 {
        0
    } else {
        zone_count(solution.drop_last()) + solution.last()@.len()
    }
}

/// Every block has exactly the number of cells that the mesh gives it.
pub open spec fn fits_mesh<C>(solution: Seq<Vec<C>>, cell_counts: Seq<usize>) -> bool {
    &&& solution.len() == cell_counts.len()
    &&& forall|b: int| 0 <= b < solution.len() ==> #[trigger] solution[b]@.len() == cell_counts[b]
}

/// The `ng` cells that block `b` sees past its inner edge: the outermost
/// cells of block `b - 1`, or the boundary cells `inner` at the first block.
pub open spec fn inner_ghosts<C>(solution: Seq<Vec<C>>, b: int, ng: int, inner: Seq<C>) -> Seq<C> {
    if b == 0 {
        inner
    } else {
        let n = solution[b - 1]@.len() as int;
        solution[b - 1]@.subrange(n - ng, n)
    }
}

/// The `ng` cells that block `b` sees past its outer edge: the innermost
/// cells of block `b + 1`, or the boundary cells `outer` at the last block.
pub open spec fn outer_ghosts<C>(solution: Seq<Vec<C>>, b: int, ng: int, outer: Seq<C>) -> Seq<C> {
    if b == solution.len() - 1 {
        outer
    } else {
        solution[b + 1]@.subrange(0, ng)
    }
}

/// Adding blocks never lowers the cell count.
proof fn lemma_zone_count_grows<C>(solution: Seq<Vec<C>>, i: int, j: int)
    requires
        0 <= i <= j <= solution.len(),
    ensures
        zone_count(solution.subrange(0, i)) <= zone_count(solution.subrange(0, j)),
    decreases j - i,
{
    if i < j {
        lemma_zone_count_grows(solution, i, j - 1);
        assert(solution.subrange(0, j).drop_last() =~= solution.subrange(0, j - 1));
    }
}

/// The total number of cells over all blocks, where it fits in a `usize`,
/// and `None` where it does not.
pub fn total_zones<C>(solution: &Vec<Vec<C>>) -> (r: Option<usize>)
    ensures
        r.is_some() <==> zone_count(solution@) <= usize::MAX,
        r.is_some() ==> r.unwrap() == zone_count(solution@),
{
    let mut total: usize = 0;
    let mut b: usize = 0;
    while b < solution.len()
        invariant
            b <= solution.len(),
            total == zone_count(solution@.subrange(0, b as int)),
        decreases solution.len() - b,
    {
        proof {
            assert(solution@.subrange(0, b + 1).drop_last() =~= solution@.subrange(0, b as int));
        }
        let n = solution[b].len();
        if n > usize::MAX - total {
            proof {
                assert(solution@ =~= solution@.subrange(0, solution.len() as int));
                assert(zone_count(solution@.subrange(0, b + 1)) > usize::MAX);
                lemma_zone_count_grows(solution@, b + 1, solution.len() as int);
            }
            return None;
        }
        total = total + n;
        b = b + 1;
    }
    proof {
        assert(solution@ =~= solution@.subrange(0, solution.len() as int));
    }
    Some(total)
}

/// Whether every block has exactly the number of cells that the mesh gives
/// it, one block for each entry of `cell_counts`.
pub fn matches_mesh<C>(solution: &Vec<Vec<C>>, cell_counts: &Vec<usize>) -> (r: bool)
    ensures
        r == fits_mesh(solution@, cell_counts@),
{
    if solution.len() != cell_counts.len() {
        return false;
    }
    let mut b: usize = 0;
    while b < solution.len()
        invariant
            b <= solution.len(),
            solution.len() == cell_counts.len(),
            forall|k: int| 0 <= k < b ==> #[trigger] solution@[k]@.len() == cell_counts@[k],
        decreases solution.len() - b,
    {
        if solution[b].len() != cell_counts[b] {
            return false;
        }
        b = b + 1;
    }
    true
}

/// The cells of block `b` framed by `ng` ghost cells on each side: copies of
/// the outermost cells of the block inside it and of the innermost cells of
/// the block outside it. At the ends of the chain the ghosts are the boundary
/// cells `inner` and `outer` that the model or the physics supplies, so a
/// single block exchanges nothing with any other. The neighbours' arrays are
/// only read.
pub fn extend_with_ghosts<C: Copy>(
    solution: &Vec<Vec<C>>,
    b: usize,
    ng: usize,
    inner: &Vec<C>,
    outer: &Vec<C>,
) -> (r: Vec<C>)
    requires
        b < solution.len(),
        forall|k: int| 0 <= k < solution.len() ==> ng <= #[trigger] solution@[k]@.len(),
        inner@.len() == ng,
        outer@.len() == ng,
    ensures
        r@ == inner_ghosts(solution@, b as int, ng as int, inner@) + solution@[b as int]@
            + outer_ghosts(solution@, b as int, ng as int, outer@),
{
    let mut r: Vec<C> = Vec::new();
    let ghosts_in: &Vec<C> = if b == 0 {
        inner
    } else {
        &solution[b - 1]
    };
    let start: usize = ghosts_in.len() - ng;
    let mut i: usize = start;
    while i < ghosts_in.len()
        invariant
            start <= i <= ghosts_in.len(),
            r@ == ghosts_in@.subrange(start as int, i as int),
        decreases ghosts_in.len() - i,
    {
        r.push(ghosts_in[i]);
        i = i + 1;
    }
    assert(r@ == inner_ghosts(solution@, b as int, ng as int, inner@));
    let ghosts_in_len: usize = r.len();
    let own = &solution[b];
    let mut i: usize = 0;
    while i < own.len()
        invariant
            i <= own.len(),
            ghosts_in_len == r@.len() - i,
            r@ == inner_ghosts(solution@, b as int, ng as int, inner@) + own@.subrange(0, i as int),
        decreases own.len() - i,
    {
        r.push(own[i]);
        i = i + 1;
    }
    assert(own@.subrange(0, own@.len() as int) =~= own@);
    let ghosts_out: &Vec<C> = if b == solution.len() - 1 {
        outer
    } else {
        &solution[b + 1]
    };
    let mut i: usize = 0;
    while i < ng
        invariant
            i <= ng,
            ng <= ghosts_out@.len(),
            r@ == inner_ghosts(solution@, b as int, ng as int, inner@) + own@
                + ghosts_out@.subrange(0, i as int),
        decreases ng - i,
    {
        r.push(ghosts_out[i]);
        i = i + 1;
    }
    proof {
        if b == solution.len() - 1 {
            assert(outer@.subrange(0, ng as int) =~= outer@);
        }
    }
    r
}

} // verus!
