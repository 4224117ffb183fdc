use vstd::prelude::*;
use crate::installation::LibraryPlan;

verus! {

/// Where the processing of one library stands: the next archive to fetch,
/// build command to run or copy to make (with whether every command or copy
/// so far succeeded), or the end with the library's overall success.
#[derive(Clone, Copy, Debug, PartialEq, Eq, Structural)]
pub enum Stage {
    Fetch(usize),
    Build(usize, bool),
    Place(usize, bool),
    Finished(bool),
}

/// The copies from the `i`-th on, or the end.
pub open spec fn settle_place(p: LibraryPlan, i: int, ok: bool) -> Stage {
    if i < p.placements@.len() {
        Stage::Place(i as usize, ok)
    } else {
        Stage::Finished(ok)
    }
}

/// The build commands from the `i`-th on, then the copies.
pub open spec fn settle_build(p: LibraryPlan, i: int, ok: bool) -> Stage {
    if i < p.build@.len() {
        Stage::Build(i as usize, ok)
    } else {
        settle_place(p, 0, ok)
    }
}

/// The fetches from the `i`-th on; after them a library whose toolchain is
/// missing fails, the others go on to their build.
pub open spec fn settle_fetch(p: LibraryPlan, i: int) -> Stage {
    if i < p.fetches@.len() {
        Stage::Fetch(i as usize)
    } else if p.toolchain_missing {
        Stage::Finished(false)
    } else {
        settle_build(p, 0, true)
    }
}

/// The stage at which a library's processing begins.
pub open spec fn first_stage(p: LibraryPlan) -> Stage {
    settle_fetch(p, 0)
}

/// The stage after `s`, given whether its action succeeded. A failed fetch
/// ends the library as failed; a failed build command or copy is recorded and
/// the sequence goes on.
pub open spec fn next_stage(p: LibraryPlan, s: Stage, ok: bool) -> Stage {
    match s {
        Stage::Fetch(i) => if ok {
            settle_fetch(p, i + 1)
        } else {
            Stage::Finished(false)
        },
        Stage::Build(i, a) => settle_build(p, i + 1, a && ok),
        Stage::Place(i, a) => settle_place(p, i + 1, a && ok),
        Stage::Finished(b) => Stage::Finished(b),
    }
}

/// The stage names an action of the plan, or the end.
pub open spec fn stage_valid(p: LibraryPlan, s: Stage) -> bool {
    match s {
        Stage::Fetch(i) => i < p.fetches@.len(),
        Stage::Build(i, _) => i < p.build@.len(),
        Stage::Place(i, _) => i < p.placements@.len(),
        Stage::Finished(_) => true,
    }
}

/// The number of actions left, plus one before the end.
pub open spec fn remaining(p: LibraryPlan, s: Stage) -> int {
    match s {
        Stage::Fetch(i) => p.fetches@.len() - i + p.build@.len() + p.placements@.len() + 1,
        Stage::Build(i, _) => p.build@.len() - i + p.placements@.len() + 1,
        Stage::Place(i, _) => p.placements@.len() - i + 1,
        Stage::Finished(_) => 0,
    }
}

/// The first stage of a library's processing.
pub fn start(plan: &LibraryPlan) -> (r: Stage)
    ensures
        r == first_stage(*plan),
        stage_valid(*plan, r),
{
    settle_fetch_exec(plan, 0)
}

fn settle_place_exec(plan: &LibraryPlan, i: usize, ok: bool) -> (r: Stage)
    ensures
        r == settle_place(*plan, i as int, ok),
{
    if i < plan.placements.len() {
        Stage::Place(i, ok)
    } else {
        Stage::Finished(ok)
    }
}

fn settle_build_exec(plan: &LibraryPlan, i: usize, ok: bool) -> (r: Stage)
    ensures
        r == settle_build(*plan, i as int, ok),
{
    if i < plan.build.len() {
        Stage::Build(i, ok)
    } else {
        settle_place_exec(plan, 0, ok)
    }
}

fn settle_fetch_exec(plan: &LibraryPlan, i: usize) -> (r: Stage)
    ensures
        r == settle_fetch(*plan, i as int),
{
    if i < plan.fetches.len() {
        Stage::Fetch(i)
    } else if plan.toolchain_missing {
        Stage::Finished(false)
    } else {
        settle_build_exec(plan, 0, true)
    }
}

/// The stage after `stage`, given whether its action succeeded. Each step
/// brings the end closer, so every library's processing finishes.
pub fn advance(plan: &LibraryPlan, stage: Stage, ok: bool) -> (r: Stage)
    requires
        stage_valid(*plan, stage),
    ensures
        r == next_stage(*plan, stage, ok),
        stage_valid(*plan, r),
        !(stage is Finished) ==> 0 <= remaining(*plan, r) < remaining(*plan, stage),
{
    // An index below its list's length leaves room for the next one.
    let _ = (plan.fetches.len(), plan.build.len(), plan.placements.len());
    match stage {
        Stage::Fetch(i) => if ok {
            settle_fetch_exec(plan, i + 1)
        } else {
            Stage::Finished(false)
        },
        Stage::Build(i, a) => settle_build_exec(plan, i + 1, a && ok),
        Stage::Place(i, a) => settle_place_exec(plan, i + 1, a && ok),
        Stage::Finished(b) => Stage::Finished(b),
    }
}

} // verus!
