use vstd::prelude::*;

verus! {

/// Handle to a solver library context; only ever used behind a pointer
/// that the library hands out.
pub struct Context;

/// Handle to the library's post-Newtonian n-body solver.
pub struct PostNewtonianSolver;

/// Handle to the library's ring solver.
pub struct RingSolver;

/// Handle to a set of bodies that a solver evolves.
pub struct NBodySource;

/// Handle to the trajectories that a solver computed for a source.
pub struct NBodySourceData;

} // verus!
