//! Discrete decisions of an electron-in-a-crystal simulation: which borders and
//! ions an electron is tested against, which collision comes next, what a
//! border does to an electron that reaches it, and the crossing statistics.
//! Positions, velocities and times are real numbers that the simulation holds;
//! the library sees them through their signs, through ordered integer keys and
//! through the outcomes of comparisons.
pub mod sign;
pub mod border;
pub mod selection;
pub mod ion_region;
pub mod counters;
pub mod order;
