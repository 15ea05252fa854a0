//! Breeding of flowers on a grid: Mendelian genetics over allele pairs, a
//! bounded board with neighbour lookups, flower growth, and a tick that grows
//! every flower and then lets each one try to reproduce.
use vstd::prelude::*;

pub mod board;
pub mod breeding;
pub mod flower;
pub mod genetics;
pub mod simulator;

pub use board::{Board, BoardView, Position};
pub use breeding::SpawnDraw;
pub use flower::{Flower, FlowerKind, FlowerState};
pub use genetics::{Allele, Gene, Genome3, Genome4, Picks};
pub use simulator::Simulator;

verus! {

} // verus!
