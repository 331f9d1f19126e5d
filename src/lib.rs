//! Host-side logic of a GPU slime-mould (Physarum) simulation: frame timing,
//! simulation time, the per-frame pass schedule and the byte layout of the
//! parameter block handed to the simulation kernel.

pub mod frame;
pub mod layout;
pub mod settings;
pub mod timer;
