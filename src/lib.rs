//! Sampling, multi-resolution history and display model for small sensor
//! displays: fixed-capacity sample rings with periodic downsampling, a
//! reducer that decides what must be redrawn, and debounced buttons that
//! cycle the active view and unit.

mod queue;
mod ring;

pub mod button;
pub mod frame;
pub mod hist;
pub mod modes;
pub mod sampler;
pub mod screen;
pub mod series;
pub mod temp;
pub mod tester;
pub mod unit;

pub use queue::{queue_items, History, HISTORY_CAPACITY};
pub use ring::{
    bounded_push, lemma_ring_keeps_latest, ring_fill, ring_items, SampleRing, RING_CAPACITY,
};
