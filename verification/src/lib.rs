//! Decision logic of the ironmlx serving engine.
//!
//! Requests are served in batches by an actor that owns a scheduler and a model. What the actor
//! decides is here; the scheduler, the model, the clock, files and the network are outside. Where a
//! decision needs an outcome of theirs, it is written as a step: it is told what happened and says
//! what to do next.
//!
//! - [`actor`], [`driver`] and its rules and laws: who gets a row of the batch, and when.
//! - [`admission`]: the rules of admission, and the fairness between it and decoding.
//! - [`modes`] with [`lookup_mode`], [`neural_mode`] and [`hybrid_mode`]: how a batch is decoded,
//!   and [`lookup_window`]: when drafts out of the prompt are worth a window.
//! - [`memory_budget`] and [`fraction`]: how much of the cache the machine can hold.
//! - [`counters`], [`health`] and [`lookup_health`]: what is published about all this.
//! - [`hf_transfer`] and [`sha256`]: the verified transfer of a model file.
pub mod actor;
pub mod admission;
pub mod admission_laws;
pub mod budget_laws;
pub mod counters;
pub mod driver;
pub mod driver_answers;
pub mod driver_entry;
pub mod driver_idle;
pub mod driver_laws;
pub mod driver_order;
pub mod driver_reports;
pub mod driver_rules;
pub mod driver_runs;
pub mod driver_service;
pub mod driver_tally;
pub mod driver_types;
pub mod fraction;
pub mod health;
pub mod health_laws;
pub mod hf_transfer;
pub mod hybrid_mode;
pub mod lookup_health;
pub mod lookup_mode;
pub mod lookup_window;
pub mod memory_budget;
pub mod mode_laws;
pub mod mode_records;
pub mod mode_types;
pub mod modes;
pub mod neural_mode;
pub mod prefix_blocks;
pub mod process_memory;
pub mod prompt_lookup;
pub mod sha256;
pub mod speculative;
pub mod stats_laws;
pub mod text;
pub mod text_laws;
pub mod transfer_laws;
pub mod window_laws;
