//! An interactive-document engine for a resource-control demo: documents
//! mix text with directives that turn switches, set knobs, reset policies,
//! show graphs and jump between documents.
//!
//! - `model`: documents, paragraphs and commands.
//! - `corpus`: load-time checks that every reference resolves.
//! - `state`: the control state that the agent enforces, and what each
//!   switch, knob and reset does to it.
//! - `instances`: the tag-to-instance maps of secondary workloads.
//! - `interp`: executes commands, asking for agent and graph effects in order.
//! - `nav`: jumps, redirects, history and going back.
//! - `reconcile`: what each widget shows for the current state.
//! - `tags`: what substitution tags display.
//! - `render`: the rows of a document body and the widget of each prompt.
//! - `ratio`: fixed-point ratios and slider positions.
//! - `laws`: properties that hold across these functions.

pub mod ratio;
pub mod instances;
pub mod model;
pub mod state;
pub mod interp;
pub mod reconcile;
pub mod corpus;
pub mod nav;
pub mod tags;
pub mod render;
pub mod laws;
