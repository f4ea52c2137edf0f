//! Bindings between native code and an embedding host runtime.
//!
//! Native code exposes functions, record types and events to the host. Two
//! things are kept here. The first is the description of that interface: a
//! registry of declarations, filled by the rules of the annotations and
//! rendered as one module declaration (`annotate`, `decl`, `render`, with the
//! type projector in `project` and the naming rules in `naming`). The second
//! is the passage of values and events: the conversions between native values
//! and host values (`host`, `transfer`, `record`) and the event system that
//! delivers events to the host's listener in the order of their dispatch
//! (`events`).

use vstd::prelude::*;

pub mod annotate;
pub mod decl;
pub mod events;
pub mod host;
pub mod naming;
pub mod project;
pub mod record;
pub mod render;
pub mod syntax;
pub mod text;
pub mod transfer;

verus! {

} // verus!
