//! Scoped style overrides for Dear ImGui.
//!
//! A styled block applies a list of temporary style overrides, runs a block of
//! drawing code while they are active, and reverts them in reverse order before
//! it returns. An [`OverrideStack`] records which overrides are active and what
//! has been applied and reverted during the frame, so that the stack discipline
//! can be stated and proved.

pub mod gui;
pub mod laws;
pub mod scope;
pub mod stack;
pub mod style;

pub use crate::scope::style_block;
pub use crate::stack::OverrideStack;
pub use crate::style::Event;
pub use crate::style::Style;
