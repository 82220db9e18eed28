//! Decision logic for bootstrapping a Vulkan rendering context.
//!
//! The library covers the parts of the bootstrap that decide rather than
//! call the driver: assembling instance and device extension lists, the
//! diagnostics-callback field handling, selecting the first queue family
//! that can both render and present, and sequencing the whole pipeline as
//! a step machine.  The raw driver and window-system calls live outside
//! the library and only carry out the actions the step machine emits.

pub mod diagnostics;
pub mod error;
pub mod names;
pub mod selection;
pub mod vulkan_instance;
