//! The scheduling and configuration core of a stylization effect that turns
//! a rendered frame into line art: edge lines from a flow-guided difference
//! of Gaussians, with optional cross-hatching.
//!
//! The library decides; its host executes. From the toggles of a view it
//! computes which full-screen passes a frame runs, in which order and over
//! which textures (`node`), and proves that no pass reads what the frame
//! has not yet written (`dataflow`). It keeps the scratch textures of each
//! view by output resolution (`textures`), describes pipelines, layouts and
//! samplers (`pipeline`), lays the settings out as the bytes that the
//! shaders read (`settings`, `uniform`), decodes the hatch pattern
//! (`plugin`), and ties all of it together per view (`view`).

pub mod dataflow;
pub mod node;
pub mod pipeline;
pub mod plugin;
pub mod settings;
pub mod textures;
pub mod uniform;
pub mod view;
