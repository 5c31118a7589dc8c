//! The verified core of a per-frame GPU rendering engine.
//!
//! Everything here works on plain values, so that it can be proved: the
//! caller owns the window, the device and the floating-point camera math, and
//! performs what the engine decides.
//!
//! - `single`, `image`: single-precision bit patterns, and how words lie in
//!   memory as bytes.
//! - `matrix`, `vertex`, `light`: the data that reaches the shader.
//! - `uniform`, `block`: the three uniform regions and their byte layouts,
//!   and the layout that a shader computes for the same structures.
//! - `context`, `pipeline`: the surface configuration and the pipeline's
//!   fixed-function state.
//! - `state`: set-up, resize, per-frame update and the plan of a frame.
//! - `scheduler`: the frame cycle as a state machine, with its recovery
//!   policy.
//! - `engine`: state and scheduler together, one event at a time.

pub mod block;
pub mod context;
pub mod engine;
pub mod image;
pub mod light;
pub mod matrix;
pub mod pipeline;
pub mod scheduler;
pub mod single;
pub mod state;
pub mod uniform;
pub mod vertex;
