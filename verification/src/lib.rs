//! Host-side core of a sphere-traced cube field with an on-screen frame-pacing
//! readout.
//!
//! The scene is a field of cubes with their middles cut out, each drifting and
//! turning on its own; it is drawn by marching a ray per pixel against the
//! distance field of the scene, and a readout of frame rate, frame-rate
//! extremes, 1%-low rate and jitter is drawn over it. The drawing itself is
//! done by a shading stage on the graphics device. This crate holds what is
//! decided on the host, and states the rules of the shading stage exactly,
//! each with a machine-checked contract:
//!
//! - [`scene`]: the parameters of the scene and the clamping of its
//!   primitive count;
//! - [`motion`]: how the primitives drift and turn with time;
//! - [`field`]: the distance field, the march of a ray through it and the
//!   light on the surface it meets;
//! - [`march`]: when a march reports a hit, gives up, or goes on;
//! - [`overlay`]: the bitmap font and the layout of the readout;
//! - [`image`]: what a point of the screen shows;
//! - [`stats`] and [`telemetry`]: the statistics of the frames of a
//!   half-second window and the aggregator that gathers them;
//! - [`uniform`]: the byte layout of the block of parameters handed to the
//!   shading stage;
//! - [`surface`]: the few choices the frame loop makes about its surface;
//! - [`fixed`]: the whole-number arithmetic the rest is built on.
//!
//! Real numbers never enter the crate as floating-point values. A quantity the
//! shading stage reads as a binary32 number is carried here as its 32-bit
//! pattern and never interpreted; every quantity the crate computes with is an
//! integer in a stated fixed-point unit (microseconds, thousandths of a frame
//! per second, thousandths of a glyph cell, millionths of a world unit). The
//! cosines and sines by which the primitives move are the one thing the crate
//! does not compute: the caller hands them in.

pub mod fixed;
pub mod scene;
pub mod field;
pub mod motion;
pub mod stats;
pub mod telemetry;
pub mod uniform;
pub mod overlay;
pub mod march;
pub mod surface;
pub mod image;
