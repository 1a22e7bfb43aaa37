//! The decisions behind a Vulkan instance: which extensions and layers it is created
//! with, which messages of the validation layers are passed on and how they read, which
//! adapters may present, and how surfaces are made, configured and drawn to.
//!
//! The library calls no driver. Where a driver has to be asked in between decisions, a
//! stage says what to ask next and an event brings the answer: [`init::InitStage`] does
//! so for the creation of an instance, [`surface::AcquireStage`] for the acquisition of
//! an image. What holds of the whole stands in [`laws`].

pub mod adapter;
pub mod debug;
pub mod driver;
pub mod extension;
pub mod init;
pub mod instance;
pub mod laws;
pub mod names;
pub mod platform;
pub mod promises;
pub mod surface;
pub mod text;
pub mod window;
