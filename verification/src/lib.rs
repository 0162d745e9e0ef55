//! The decisions behind a calibrator front-end.
//!
//! The front-end shows a side panel of controls and a central view in which a
//! coloured triangle turns. This library owns no window and no graphics
//! context. It decides which calls build, draw and release the triangle
//! ([`assembly`], [`scene`]), holds the text of its shaders ([`shader`]), and
//! keeps the state behind the side panel ([`app`]). The calls themselves are
//! plain values ([`gl`]) that the owner of the context performs.

pub mod app;
pub mod assembly;
pub mod gl;
pub mod scene;
pub mod shader;
