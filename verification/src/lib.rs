//! A small sprite-game toolkit: a handle-indexed value store, a parallel-array
//! actor table, window-input decisions and OpenGL info-log sizing.

pub mod actor;
pub mod input;
pub mod shader_log;
pub mod storage;
