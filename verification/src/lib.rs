//! Rules engine of a falling-block puzzle game: the tetromino shape
//! catalogue, the playfield, collision-checked action resolution, piece
//! locking, line clearing, and the level/score/gravity state machine.
//!
//! Rendering, input decoding and audio are outside collaborators: the engine
//! consumes already-decoded actions and exposes read-only state queries.

pub mod engine;
pub mod field;
pub mod tetromino;
