//! Rhythm core of a quiet desktop focus/break companion: session timing,
//! the ambient status text shown in the tray, the pet placement rules and
//! the wall-clock arithmetic used by checkpoints and local history.

pub mod rhythm;
pub mod text;
pub mod tray;
pub mod pet;
pub mod checkpoint;
pub mod history;
