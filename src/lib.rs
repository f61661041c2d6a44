//! Input pipeline of a split keyboard: readouts of both halves, the frame that
//! carries the secondary half's readout, layer selection, keymap dispatch, HID
//! report assembly and the bounded report queue.
pub mod readout;
pub mod report;
pub mod buffer;
pub mod layer;
pub mod link;
pub mod profile;
pub mod manager;
pub mod packed;
