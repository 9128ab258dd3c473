//! Firmware logic of a split keyboard: the byte protocol that links the two
//! halves, the scan step that debounces the key matrix, and the layout step
//! that turns key events into HID reports.

pub mod protocol;
pub mod scan;
pub mod tasks;
pub mod keymap;
