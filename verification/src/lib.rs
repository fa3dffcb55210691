//! Verified core of the Heimdall kernel: the model of the VGA text screen and
//! its writer, and the decisions taken by the interrupt handlers.

pub mod vga_buffer;
pub mod vga_laws;
pub mod interrupts;
pub mod gdt;
pub mod screen_behaviour;
pub mod key_behaviour;
