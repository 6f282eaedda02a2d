//! Early-boot text output for a bare-metal kernel: a writer that renders
//! bytes onto the memory-mapped character display with line-wrap and
//! scroll, a lock-guarded console around it, and the trap-vector table
//! that reports processor exceptions through the same channel.

pub mod console;
pub mod interrupts;
pub mod vga_buffer;
