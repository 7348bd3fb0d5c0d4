//! A verified guest execution core for a feature-phone emulator.
//!
//! The library models the hardware side of a legacy handset platform: a flat
//! guest address space, a heap allocator over a region of it, a register
//! file, an instruction interpreter, a native-function bridge that lets guest
//! code call host-provided routines, and a cooperative task scheduler that
//! multiplexes one physical register file across many logical guest calls.
//! Around the core stand the platform pieces that need only its narrow
//! interface: pixel canvases, class prototypes for the bundled Java-like
//! runtime, and the vendor boot sequence.

pub mod error;
pub mod regs;
pub mod mem;
pub mod heap;
pub mod instr;
pub mod cpu;
pub mod sched;
pub mod records;
pub mod window;
pub mod runtime;
pub mod classes;
pub mod canvas;
pub mod ktf;
