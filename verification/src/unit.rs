//! The three units of the machine: arithmetic, control and memory.

pub mod arithmetic;
pub mod control;
pub mod memory;

pub use arithmetic::{Operation as ALUOperation, Work as ALUWork, Unit as ArithmeticUnit};
pub use control::{Status as ControlStatus, Unit as ControlUnit};
pub use memory::{Type as MemoryType, Access as MemoryAccess, Work as MemoryWork, LinkError, Unit as MemoryUnit};
