pub mod trap;
pub mod operand;
pub mod numeric;
pub mod convert;
pub mod vm;
pub mod vm_memory;
