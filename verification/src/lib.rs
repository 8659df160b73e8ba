pub mod display;
pub mod fault;
pub mod instruction;
pub mod interpreter;
pub mod keyboard;
pub mod memory;
pub mod register;
pub mod stack;
