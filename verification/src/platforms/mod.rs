pub mod linux;
pub mod windows;
