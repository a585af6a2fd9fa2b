pub mod media;
pub mod mpris;
pub mod widgets;
