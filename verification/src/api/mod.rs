pub mod mpris;
