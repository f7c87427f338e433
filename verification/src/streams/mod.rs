pub mod specs;
