pub mod block;
pub mod grid;
pub mod shape;
pub mod shape_factory;
pub mod tetris;
pub mod analysis;
pub mod strategy;
pub mod decisions;
pub mod bot;
