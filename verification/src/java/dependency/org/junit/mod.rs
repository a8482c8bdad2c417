pub mod jupiter;
