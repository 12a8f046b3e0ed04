pub mod distance;
