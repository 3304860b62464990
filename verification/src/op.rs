pub mod emerge;
