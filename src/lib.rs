pub mod cache;
pub mod noise_fn;
