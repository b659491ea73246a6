//! An engine that converts bitmaps between JPEG, PNG and WebP within a
//! byte budget, and the bookkeeping of the batches that drive it.

pub mod adaptive;
pub mod arith;
pub mod batch;
pub mod bitmap;
pub mod codec;
pub mod config;
pub mod encoder;
pub mod error;
pub mod estimate;
pub mod image_to_pdf;
pub mod menu_bar;
pub mod names;
pub mod pool;
pub mod progress;
pub mod quality;
pub mod resize;
pub mod tasks;
pub mod text;
pub mod watermark;
pub mod webp;

pub use adaptive::encode;
pub use bitmap::Bitmap;
pub use config::OutputFormat;
pub use error::ConvertError;
