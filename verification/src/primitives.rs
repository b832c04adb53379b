pub mod color;
pub mod image;
pub mod rectangle;
pub mod text;
