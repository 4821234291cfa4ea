pub mod blit;
pub mod dispatch;
pub mod scale;
