pub mod app;
pub mod ascii;
pub mod cipher;
pub mod decimal;
pub mod fence;
pub mod screens;
pub mod strings;
