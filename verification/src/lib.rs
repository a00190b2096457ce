pub mod annotation;
pub mod app_state;
pub mod display;
pub mod history;
pub mod keyboard;
pub mod hotkey;
pub mod ocr;
pub mod text;
pub mod window;
pub mod tray;
pub mod ocr_text;
pub mod ocr_flow;
pub mod ocr_view;
pub mod ocr_worker;
pub mod pin;
pub mod pixels;
pub mod pointer;
pub mod region;
pub mod selection;
pub mod settings;
