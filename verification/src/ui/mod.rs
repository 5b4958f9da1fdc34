//! Terminal UI state, formatting and text rendering logic.

pub mod animation;
pub mod approval;
pub mod approval_view;
pub mod clipboard;
pub mod configure;
pub mod diff_viewer;
pub mod input;
pub mod layout_utils;
pub mod markdown;
pub mod modal;
pub mod modal_view;
pub mod modals;
pub mod palette_view;
pub mod pty_drawer;
pub mod session_view;
pub mod styled;
