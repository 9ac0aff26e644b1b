//! The logic of a window that watches Reddit for new submissions, keeps the
//! latest of them on display and has them sent by mail.
//!
//! The window, the network and the mail are elsewhere. This library says what
//! each change of a control asks for, what the receiving thread does next, what
//! is kept and how it is shown.
pub mod filter;
pub mod gui;
pub mod history;
pub mod interval;
pub mod laws;
pub mod mailer;
pub mod posts;
pub mod settings;
pub mod watcher;
