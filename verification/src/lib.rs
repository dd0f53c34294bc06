//! Gesture detection over sampled pointer state, and the rules of the
//! desktop assistant built around it.
//!
//! The core turns raw pointer samples (position plus per-button pressed
//! flags) into semantic gesture events: button edges, drag movement, clicks
//! outside an overlay indicator, and "text was selected" announcements that
//! follow a double-click or a drag. It performs no I/O: the embedding
//! application polls the pointer, reads clocks, sleeps and queries its
//! collaborators, and feeds every result back into
//! [`mouse_service::MouseService`].
//!
//! * [`sample`], [`gesture`], [`timing`], [`icon`], [`dispatch`] and
//!   [`mouse_service`] make up the gesture service; [`theorems`] states what
//!   holds of it across several steps.
//! * [`icon_events`], [`payload`], [`shortcuts`] and [`selected_text`] hold
//!   what the application decides about the overlay indicator, the global
//!   shortcut and the clipboard.
//! * [`settings`], [`prompts`], [`providers`] and [`replies`] hold what it
//!   decides about stored settings and completion requests.

pub mod config;
pub mod dispatch;
pub mod event;
pub mod gesture;
pub mod icon;
pub mod icon_events;
pub mod mouse_service;
pub mod payload;
pub mod prompts;
pub mod providers;
pub mod replies;
pub mod sample;
pub mod selected_text;
pub mod settings;
pub mod shortcuts;
pub mod text;
pub mod theorems;
pub mod timing;
