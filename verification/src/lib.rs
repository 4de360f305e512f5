//! The core of a terminal quiz runner.
//!
//! A user browses a directory for exam files, answers multiple-choice
//! questions, and has the answers graded and saved. This library holds
//! what that takes besides a terminal and a file system:
//!
//! - [`flags`] and [`exam`]: the exam model, the answers as sets of
//!   options, and grading;
//! - [`app`] and [`event`]: the state of the application and the events
//!   of a session;
//! - [`reducer`]: what one event does to the state, and the work it asks
//!   for, which the caller carries out and answers with further events;
//! - [`ui`] and [`widget`]: what a key press means to each view;
//! - [`present`], [`toggle_buttons`] and [`text`]: what the views show;
//! - [`listing`]: what the file browser lists of a directory;
//! - [`persist`]: how an exam lies in a file, and the steps of a load and
//!   of a save between the bytes and the event that ends them.

pub mod app;
pub mod event;
pub mod exam;
pub mod flags;
pub mod listing;
pub mod persist;
pub mod present;
pub mod reducer;
pub mod text;
pub mod toggle_buttons;
pub mod ui;
pub mod widget;
