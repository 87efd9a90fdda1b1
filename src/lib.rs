//! Native shell logic for a desktop window around a messaging website:
//! which popup windows may open and under what label, how the update consent
//! flow proceeds, how the user's answer is read from the page, and how the
//! page initialisation script is assembled.

pub mod consent;
pub mod json;
pub mod popup;
pub mod script;
pub mod text;
pub mod update;
pub mod window;
