//! A small front end for an image-to-braille conversion service.
//!
//! The library holds the logic of that front end: the display state and its
//! pure renderer ([`state`]), the form controller that owns the submitted URL
//! and steps the state machine ([`controller`]), and the classification of
//! request outcomes together with endpoint and query construction
//! ([`request`]). The browser glue that issues the request and paints the
//! views lives outside the library and drives it through these functions.

pub mod controller;
pub mod request;
pub mod state;
