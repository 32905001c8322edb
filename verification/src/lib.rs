//! Building forecast requests for the Open-Meteo weather service from the
//! answers a user gives at a prompt.
//!
//! A request is a place and a flag. The place comes as two coordinates,
//! each a number written out in decimal ([`decimal`]); the flag comes from a
//! yes-or-no answer ([`answer`]), read with the help of [`text`]. A request
//! is written out as a query and resolved against the URL of the service
//! ([`request`]), for which the `url` crate is called ([`locator`]). What
//! holds of every request is proved in [`laws`].

pub mod answer;
pub mod decimal;
pub mod laws;
pub mod locator;
pub mod request;
pub mod text;
