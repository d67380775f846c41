//! Search a media catalogue by free text, turn its mixed movie / TV / person
//! results into one list of labelled entries, and render the chosen entry
//! together with the fields of its follow-up detail request.

pub mod encode;
pub mod layout;
pub mod model;
pub mod normalize;
pub mod number;
pub mod present;
pub mod request;
pub mod session;
pub mod text;
pub mod wrap;
