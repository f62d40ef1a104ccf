//! Request logic of a small contact-form backend: input validation, the
//! dashboard's shared-secret gate, visitor accounting and the shaping of
//! responses from what the store returned.
pub mod state;
pub mod validation;
pub mod text;
pub mod handlers;
pub mod laws;
