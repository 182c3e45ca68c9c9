//! The core of a note-taking application: an ordered collection of notes
//! with a selection and a search query, the rules of reordering it by
//! drag and drop, and the policy for loading and saving it.

pub mod clock;
pub mod drag;
pub mod ids;
pub mod laws;
pub mod note;
pub mod persist;
pub mod search;
pub mod store;
pub mod text;
