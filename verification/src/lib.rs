//! A data model for rich chat messages.
//!
//! A message is a tree of components. Each component has one of five kinds
//! of content (literal text, a translation key with arguments, a scoreboard
//! value, an entity selector or a key binding), a style, and an ordered list
//! of components appended after it.
//!
//! - [`component`] holds the components and their kinds,
//! - [`style`] the presentation attributes,
//! - [`record`] the tree of records, lists and scalars that a message is
//!   serialized as,
//! - [`codec`] the writing of a component as a record and the reading back,
//! - [`proofs`] what is proved of the two: which fields a record has, and
//!   that reading undoes writing,
//! - [`text`] a few helpers for strings.
pub mod codec;
pub mod component;
pub mod proofs;
pub mod record;
pub mod style;
pub mod text;
