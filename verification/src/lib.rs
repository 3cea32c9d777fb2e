//! Generation engine for type-declaration ("stub") documents.
//!
//! Reflected binding metadata - descriptions of classes, free functions,
//! methods and constructors exposed by a native extension module - is turned
//! into the text of a declaration file for a static type checker of an
//! embedded scripting language.  The engine is a pure batch transformation:
//! raw fragments are converted into definitions, contributions that belong to
//! the same class are merged into one definition per class name, the module
//! references each definition needs are resolved, and a deterministic
//! renderer emits the declaration text.
//!
//! Every rendering function is specified against a mathematical rendering
//! function over sequences of characters, so that the emitted text is pinned
//! down byte for byte.

pub mod class;
pub mod dedup;
pub mod function;
pub mod gather;
pub mod method;
pub mod module;
pub mod new;
pub mod text;
pub mod type_info;
