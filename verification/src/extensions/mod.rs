//! What the sources that ship with the library declare of themselves.

pub mod mangadex;

pub use mangadex::mangadex_factory;
