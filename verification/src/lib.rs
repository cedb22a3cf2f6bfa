//! Identity and lifecycle of package sources that live in git repositories.
//!
//! A repository URL is brought to a canonical form, from which a short,
//! filesystem-safe identity is derived; a [`GitSource`] then decides, step by
//! step, how its cached database and checkout are brought up to date.

pub mod canonical;
pub mod git_url;
pub mod hex;
pub mod ident;
pub mod reference;
pub mod source;
pub mod text;
