//! Owned handles and borrowed views over foreign resources.
//!
//! A foreign resource is known to Rust only as an address. This library
//! reads a description of such a resource (its name, its foreign type, the
//! function that destroys it and, where there is one, the function that
//! duplicates it), checks the description, and emits the Rust source of a
//! pair of wrapper types for it: an owned handle, which destroys the resource
//! once, and a borrowed view, which never does. The module [`handle`] states
//! what the operations of such a pair do, and proves the laws that hold of
//! them.
//!
//! A description comes as tokens ([`token::Token`]); what is emitted is
//! text.

pub mod emit;
pub mod grammar;
pub mod handle;
pub mod parse;
pub mod shared;
pub mod syntax;
pub mod token;

use crate::emit::{build, input_text};
use crate::grammar::{refused, types_of};
use crate::parse::{ConfigurationError, Input, InputSpec};
use crate::syntax::askable;
use crate::token::{views, Token};
use vstd::prelude::*;

verus! {

/// Expands the descriptions that `tokens` hold into the source of their
/// types. `crate_` is the path under which the emitted code names the items
/// of this library.
///
/// ```text
/// /// This is a thing!
/// pub type Thing: Sync + Send {
///     type CType = thing_sys::thing;
///     fn drop = thing_sys::thing_free;
///     fn clone = thing_sys::thing_dup;
/// }
/// ```
///
/// Where the descriptions cannot be read, the error is that of
/// [`types_of`]. Where they can, the result is the source for what was
/// read, or `CratePath`, or what is wrong with a description that has a
/// path which was not taken for one.
pub fn foreign_type_impl(crate_: &str, tokens: &Vec<Token>) -> (emitted: Result<
    String,
    ConfigurationError,
>)
    ensures
        types_of(views(tokens@)) matches Err(e) ==> emitted == Err::<String, ConfigurationError>(
            e,
        ),
        types_of(views(tokens@)) matches Ok(types) ==> match emitted {
            Ok(source) => askable(crate_@) && source@ == input_text(
                InputSpec { crate_: crate_@, types },
            ),
            Err(e) => e == ConfigurationError::CratePath || refused(types, e),
        },
        types_of(views(tokens@)) is Ok && !askable(crate_@) ==> emitted == Err::<
            String,
            ConfigurationError,
        >(ConfigurationError::CratePath),
{
    match Input::parse(crate_, tokens) {
        Err(e) => Err(e),
        Ok(input) => Ok(build(&input)),
    }
}

} // verus!
