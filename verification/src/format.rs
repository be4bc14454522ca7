//! How input text is to be read.

use vstd::prelude::*;

verus! {

/// The settings of one input format.
#[derive(Clone, Copy, Debug, PartialEq, Eq, Structural)]
pub struct FormatSettings {
    /// Whether the keys of a record are matched against the names of the
    /// columns as they are written. Where they are not, both are matched in
    /// lower case.
    pub ident_case_sensitive: bool,
}

} // verus!
