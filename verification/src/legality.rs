//! Conversion into a legality union: the closed set of kinds that one tag, or
//! one context, admits.
//!
//! Each tag has a union of the attribute kinds that are legal on it, and each
//! context a union of the kinds of content that may stand in it. One kind may
//! belong to many unions. A kind that a union does not admit is refused when
//! the program is built, so nothing is left to check when it runs:
//!
//! ```compile_fail
//! use malvolio::prelude::{Name, SelectOption};
//!
//! // `name` is legal on a `select`, not on an `option`.
//! let option = SelectOption::new("Red").attribute(Name::new("colors"));
//! ```

use vstd::prelude::*;

verus! {

/// A kind that the union `U` admits. That a kind implements this for `U` is
/// what makes it legal wherever `U` is asked for: a builder takes any such
/// value, and one of another kind does not compile.
pub trait IntoUnion<U>: Sized {
    /// The member of `U` that stands for this value.
    spec fn as_union(self) -> U;

    /// Wraps the value into the union. Never fails.
    fn into_union(self) -> (member: U)
        ensures
            member == self.as_union(),
    ;
}

} // verus!
