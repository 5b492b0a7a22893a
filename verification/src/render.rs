//! Rendering of answers and solver errors to text.

use vstd::prelude::*;

verus! {

/// A value with a textual form.
///
/// Solver answers are rendered through this trait when a run is reported,
/// and a solver's own error type is rendered through it when the error is
/// unified into the run's single error kind. Each implementor fixes its
/// textual form with `render_spec` and must prove that `render` produces
/// exactly that text.
pub trait Render {
    /// The textual form of the value.
    spec fn render_spec(&self) -> Seq<char>;

    /// Produces the textual form of the value.
    fn render(&self) -> (s: String)
        ensures
            s@ == self.render_spec(),
    ;
}

impl Render for String {
    open spec fn render_spec(&self) -> Seq<char> {
        self@
    }

    fn render(&self) -> (s: String)
        ensures
            s@ == self.render_spec(),
    {
        self.clone()
    }
}

impl Render for &str {
    open spec fn render_spec(&self) -> Seq<char> {
        self@
    }

    fn render(&self) -> (s: String)
        ensures
            s@ == self.render_spec(),
    {
        (*self).to_owned()
    }
}

} // verus!
