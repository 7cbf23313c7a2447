use vstd::prelude::*;
use vstd::string::*;

verus! {

/// A type of the checked language, as far as a diagnostic needs it: its
/// textual rendering. Its view is that text.
#[derive(Clone, Debug, PartialEq, Eq)]
pub struct CheckedType {
    pub rendered: String,
}

impl View for CheckedType {
    type V = Seq<char>;

    open spec fn view(&self) -> Seq<char> {
        self.rendered@
    }
}

impl CheckedType {
    /// The type that is printed as `rendered`.
    pub fn new(rendered: &str) -> (t: CheckedType)
        ensures
            t@ == rendered@,
    {
        CheckedType { rendered: String::from_str(rendered) }
    }

    /// The text the type is printed as.
    pub fn as_str(&self) -> (s: &str)
        ensures
            s@ == self@,
    {
        self.rendered.as_str()
    }
}

} // verus!
