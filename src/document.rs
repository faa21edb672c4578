use vstd::prelude::*;

verus! {

/// The file being edited, fixed once at startup and never replaced.
pub struct DocumentState {
    svg_file: String,
}

impl DocumentState {
    #[verifier::type_invariant]
    spec fn inv(&self) -> bool {
        self.svg_file@.len() > 0
    }

    /// The path held, as a sequence of characters.
    pub closed spec fn path(&self) -> Seq<char> {
        self.svg_file@
    }

    pub(crate) fn new(svg_file: String) -> (r: DocumentState)
        requires
            svg_file@.len() > 0,
        ensures
            r.path() == svg_file@,
    {
        DocumentState { svg_file }
    }

    /// The path of the document; never empty.
    pub fn svg_file(&self) -> (r: &str)
        ensures
            r@ == self.path(),
            r@.len() > 0,
    {
        proof {
            use_type_invariant(self);
        }
        self.svg_file.as_str()
    }
}

} // verus!
