use vstd::prelude::*;

verus! {

/// Tri-state switch for the previous/next controls of a pagination bar:
/// `Yes` always emits the control, `No` never does, and `Depends` emits it
/// only when it is applicable from the current page.
#[derive(Debug, Copy, Clone, Eq, PartialEq, Structural)]
pub enum YesNoDepends {
    Yes,
    No,
    Depends,
}

impl YesNoDepends {
    pub fn yes(self) -> (r: bool)
        ensures
            r == (self is Yes),
    {
        matches!(self, YesNoDepends::Yes)
    }

    pub fn depends(self) -> (r: bool)
        ensures
            r == (self is Depends),
    {
        matches!(self, YesNoDepends::Depends)
    }

    pub fn no(self) -> (r: bool)
        ensures
            r == (self is No),
    {
        matches!(self, YesNoDepends::No)
    }
}

} // verus!
