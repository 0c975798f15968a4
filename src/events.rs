use vstd::prelude::*;

verus! {

/// The buttons of the headset. Release packets do not say which button went
/// up, so a release carries `UNKNOWN`.
#[derive(Debug, Clone, Copy, PartialEq, Eq, Structural)]
pub enum G930Keys {
    G1,
    G2,
    G3,
    UNKNOWN,
}

/// Whether a button went down or up.
#[derive(Debug, Clone, Copy, PartialEq, Eq, Structural)]
pub enum G930KeyEventTypes {
    KeyDown,
    KeyUp,
}

/// One decoded button transition.
#[derive(Debug, Clone, Copy, PartialEq, Eq, Structural)]
pub struct G930KeyEvent {
    pub key: G930Keys,
    pub type_: G930KeyEventTypes,
}

impl G930KeyEvent {
    pub fn new(key: G930Keys, type_: G930KeyEventTypes) -> (r: Self)
        ensures
            r.key == key,
            r.type_ == type_,
    {
        Self { key, type_ }
    }
}

} // verus!
