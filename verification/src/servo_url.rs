//! Edge-triggered navigation request for one surface.

use vstd::prelude::*;

verus! {

/// Mathematical image of [`ServoUrl`].
pub ghost struct UrlView {
    pub dirty: bool,
    pub url: Seq<char>,
}

/// Host-facing navigation request: the address a surface should load on
/// the next driver tick. `dirty` is the edge trigger: the host sets it
/// together with a new address, the driver issues the navigation exactly
/// once and clears it.
#[derive(Clone, Debug, PartialEq, Eq)]
pub struct ServoUrl {
    pub dirty: bool,
    pub url: String,
}

impl View for ServoUrl {
    type V = UrlView;

    open spec fn view(&self) -> UrlView {
        UrlView { dirty: self.dirty, url: self.url@ }
    }
}

impl ServoUrl {
    /// Request navigation to `url` on the next tick.
    pub fn goto(&mut self, url: String)
        ensures
            final(self)@ == (UrlView { dirty: true, url: url@ }),
    {
        self.dirty = true;
        self.url = url;
    }
}

impl From<String> for ServoUrl {
    fn from(string: String) -> (r: Self)
        ensures
            r@ == (UrlView { dirty: true, url: string@ }),
    {
        Self { dirty: true, url: string }
    }
}

impl vstd::std_specs::convert::FromSpecImpl<String> for ServoUrl {
    open spec fn obeys_from_spec() -> bool {
        true
    }

    open spec fn from_spec(string: String) -> Self {
        ServoUrl { dirty: true, url: string }
    }
}

} // verus!
