//! Keys under which assets are looked up.
use vstd::prelude::*;
use vstd::string::*;

verus! {

/// An asset that holds nothing, for trying the loader out.
#[derive(Debug, Copy, Clone)]
pub struct TestAsset;

/// A font, by the path of its file in the asset store and its size in points.
#[derive(Clone, Debug, Eq, Hash)]
pub struct FSFontKey(String, u32);

impl FSFontKey {
    /// The path of the font file.
    pub closed spec fn spec_path(&self) -> Seq<char> {
        self.0@
    }

    /// The size of the font, in points.
    pub closed spec fn spec_points(&self) -> u32 {
        self.1
    }

    /// A key for the font at `path`, which should start with a `/`, at the
    /// given size.
    pub fn new(path: &str, points: u32) -> (r: Self)
        ensures
            r.spec_path() == path@,
            r.spec_points() == points,
    {
        FSFontKey(String::from_str(path), points)
    }

    /// The path of the font file.
    pub fn as_path(&self) -> (r: &str)
        ensures
            r@ == self.spec_path(),
    {
        self.0.as_str()
    }

    /// The size of the font, in points.
    pub fn points(&self) -> (r: u32)
        ensures
            r == self.spec_points(),
    {
        self.1
    }
}

/// Two keys are equal when their paths and sizes are.
impl PartialEq for FSFontKey {
    fn eq(&self, other: &FSFontKey) -> (r: bool) {
        self.0 == other.0 && self.1 == other.1
    }
}

impl vstd::std_specs::cmp::PartialEqSpecImpl for FSFontKey {
    open spec fn obeys_eq_spec() -> bool {
        true
    }

    open spec fn eq_spec(&self, other: &FSFontKey) -> bool {
        self.spec_path() == other.spec_path() && self.spec_points() == other.spec_points()
    }
}

} // verus!
