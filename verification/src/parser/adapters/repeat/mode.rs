use vstd::prelude::*;

verus! {

/// Repeat until an application fails; the failure ends the repetition and is not passed on.
#[derive(Clone, Copy, Debug)]
pub struct UntilErr;

/// Repeat until the input is exhausted; a failure before that is passed on.
#[derive(Clone, Copy, Debug)]
pub struct UntilEOI;

/// So many applications must succeed; after them, as `UntilErr`.
#[derive(Clone, Copy, Debug)]
pub struct Minimum(pub usize);

/// So many applications must succeed; after them, as `UntilEOI`.
#[derive(Clone, Copy, Debug)]
pub struct MinimumEOI(pub usize);

/// Repeat until an application fails or so many have succeeded.
#[derive(Clone, Copy, Debug)]
pub struct Maximum(pub usize);

/// Exactly so many applications, all of which must succeed.
#[derive(Clone, Copy, Debug)]
pub struct Exact(pub usize);

/// A mode together with the parser of what stands between two items.
#[derive(Clone, Copy, Debug)]
pub struct Inter<Mod, Int>(pub Mod, pub Int);

} // verus!
