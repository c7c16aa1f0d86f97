use vstd::prelude::*;

verus! {

/// What a concrete generator tells the host about itself: the name shown
/// to users and the place its output goes when none is configured.
pub struct GeneratorMetadata {
    pub name: String,
    pub default_output: String,
}

/// The descriptive part of the answer to `getManifest`.
pub struct Manifest {
    pub default_output: String,
    pub pretty_name: String,
}

impl GeneratorMetadata {
    pub fn new(name: &str, default_output: &str) -> (r: Self)
        ensures
            r.name@ == name@,
            r.default_output@ == default_output@,
    {
        GeneratorMetadata { name: String::from_str(name), default_output: String::from_str(default_output) }
    }

    /// The manifest sent in reply to `getManifest`: the identity's own values.
    pub fn manifest(&self) -> (r: Manifest)
        ensures
            r.default_output@ == self.default_output@,
            r.pretty_name@ == self.name@,
    {
        Manifest { default_output: self.default_output.clone(), pretty_name: self.name.clone() }
    }
}

} // verus!
