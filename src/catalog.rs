//! Artists and their compositions, as the surrounding application receives
//! them from its catalogue service.

use vstd::prelude::*;

verus! {

/// A piece of audio a composition refers to.
pub type Sample = i32;

/// An artist and the compositions credited to them.
#[derive(Debug)]
pub struct Artist {
    pub id: i64,
    pub name: String,
    pub compositions: Vec<Composition>,
}

/// A composition: who made it, what it is called, the samples it is built
/// from and who else worked on it.
#[derive(Debug)]
pub struct Composition {
    pub id: i64,
    pub artist: String,
    pub title: String,
    pub desc: String,
    pub samples: Vec<Sample>,
    pub collaborators: Vec<Artist>,
}

impl Default for Composition {
    /// A placeholder composition to work with before any is loaded.
    fn default() -> (r: Composition)
        ensures
            r.id == 1,
            r.artist@ == "Myself"@,
            r.title@ == "Default"@,
            r.desc@ == "Default values to test with"@,
            r.samples@.len() == 0,
            r.collaborators@.len() == 0,
    {
        Composition {
            id: 1,
            artist: "Myself".to_string(),
            title: "Default".to_string(),
            desc: "Default values to test with".to_string(),
            samples: Vec::new(),
            collaborators: Vec::new(),
        }
    }
}

} // verus!
