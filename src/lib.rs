//! Playback backend of a desktop music player: the playback session state
//! machine, the song metadata record and the cover-art cache.
pub mod cover;
pub mod level;
pub mod metadata;
pub mod session;

use vstd::prelude::*;

verus! {

/// The greeting for `name`.
pub fn greet(name: &str) -> (r: String)
    ensures
        r@ == "Hello, "@ + name@ + "! You've been greeted from Rust!"@,
{
    String::from_str("Hello, ").concat(name).concat("! You've been greeted from Rust!")
}

} // verus!
