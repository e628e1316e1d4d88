//! Core logic of a desktop control surface for a Figma-prototype screen
//! recorder: system-dependency probing (executable discovery and version
//! probing for a JavaScript runtime, a package manager, a video encoder and a
//! browser-automation engine) and a recording-session lifecycle manager.
//!
//! All decision and computation logic lives here, fully verified; the
//! surrounding process, filesystem and environment access hands plain values
//! in and takes plain values back.
use vstd::prelude::*;

pub mod deps;
pub mod locator;
pub mod platform;
pub mod prober;
pub mod session;
pub mod text;

verus! {

use vstd::string::StringExecFns;

/// Greeting shown by the UI layer when it first talks to this backend.
pub fn greet(name: &str) -> (r: String)
    ensures
        r@ == "Hello, "@ + name@ + "! Welcome to Figma Flow Capture!"@,
{
    let mut r = String::from_str("Hello, ");
    r.append(name);
    r.append("! Welcome to Figma Flow Capture!");
    r
}

} // verus!
