//! Key identities and the resolution of symbolic key names.

use std::str::FromStr;
use vstd::prelude::*;

verus! {

/// A stable numeric identifier for a physical key, independent of its
/// current press state. Obtained by resolving a symbolic key name at
/// configuration-load time; an unrecognized name is a configuration
/// error, never a runtime panic.
#[derive(Debug, Clone, Copy, PartialEq, Eq, Structural)]
pub struct KeyIdentity {
    pub code: u16,
}

/// The key code that the input subsystem assigns to a symbolic key name
/// such as "KEY_A", if the name is recognized.
pub uninterp spec fn key_code_of(name: Seq<char>) -> Option<u16>;

/// Relies on evdev::KeyCode::from_str: a lookup of a symbolic key name in
/// a fixed table of names; its result depends on the name alone.
#[verifier::external_body]
fn lookup_key_code(name: &str) -> (r: Option<u16>)
    ensures
        r == key_code_of(name@),
{
    match evdev::KeyCode::from_str(name) {
        Ok(key) => Some(key.0),
        Err(_) => None,
    }
}

impl KeyIdentity {
    /// Resolves a symbolic key name; exactly the recognized names yield a
    /// key identity.
    pub fn parse(name: &str) -> (r: Option<KeyIdentity>)
        ensures
            r matches Some(k) ==> key_code_of(name@) == Some(k.code),
            (r is Some) <==> key_code_of(name@) is Some,
    {
        match lookup_key_code(name) {
            Some(code) => Some(KeyIdentity { code }),
            None => None,
        }
    }
}

} // verus!
