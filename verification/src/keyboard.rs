//! Keyboard events and modifier keys.

use vstd::prelude::*;

verus! {

/// [`keyboard_types::Key`], the logical value of a key. The reducer carries
/// it through without looking inside.
#[verifier::external_type_specification]
#[verifier::external_body]
pub struct ExKey(keyboard_types::Key);

/// [`keyboard_types::Code`], the physical position of a key. The reducer
/// carries it through without looking inside.
#[verifier::external_type_specification]
#[verifier::external_body]
pub struct ExCode(keyboard_types::Code);

/// [`keyboard_types::KeyState`], whether a key went down or up. The reducer
/// carries it through without looking inside.
#[verifier::external_type_specification]
#[verifier::external_body]
pub struct ExKeyState(keyboard_types::KeyState);

/// [`keyboard_types::Location`], which of several like keys was used. The
/// reducer carries it through without looking inside.
#[verifier::external_type_specification]
#[verifier::external_body]
pub struct ExLocation(keyboard_types::Location);

/// `Clone::clone` of [`keyboard_types::Key`], which the crate derives: the
/// copy is the same key.
pub assume_specification[ <keyboard_types::Key as Clone>::clone ](
    key: &keyboard_types::Key,
) -> (r: keyboard_types::Key)
    ensures
        r == *key,
;

/// The modifier keys that are held.
#[derive(Clone, Copy, Debug, PartialEq, Eq, Hash, Default)]
pub struct Modifiers {
    pub shift: bool,
    pub ctrl: bool,
    pub alt: bool,
    pub meta: bool,
}

/// A key press or release as the window system reports it, before the
/// modifiers are known.
#[derive(Debug, PartialEq, Eq, Hash)]
pub struct KeyInput {
    pub state: keyboard_types::KeyState,
    pub key: keyboard_types::Key,
    pub code: keyboard_types::Code,
    pub location: keyboard_types::Location,
    pub repeat: bool,
}

/// A key press or release together with the modifiers held at the time.
#[derive(Debug, PartialEq, Eq, Hash)]
pub struct KeyboardEvent {
    pub state: keyboard_types::KeyState,
    pub key: keyboard_types::Key,
    pub code: keyboard_types::Code,
    pub location: keyboard_types::Location,
    pub modifiers: Modifiers,
    pub repeat: bool,
    pub is_composing: bool,
}

impl KeyInput {
    /// The keyboard event that this input makes while `modifiers` are held.
    pub open spec fn with_modifiers(self, modifiers: Modifiers) -> KeyboardEvent {
        KeyboardEvent {
            state: self.state,
            key: self.key,
            code: self.code,
            location: self.location,
            modifiers,
            repeat: self.repeat,
            is_composing: false,
        }
    }

    /// The keyboard event that this input makes while `modifiers` are held.
    pub fn attach(&self, modifiers: Modifiers) -> (r: KeyboardEvent)
        ensures
            r == self.with_modifiers(modifiers),
    {
        KeyboardEvent {
            state: self.state,
            key: self.key.clone(),
            code: self.code,
            location: self.location,
            modifiers,
            repeat: self.repeat,
            is_composing: false,
        }
    }
}

impl Clone for KeyInput {
    fn clone(&self) -> (r: Self)
        ensures
            r == *self,
    {
        KeyInput {
            state: self.state,
            key: self.key.clone(),
            code: self.code,
            location: self.location,
            repeat: self.repeat,
        }
    }
}

impl Clone for KeyboardEvent {
    fn clone(&self) -> (r: Self)
        ensures
            r == *self,
    {
        KeyboardEvent {
            state: self.state,
            key: self.key.clone(),
            code: self.code,
            location: self.location,
            modifiers: self.modifiers,
            repeat: self.repeat,
            is_composing: self.is_composing,
        }
    }
}

} // verus!
