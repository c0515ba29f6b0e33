use vstd::prelude::*;

verus! {

/// Position of `Key::O` in the windowing layer's key table.
pub const KEY_O: u32 = 24;

/// Position of `Key::Return` in the windowing layer's key table.
pub const KEY_RETURN: u32 = 75;

/// Position of `Key::LShift` in the windowing layer's key table.
pub const KEY_LSHIFT: u32 = 112;

/// A keyboard key, numbered as the windowing layer enumerates its keys.
#[derive(Clone, Copy, Debug, PartialEq, Eq, Structural)]
pub struct Key {
    pub code: u32,
}

/// A mouse button.
#[derive(Clone, Copy, Debug, PartialEq, Eq, Structural)]
pub enum MouseButton {
    Button1,
    Button2,
    Button3,
    Button4,
    Button5,
    Button6,
    Button7,
    Button8,
}

/// The set of modifier keys held while an event was delivered.
#[derive(Clone, Copy, Debug, PartialEq, Eq, Structural)]
pub struct Modifiers {
    pub shift: bool,
    pub control: bool,
    pub alt: bool,
    pub logo: bool,
}

impl Modifiers {
    /// No modifier held.
    pub fn empty() -> (r: Modifiers)
        ensures
            !r.shift && !r.control && !r.alt && !r.logo,
    {
        Modifiers { shift: false, control: false, alt: false, logo: false }
    }
}

/// Input keys/buttons and their modifiers. A `None` binding disables its action.
#[derive(Clone, Copy, Debug)]
pub struct Input {
    pub first_key: Option<Key>,
    pub ortho_key: Option<Key>,
    pub reset_key: Option<Key>,
    pub orbit_button: Option<MouseButton>,
    pub orbit_modifiers: Option<Modifiers>,
    pub slide_button: Option<MouseButton>,
    pub slide_modifiers: Option<Modifiers>,
}

/// Whether the held `modifiers` satisfy an optional exact requirement.
pub open spec fn modifiers_match(required: Option<Modifiers>, modifiers: Modifiers) -> bool {
    match required {
        None => true,
        Some(m) => m == modifiers,
    }
}

/// Whether a binding is set and equal to `value`.
pub open spec fn bound_to<T>(binding: Option<T>, value: T) -> bool {
    binding == Some(value)
}

impl Input {
    /// Left shift for first person view, `O` for the projection toggle, `Return` for reset,
    /// the first button to orbit and the second to slide, with no modifier requirement.
    pub fn default() -> (r: Input)
        ensures
            r.first_key == Some(Key { code: KEY_LSHIFT }),
            r.ortho_key == Some(Key { code: KEY_O }),
            r.reset_key == Some(Key { code: KEY_RETURN }),
            r.orbit_button == Some(MouseButton::Button1),
            r.orbit_modifiers.is_none(),
            r.slide_button == Some(MouseButton::Button2),
            r.slide_modifiers.is_none(),
    {
        Input {
            first_key: Some(Key { code: KEY_LSHIFT }),
            ortho_key: Some(Key { code: KEY_O }),
            reset_key: Some(Key { code: KEY_RETURN }),
            orbit_button: Some(MouseButton::Button1),
            orbit_modifiers: None,
            slide_button: Some(MouseButton::Button2),
            slide_modifiers: None,
        }
    }

    /// Key used to enable first person view as long as being pressed.
    pub fn first_key(&self) -> (r: Option<Key>)
        ensures
            r == self.first_key,
    {
        self.first_key
    }

    /// Sets key used to enable first person view as long as being pressed.
    pub fn rebind_first_key(&mut self, key: Option<Key>)
        ensures
            *final(self) == (Input { first_key: key, ..*old(self) }),
    {
        self.first_key = key;
    }

    /// Key used to switch between orthographic and perspective projection.
    pub fn ortho_key(&self) -> (r: Option<Key>)
        ensures
            r == self.ortho_key,
    {
        self.ortho_key
    }

    /// Sets key used to switch between orthographic and perspective projection.
    pub fn rebind_ortho_key(&mut self, key: Option<Key>)
        ensures
            *final(self) == (Input { ortho_key: key, ..*old(self) }),
    {
        self.ortho_key = key;
    }

    /// Key used to reset camera.
    pub fn reset_key(&self) -> (r: Option<Key>)
        ensures
            r == self.reset_key,
    {
        self.reset_key
    }

    /// Sets key used to reset camera.
    pub fn rebind_reset_key(&mut self, key: Option<Key>)
        ensures
            *final(self) == (Input { reset_key: key, ..*old(self) }),
    {
        self.reset_key = key;
    }

    /// Button used to orbit camera.
    pub fn orbit_button(&self) -> (r: Option<MouseButton>)
        ensures
            r == self.orbit_button,
    {
        self.orbit_button
    }

    /// Sets button used to orbit camera.
    pub fn rebind_orbit_button(&mut self, button: Option<MouseButton>)
        ensures
            *final(self) == (Input { orbit_button: button, ..*old(self) }),
    {
        self.orbit_button = button;
    }

    /// Modifiers that must be pressed for orbit to occur.
    pub fn orbit_modifiers(&self) -> (r: Option<Modifiers>)
        ensures
            r == self.orbit_modifiers,
    {
        self.orbit_modifiers
    }

    /// Sets modifiers that must be pressed for orbit to occur: `None` accepts any modifiers,
    /// `Some(m)` only exactly `m`.
    pub fn set_orbit_modifiers(&mut self, modifiers: Option<Modifiers>)
        ensures
            *final(self) == (Input { orbit_modifiers: modifiers, ..*old(self) }),
    {
        self.orbit_modifiers = modifiers;
    }

    /// Button used to slide camera.
    pub fn slide_button(&self) -> (r: Option<MouseButton>)
        ensures
            r == self.slide_button,
    {
        self.slide_button
    }

    /// Sets button used to slide camera.
    pub fn rebind_slide_button(&mut self, button: Option<MouseButton>)
        ensures
            *final(self) == (Input { slide_button: button, ..*old(self) }),
    {
        self.slide_button = button;
    }

    /// Modifiers that must be pressed for slide to occur.
    pub fn slide_modifiers(&self) -> (r: Option<Modifiers>)
        ensures
            r == self.slide_modifiers,
    {
        self.slide_modifiers
    }

    /// Sets modifiers that must be pressed for slide to occur: `None` accepts any modifiers,
    /// `Some(m)` only exactly `m`.
    pub fn set_slide_modifiers(&mut self, modifiers: Option<Modifiers>)
        ensures
            *final(self) == (Input { slide_modifiers: modifiers, ..*old(self) }),
    {
        self.slide_modifiers = modifiers;
    }
}

/// Whether `key` is bound in `binding`.
pub fn key_matches(binding: Option<Key>, key: Key) -> (r: bool)
    ensures
        r == bound_to(binding, key),
{
    match binding {
        Some(k) => k == key,
        None => false,
    }
}

/// Whether `button` is bound in `binding`.
pub fn button_matches(binding: Option<MouseButton>, button: MouseButton) -> (r: bool)
    ensures
        r == bound_to(binding, button),
{
    match binding {
        Some(b) => b == button,
        None => false,
    }
}

/// Whether the held `modifiers` satisfy an optional exact requirement.
pub fn modifiers_accept(required: Option<Modifiers>, modifiers: Modifiers) -> (r: bool)
    ensures
        r == modifiers_match(required, modifiers),
{
    match required {
        Some(m) => m == modifiers,
        None => true,
    }
}

} // verus!
