//! Keybinds on Windows, from low-level keyboard and mouse hooks: the set of
//! inputs held down, which keybind a new press completes, and which presses are
//! swallowed.
use vstd::prelude::*;
use crate::config::Keybind;
use crate::input_codes::{js_input, parse_js_input, OsInput};
use std::collections::HashSet;

verus! {

/// The virtual-key codes of the codes of a bind that name an input, in order.
pub open spec fn required_vks(codes: Seq<String>) -> Seq<u16>
    decreases codes.len(),
{
    if codes.len() == 0 {
        Seq::empty()
    } else {
        let rest = required_vks(codes.drop_last());
        match js_input(codes.last()@) {
            Some(input) => rest.push(input.spec_vk()),
            None => rest,
        }
    }
}

/// A keybind is complete when it has a non-empty action, its bind names at least
/// one input, and every input it names is held down.
pub open spec fn keybind_complete(kb: Keybind, pressed: Set<u16>) -> bool {
    &&& kb.action is Some
    &&& kb.action.unwrap()@.len() > 0
    &&& required_vks(kb.bind@).len() > 0
    &&& forall|i: int| 0 <= i < required_vks(kb.bind@).len() ==> pressed.contains(#[trigger] required_vks(kb.bind@)[i])
}

/// The action of the first complete keybind, if any.
pub open spec fn first_complete(keybinds: Seq<Keybind>, pressed: Set<u16>) -> Option<Seq<char>>
    decreases keybinds.len(),
{
    if keybinds.len() == 0 {
        None
    } else if keybind_complete(keybinds[0], pressed) {
        Some(keybinds[0].action.unwrap()@)
    } else {
        first_complete(keybinds.drop_first(), pressed)
    }
}

/// Holding more inputs never undoes a keybind: one that the held inputs
/// complete stays complete whatever else is held.
pub proof fn lemma_complete_is_monotone(kb: Keybind, pressed: Set<u16>, more: Set<u16>)
    requires
        keybind_complete(kb, pressed),
        pressed.subset_of(more),
    ensures
        keybind_complete(kb, more),
{
}

/// A keybind with an action and at least one input is completed by its own
/// inputs, and only by held inputs that include all of them.
pub proof fn lemma_complete_means_all_held(kb: Keybind, pressed: Set<u16>)
    requires
        kb.action is Some && kb.action.unwrap()@.len() > 0,
        required_vks(kb.bind@).len() > 0,
    ensures
        keybind_complete(kb, required_vks(kb.bind@).to_set()),
        keybind_complete(kb, pressed) <==> required_vks(kb.bind@).to_set().subset_of(pressed),
{
    let req = required_vks(kb.bind@);
    assert forall|i: int| 0 <= i < req.len() implies req.to_set().contains(#[trigger] req[i]) by {
        assert(req.contains(req[i]));
    }
    if keybind_complete(kb, pressed) {
        assert forall|x: u16| req.to_set().contains(x) implies pressed.contains(x) by {
            let i = choose|i: int| 0 <= i < req.len() && req[i] == x;
        }
    }
}

/// The action found for the held inputs is that of a keybind they complete,
/// with no complete keybind before it; and when some keybind is complete, an
/// action is found.
pub proof fn lemma_first_complete_is_first(keybinds: Seq<Keybind>, pressed: Set<u16>)
    ensures
        (exists|k: int| 0 <= k < keybinds.len() && keybind_complete(#[trigger] keybinds[k], pressed))
            <==> first_complete(keybinds, pressed) is Some,
        first_complete(keybinds, pressed) matches Some(a) ==> exists|k: int| 0 <= k < keybinds.len()
            && keybind_complete(#[trigger] keybinds[k], pressed) && keybinds[k].action.unwrap()@ == a
            && forall|j: int| 0 <= j < k ==> !keybind_complete(#[trigger] keybinds[j], pressed),
    decreases keybinds.len(),
{
    if keybinds.len() > 0 {
        let rest = keybinds.drop_first();
        lemma_first_complete_is_first(rest, pressed);
        if keybind_complete(keybinds[0], pressed) {
            assert(keybind_complete(keybinds[0], pressed));
        } else {
            if exists|k: int| 0 <= k < keybinds.len() && keybind_complete(#[trigger] keybinds[k], pressed) {
                let k = choose|k: int| 0 <= k < keybinds.len() && keybind_complete(#[trigger] keybinds[k], pressed);
                assert(rest[k - 1] == keybinds[k]);
            }
            if exists|k: int| 0 <= k < rest.len() && keybind_complete(#[trigger] rest[k], pressed) {
                let k = choose|k: int| 0 <= k < rest.len() && keybind_complete(#[trigger] rest[k], pressed);
                assert(keybinds[k + 1] == rest[k]);
            }
            if first_complete(keybinds, pressed) is Some {
                let a = first_complete(keybinds, pressed).unwrap();
                let k = choose|k: int| 0 <= k < rest.len()
                    && keybind_complete(#[trigger] rest[k], pressed) && rest[k].action.unwrap()@ == a
                    && forall|j: int| 0 <= j < k ==> !keybind_complete(#[trigger] rest[j], pressed);
                assert(keybinds[k + 1] == rest[k]);
                assert forall|j: int| 0 <= j < k + 1 implies !keybind_complete(#[trigger] keybinds[j], pressed) by {
                    if j > 0 {
                        assert(keybinds[j] == rest[j - 1]);
                    }
                }
            }
        }
    }
}

fn collect_required_vks(codes: &Vec<String>) -> (r: Vec<u16>)
    ensures
        r@ == required_vks(codes@),
{
    let mut out: Vec<u16> = Vec::new();
    let mut i: usize = 0;
    while i < codes.len()
        invariant
            i <= codes.len(),
            out@ == required_vks(codes@.take(i as int)),
        decreases codes.len() - i,
    {
        proof {
            assert(codes@.take(i + 1).drop_last() =~= codes@.take(i as int));
        }
        match parse_js_input(codes[i].as_str()) {
            Some(input) => {
                match input.to_vk() {
                    Some(vk) => out.push(vk),
                    None => {},
                }
            },
            None => {},
        }
        i += 1;
    }
    proof {
        assert(codes@.take(codes.len() as int) =~= codes@);
    }
    out
}

/// The action of the first keybind that the held inputs complete.
pub fn check_keybind_match(keybinds: &[Keybind], pressed: &HashSet<u16>) -> (r: Option<String>)
    ensures
        crate::models::media::opt_view(r) == first_complete(keybinds@, pressed@),
{
    broadcast use vstd::std_specs::hash::group_hash_axioms;
    let mut i: usize = 0;
    proof {
        assert(keybinds@.skip(0) =~= keybinds@);
    }
    while i < keybinds.len()
        invariant
            i <= keybinds.len(),
            first_complete(keybinds@, pressed@) == first_complete(keybinds@.skip(i as int), pressed@),
        decreases keybinds.len() - i,
    {
        let kb = &keybinds[i];
        proof {
            assert(keybinds@.skip(i as int)[0] == kb);
            assert(keybinds@.skip(i as int).drop_first() =~= keybinds@.skip(i + 1));
        }
        let action_ok = match &kb.action {
            Some(a) => !a.as_str().is_empty(),
            None => false,
        };
        if action_ok {
            let required = collect_required_vks(&kb.bind);
            if required.len() > 0 {
                let mut all = true;
                let mut j: usize = 0;
                while j < required.len()
                    invariant
                        j <= required.len(),
                        all == forall|k: int| 0 <= k < j ==> pressed@.contains(#[trigger] required@[k]),
                    decreases required.len() - j,
                {
                    if !pressed.contains(&required[j]) {
                        all = false;
                    }
                    j += 1;
                }
                if all {
                    return match &kb.action {
                        Some(a) => Some(a.clone()),
                        None => None,
                    };
                }
            }
        }
        i += 1;
    }
    None
}

/// The synthetic virtual-key code of a wheel step, from the direction of the
/// wheel and the high word of the hook's mouse data (a signed delta).
pub open spec fn spec_wheel_vk(is_horizontal: bool, mouse_data: u32) -> u16 {
    let high = mouse_data >> 16u32;
    let positive = 1 <= high <= 0x7FFF;
    if is_horizontal {
        if positive { 0x0102 } else { 0x0103 }
    } else {
        if positive { 0x0100 } else { 0x0101 }
    }
}

pub fn wheel_vk(is_horizontal: bool, mouse_data: u32) -> (r: u16)
    ensures
        r == spec_wheel_vk(is_horizontal, mouse_data),
{
    let high = mouse_data >> 16u32;
    let positive = high >= 1 && high <= 0x7FFF;
    if is_horizontal {
        if positive { 0x0102 } else { 0x0103 }
    } else {
        if positive { 0x0100 } else { 0x0101 }
    }
}

/// The mouse buttons that the hook reports.
#[derive(Debug, Clone, Copy, PartialEq, Eq, Structural)]
pub enum MouseButton {
    Left,
    Right,
    Middle,
    /// One of the extra buttons; which one is in the mouse data.
    X,
}

/// The virtual-key code of a mouse button event; extra buttons other than the
/// first two have none.
pub open spec fn spec_mouse_button_vk(button: MouseButton, mouse_data: u32) -> Option<u16> {
    match button {
        MouseButton::Left => Some(0x01),
        MouseButton::Right => Some(0x02),
        MouseButton::Middle => Some(0x04),
        MouseButton::X => if mouse_data == 0x10000 {
            Some(0x05)
        } else if mouse_data == 0x20000 {
            Some(0x06)
        } else {
            None
        },
    }
}

/// The hooks report each button and wheel step as the input that its code
/// names, so a keybind fires on the button or step it was written with: the
/// left button is `Mouse0`, the middle one `Mouse1`, the right one `Mouse2`, the
/// extra ones `Mouse3` and `Mouse4`; a step up, down, right or left is
/// `WheelUp`, `WheelDown`, `WheelRight` or `WheelLeft`.
pub proof fn lemma_hook_inputs_match_codes(mouse_data: u32)
    ensures
        spec_mouse_button_vk(MouseButton::Left, mouse_data) == Some(js_input("Mouse0"@).unwrap().spec_vk()),
        spec_mouse_button_vk(MouseButton::Middle, mouse_data) == Some(js_input("Mouse1"@).unwrap().spec_vk()),
        spec_mouse_button_vk(MouseButton::Right, mouse_data) == Some(js_input("Mouse2"@).unwrap().spec_vk()),
        spec_mouse_button_vk(MouseButton::X, 0x10000) == Some(js_input("Mouse3"@).unwrap().spec_vk()),
        spec_mouse_button_vk(MouseButton::X, 0x20000) == Some(js_input("Mouse4"@).unwrap().spec_vk()),
        (1 <= (mouse_data >> 16u32) <= 0x7FFF) ==> spec_wheel_vk(false, mouse_data) == js_input("WheelUp"@).unwrap().spec_vk()
            && spec_wheel_vk(true, mouse_data) == js_input("WheelRight"@).unwrap().spec_vk(),
        !(1 <= (mouse_data >> 16u32) <= 0x7FFF) ==> spec_wheel_vk(false, mouse_data) == js_input("WheelDown"@).unwrap().spec_vk()
            && spec_wheel_vk(true, mouse_data) == js_input("WheelLeft"@).unwrap().spec_vk(),
{
    crate::input_codes::lemma_table_literals();
    crate::input_codes::lemma_named_code("Mouse0"@);
    crate::input_codes::lemma_named_code("Mouse1"@);
    crate::input_codes::lemma_named_code("Mouse2"@);
    crate::input_codes::lemma_named_code("Mouse3"@);
    crate::input_codes::lemma_named_code("Mouse4"@);
    crate::input_codes::lemma_named_code("WheelUp"@);
    crate::input_codes::lemma_named_code("WheelDown"@);
    crate::input_codes::lemma_named_code("WheelRight"@);
    crate::input_codes::lemma_named_code("WheelLeft"@);
}

pub fn mouse_button_vk(button: MouseButton, mouse_data: u32) -> (r: Option<u16>)
    ensures
        r == spec_mouse_button_vk(button, mouse_data),
{
    match button {
        MouseButton::Left => Some(0x01),
        MouseButton::Right => Some(0x02),
        MouseButton::Middle => Some(0x04),
        MouseButton::X => if mouse_data == 0x10000 {
            Some(0x05)
        } else if mouse_data == 0x20000 {
            Some(0x06)
        } else {
            None
        },
    }
}

/// Media and volume keys (0xAD to 0xB5) that complete a keybind are swallowed.
pub open spec fn is_media_key(vk: u16) -> bool {
    0xAD <= vk <= 0xB5
}

/// What a key press leads to: the action of the keybind it completes, and whether
/// the key is withheld from the other applications.
#[derive(Debug, Clone)]
pub struct KeyOutcome {
    pub action: Option<String>,
    pub swallow: bool,
}

/// The inputs held down, as the hooks see them.
pub struct HookState {
    pressed: HashSet<u16>,
}

impl HookState {
    pub closed spec fn pressed_set(self) -> Set<u16> {
        self.pressed@
    }

    pub fn new() -> (r: HookState)
        ensures
            r.pressed_set() == Set::<u16>::empty(),
    {
        HookState { pressed: HashSet::new() }
    }

    /// Whether an input is held down.
    pub fn is_pressed(&self, vk: u16) -> (r: bool)
        ensures
            r == self.pressed_set().contains(vk),
    {
        broadcast use vstd::std_specs::hash::group_hash_axioms;
        self.pressed.contains(&vk)
    }

    /// How many inputs are held down.
    pub fn pressed_count(&self) -> (r: usize)
        ensures
            r == self.pressed_set().len(),
    {
        broadcast use vstd::std_specs::hash::group_hash_axioms;
        self.pressed.len()
    }

    fn press(&mut self, vk: u16)
        ensures
            final(self).pressed_set() == old(self).pressed_set().insert(vk),
    {
        broadcast use vstd::std_specs::hash::group_hash_axioms;
        self.pressed.insert(vk);
    }

    fn release(&mut self, vk: u16)
        ensures
            final(self).pressed_set() == old(self).pressed_set().remove(vk),
    {
        broadcast use vstd::std_specs::hash::group_hash_axioms;
        self.pressed.remove(&vk);
    }

    /// A key goes down: it joins the held inputs, and the first keybind that this
    /// completes is triggered; a media key that triggers a keybind is swallowed.
    pub fn key_down(&mut self, vk: u16, keybinds: &[Keybind]) -> (r: KeyOutcome)
        ensures
            final(self).pressed_set() == old(self).pressed_set().insert(vk),
            crate::models::media::opt_view(r.action) == first_complete(keybinds@, final(self).pressed_set()),
            r.swallow == (r.action is Some && is_media_key(vk)),
    {
        self.press(vk);
        let action = check_keybind_match(keybinds, &self.pressed);
        let swallow = action.is_some() && vk >= 0xAD && vk <= 0xB5;
        KeyOutcome { action, swallow }
    }

    /// A key goes up: it leaves the held inputs.
    pub fn key_up(&mut self, vk: u16)
        ensures
            final(self).pressed_set() == old(self).pressed_set().remove(vk),
    {
        self.release(vk);
    }

    /// A wheel step is a momentary press: the keybind it completes with the held
    /// inputs is triggered, and it is not held afterwards.
    pub fn wheel(&mut self, is_horizontal: bool, mouse_data: u32, keybinds: &[Keybind]) -> (r: Option<String>)
        ensures
            crate::models::media::opt_view(r) == first_complete(
                keybinds@,
                old(self).pressed_set().insert(spec_wheel_vk(is_horizontal, mouse_data)),
            ),
            final(self).pressed_set() == old(self).pressed_set().remove(spec_wheel_vk(is_horizontal, mouse_data)),
    {
        let vk = wheel_vk(is_horizontal, mouse_data);
        self.press(vk);
        let action = check_keybind_match(keybinds, &self.pressed);
        self.release(vk);
        proof {
            assert(old(self).pressed_set().insert(vk).remove(vk) =~= old(self).pressed_set().remove(vk));
        }
        action
    }

    /// A mouse button goes down (joining the held inputs and triggering the
    /// keybind it completes) or up (leaving them).
    pub fn mouse_button(&mut self, vk: u16, is_down: bool, keybinds: &[Keybind]) -> (r: Option<String>)
        ensures
            is_down ==> final(self).pressed_set() == old(self).pressed_set().insert(vk)
                && crate::models::media::opt_view(r) == first_complete(keybinds@, final(self).pressed_set()),
            !is_down ==> final(self).pressed_set() == old(self).pressed_set().remove(vk) && r is None,
    {
        if is_down {
            self.press(vk);
            check_keybind_match(keybinds, &self.pressed)
        } else {
            self.release(vk);
            None
        }
    }
}


/// A key pressed and then released is no longer held, and nothing else changed.
pub proof fn lemma_press_release(pressed: Set<u16>, vk: u16)
    ensures
        pressed.insert(vk).remove(vk) == pressed.remove(vk),
        !pressed.contains(vk) ==> pressed.insert(vk).remove(vk) == pressed,
{
    assert(pressed.insert(vk).remove(vk) =~= pressed.remove(vk));
    if !pressed.contains(vk) {
        assert(pressed.remove(vk) =~= pressed);
    }
}

/// The keybinds in force on Windows, which the hooks match presses against.
pub struct KeybindsManager {
    config: crate::config::Config,
    keybinds: Vec<Keybind>,
}

impl KeybindsManager {
    pub closed spec fn keybinds_view(self) -> Seq<Keybind> {
        self.keybinds@
    }

    /// Starts with the keybinds of the configuration.
    pub fn new(config: crate::config::Config) -> (r: KeybindsManager)
        ensures
            r.keybinds_view().len() == config.keybinds@.len(),
            forall|i: int| 0 <= i < config.keybinds@.len() ==> crate::config::same_keybind(
                #[trigger] r.keybinds_view()[i],
                config.keybinds@[i],
            ),
    {
        let keybinds = crate::config::duplicate_keybinds(&config.keybinds);
        KeybindsManager { config, keybinds }
    }

    /// Replaces the keybinds in force.
    pub fn set_keybinds(&mut self, keybinds: Vec<Keybind>)
        ensures
            final(self).keybinds_view() == keybinds@,
    {
        self.keybinds = keybinds;
    }

    /// The keybinds in force.
    pub fn keybinds(&self) -> (r: &Vec<Keybind>)
        ensures
            r@ == self.keybinds_view(),
    {
        &self.keybinds
    }
}

} // verus!
