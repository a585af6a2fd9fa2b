//! Global shortcuts on Linux, through the GlobalShortcuts portal: which
//! compositors use it, which shortcuts the keybinds declare, under which D-Bus
//! identifiers they are registered, and what the portal worker does with each
//! command and each activation.
use vstd::prelude::*;
use crate::config::Keybind;
use crate::text::{lowercase, has_infix, str_contains, str_is_blank, is_blank, is_ascii_alpha, is_ascii_digit,
    to_chars};

verus! {

/// Whether the desktop (the value of `XDG_CURRENT_DESKTOP`) is one whose
/// compositor offers global shortcuts through the portal.
pub open spec fn spec_should_use_portal(desktop: Seq<char>) -> bool {
    let d = lowercase(desktop);
    has_infix(d, "hyprland"@) || has_infix(d, "sway"@) || has_infix(d, "kde"@) || has_infix(d, "plasma"@)
}

pub fn should_use_portal(desktop: &str) -> (r: bool)
    ensures
        r == spec_should_use_portal(desktop@),
{
    let d = desktop.to_lowercase();
    str_contains(d.as_str(), "hyprland") || str_contains(d.as_str(), "sway") || str_contains(d.as_str(), "kde")
        || str_contains(d.as_str(), "plasma")
}

/// A shortcut declared to the portal: the action it triggers and its label.
#[derive(Clone, Debug)]
pub struct ShortcutDefinition {
    pub action: String,
    pub label: String,
}

impl ShortcutDefinition {
    pub open spec fn view_pair(self) -> (Seq<char>, Seq<char>) {
        (self.action@, self.label@)
    }

    pub fn duplicate(&self) -> (r: ShortcutDefinition)
        ensures
            r == *self,
    {
        ShortcutDefinition { action: self.action.clone(), label: self.label.clone() }
    }
}

/// The shortcuts, by action and label.
pub open spec fn definitions_view(s: Seq<ShortcutDefinition>) -> Seq<(Seq<char>, Seq<char>)> {
    s.map_values(|d: ShortcutDefinition| d.view_pair())
}

/// Whether some shortcut of the list triggers `action`.
pub open spec fn has_action(defs: Seq<(Seq<char>, Seq<char>)>, action: Seq<char>) -> bool {
    exists|i: int| 0 <= i < defs.len() && (#[trigger] defs[i]).0 == action
}

/// The shortcuts that the keybinds declare, in order: one per distinct non-empty
/// action (the first keybind of an action wins), labelled with the keybind's
/// label unless that is absent or blank, in which case with the action.
pub open spec fn spec_extract_actions(keybinds: Seq<Keybind>) -> Seq<(Seq<char>, Seq<char>)>
    decreases keybinds.len(),
{
    if keybinds.len() == 0 {
        Seq::empty()
    } else {
        let rest = spec_extract_actions(keybinds.drop_last());
        let kb = keybinds.last();
        match kb.action {
            Some(action) => if action@.len() == 0 || has_action(rest, action@) {
                rest
            } else {
                let label = match kb.label {
                    Some(l) => if is_blank(l@) { action@ } else { l@ },
                    None => action@,
                };
                rest.push((action@, label))
            },
            None => rest,
        }
    }
}

fn find_action(actions: &Vec<ShortcutDefinition>, action: &String) -> (r: bool)
    ensures
        r == has_action(definitions_view(actions@), action@),
{
    let mut i: usize = 0;
    while i < actions.len()
        invariant
            i <= actions.len(),
            forall|k: int| 0 <= k < i ==> actions@[k].action@ != action@,
        decreases actions.len() - i,
    {
        if actions[i].action == *action {
            proof {
                assert(definitions_view(actions@)[i as int].0 == action@);
            }
            return true;
        }
        i += 1;
    }
    proof {
        if has_action(definitions_view(actions@), action@) {
            let k = choose|k: int| 0 <= k < definitions_view(actions@).len() && (#[trigger] definitions_view(actions@)[k]).0 == action@;
            assert(actions@[k].action@ == action@);
        }
    }
    false
}

/// A command for the portal worker.
#[derive(Clone, Debug)]
pub enum PortalCommand {
    /// Declare these shortcuts instead of the current ones.
    Update(Vec<ShortcutDefinition>),
    /// Close the session and stop.
    Shutdown,
}

/// The keybinds on Linux: whether the portal worker runs, which only happens
/// on the desktops whose compositor offers the portal.
pub struct KeybindsManager {
    started: bool,
}

impl KeybindsManager {
    pub closed spec fn is_started(self) -> bool {
        self.started
    }

    /// Starts the portal worker on a desktop that offers it (the value of
    /// `XDG_CURRENT_DESKTOP` is `desktop`), with the shortcuts of the
    /// configured keybinds; elsewhere nothing starts.
    pub fn new(config: &crate::config::Config, desktop: &str) -> (r: (KeybindsManager, Option<Vec<ShortcutDefinition>>))
        ensures
            r.0.is_started() == spec_should_use_portal(desktop@),
            match r.1 {
                Some(v) => spec_should_use_portal(desktop@) && definitions_view(v@) == spec_extract_actions(config.keybinds@),
                None => !spec_should_use_portal(desktop@),
            },
    {
        if should_use_portal(desktop) {
            let initial = KeybindsManager::extract_actions(config.keybinds.as_slice());
            (KeybindsManager { started: true }, Some(initial))
        } else {
            (KeybindsManager { started: false }, None)
        }
    }

    /// The command that declares the shortcuts of new keybinds, when the
    /// desktop offers the portal and the worker runs.
    pub fn set_keybinds(&self, keybinds: &[Keybind], desktop: &str) -> (r: Option<PortalCommand>)
        ensures
            match r {
                Some(PortalCommand::Update(v)) => spec_should_use_portal(desktop@) && self.is_started()
                    && definitions_view(v@) == spec_extract_actions(keybinds@),
                Some(PortalCommand::Shutdown) => false,
                None => !(spec_should_use_portal(desktop@) && self.is_started()),
            },
    {
        if !should_use_portal(desktop) || !self.started {
            return None;
        }
        Some(PortalCommand::Update(KeybindsManager::extract_actions(keybinds)))
    }

    /// The command that stops the worker, once: afterwards nothing runs.
    pub fn cleanup(&mut self) -> (r: Option<PortalCommand>)
        ensures
            old(self).is_started() ==> r matches Some(PortalCommand::Shutdown),
            !old(self).is_started() ==> r is None,
            !final(self).is_started(),
    {
        if self.started {
            self.started = false;
            Some(PortalCommand::Shutdown)
        } else {
            None
        }
    }

    /// The shortcuts to declare to the portal for a list of keybinds.
    pub fn extract_actions(keybinds: &[Keybind]) -> (r: Vec<ShortcutDefinition>)
        ensures
            definitions_view(r@) == spec_extract_actions(keybinds@),
    {
        let mut actions: Vec<ShortcutDefinition> = Vec::new();
        let mut i: usize = 0;
        while i < keybinds.len()
            invariant
                i <= keybinds.len(),
                definitions_view(actions@) == spec_extract_actions(keybinds@.take(i as int)),
            decreases keybinds.len() - i,
        {
            proof {
                assert(keybinds@.take(i + 1).drop_last() =~= keybinds@.take(i as int));
            }
            let kb = &keybinds[i];
            match &kb.action {
                Some(action) => {
                    if !action.as_str().is_empty() && !find_action(&actions, action) {
                        let label = match &kb.label {
                            Some(l) => if str_is_blank(l.as_str()) { action.clone() } else { l.clone() },
                            None => action.clone(),
                        };
                        let ghost before = actions@;
                        actions.push(ShortcutDefinition { action: action.clone(), label });
                        proof {
                            assert(definitions_view(actions@) =~= definitions_view(before).push(actions@.last().view_pair()));
                        }
                    }
                },
                None => {},
            }
            i += 1;
        }
        proof {
            assert(keybinds@.take(keybinds.len() as int) =~= keybinds@);
        }
        actions
    }
}

} // verus!

verus! {

/// What one character of an action becomes in a D-Bus identifier: letters and
/// `_` stay, digits stay unless first (then `_` comes before them), anything
/// else becomes `_`.
pub open spec fn sanitized_char(c: char, first: bool) -> Seq<char> {
    if is_ascii_alpha(c) || c == '_' || (!first && is_ascii_digit(c)) {
        seq![c]
    } else if first && is_ascii_digit(c) {
        seq!['_', c]
    } else {
        seq!['_']
    }
}

/// The D-Bus identifier under which an action is registered.
pub open spec fn spec_sanitize_dbus_id(id: Seq<char>) -> Seq<char>
    decreases id.len(),
{
    if id.len() == 0 {
        Seq::empty()
    } else {
        spec_sanitize_dbus_id(id.drop_last()) + sanitized_char(id.last(), id.len() == 1)
    }
}

pub fn sanitize_dbus_id(id: &str) -> (r: String)
    ensures
        r@ == spec_sanitize_dbus_id(id@),
{
    let cs = to_chars(id);
    let mut safe = String::new();
    let mut i: usize = 0;
    while i < cs.len()
        invariant
            i <= cs.len(),
            cs@ == id@,
            safe@ == spec_sanitize_dbus_id(cs@.take(i as int)),
        decreases cs.len() - i,
    {
        let c = cs[i];
        let alpha = (c >= 'a' && c <= 'z') || (c >= 'A' && c <= 'Z');
        let digit = c >= '0' && c <= '9';
        let ghost before = safe@;
        if alpha || c == '_' || (i > 0 && digit) {
            safe.push(c);
        } else if i == 0 && digit {
            safe.push('_');
            safe.push(c);
        } else {
            safe.push('_');
        }
        proof {
            assert(cs@.take(i + 1).drop_last() =~= cs@.take(i as int));
            assert(safe@ =~= before + sanitized_char(c, i == 0));
        }
        i += 1;
    }
    proof {
        assert(cs@.take(cs.len() as int) =~= cs@);
    }
    safe
}

/// Every identifier made by `sanitize_dbus_id` is a valid D-Bus name element:
/// only ASCII letters, digits and `_`, and no digit first.
pub proof fn lemma_sanitized_id_is_valid(id: Seq<char>)
    ensures
        forall|i: int| 0 <= i < spec_sanitize_dbus_id(id).len() ==> {
            let c = #[trigger] spec_sanitize_dbus_id(id)[i];
            is_ascii_alpha(c) || is_ascii_digit(c) || c == '_'
        },
        spec_sanitize_dbus_id(id).len() > 0 ==> !is_ascii_digit(spec_sanitize_dbus_id(id)[0]),
        spec_sanitize_dbus_id(id).len() >= id.len(),
    decreases id.len(),
{
    if id.len() > 0 {
        lemma_sanitized_id_is_valid(id.drop_last());
        let rest = spec_sanitize_dbus_id(id.drop_last());
        let tail = sanitized_char(id.last(), id.len() == 1);
        let all = spec_sanitize_dbus_id(id);
        assert(all == rest + tail);
        assert forall|i: int| 0 <= i < all.len() implies {
            let c = #[trigger] all[i];
            is_ascii_alpha(c) || is_ascii_digit(c) || c == '_'
        } by {
            if i < rest.len() {
                assert(all[i] == rest[i]);
            } else {
                assert(all[i] == tail[i - rest.len()]);
            }
        };
        if id.len() == 1 {
            assert(rest.len() == 0);
            assert(all[0] == tail[0]);
        } else {
            assert(rest.len() > 0);
            assert(all[0] == rest[0]);
        }
    }
}

/// A valid D-Bus name element (or nothing): ASCII letters, digits and `_`,
/// no digit first.
pub open spec fn is_dbus_id(s: Seq<char>) -> bool {
    &&& forall|i: int| 0 <= i < s.len() ==> is_ascii_alpha(#[trigger] s[i]) || is_ascii_digit(s[i]) || s[i] == '_'
    &&& s.len() > 0 ==> !is_ascii_digit(s[0])
}

/// Sanitising keeps one character for each, and adds one `_` before a digit
/// that comes first.
pub proof fn lemma_sanitized_id_length(id: Seq<char>)
    ensures
        spec_sanitize_dbus_id(id).len() == id.len() + (if id.len() > 0 && is_ascii_digit(id[0]) { 1int } else { 0int }),
    decreases id.len(),
{
    if id.len() > 0 {
        lemma_sanitized_id_length(id.drop_last());
        if id.len() > 1 {
            assert(id.drop_last()[0] == id[0]);
        }
    }
}

/// An identifier that already is a valid name element is kept as it is.
pub proof fn lemma_sanitize_keeps_valid_id(id: Seq<char>)
    requires
        is_dbus_id(id),
    ensures
        spec_sanitize_dbus_id(id) == id,
    decreases id.len(),
{
    if id.len() > 0 {
        let rest = id.drop_last();
        assert forall|i: int| 0 <= i < rest.len() implies is_ascii_alpha(#[trigger] rest[i]) || is_ascii_digit(rest[i]) || rest[i] == '_' by {
            assert(rest[i] == id[i]);
        }
        if rest.len() > 0 {
            assert(rest[0] == id[0]);
        }
        lemma_sanitize_keeps_valid_id(rest);
        let c = id.last();
        assert(is_ascii_alpha(id[id.len() - 1]) || is_ascii_digit(id[id.len() - 1]) || id[id.len() - 1] == '_');
        if id.len() == 1 {
            assert(id[0] == c);
        }
        assert(sanitized_char(c, id.len() == 1) == seq![c]);
        assert(spec_sanitize_dbus_id(id) =~= id);
    }
}

/// Sanitising twice gives what sanitising once gives.
pub proof fn lemma_sanitize_idempotent(id: Seq<char>)
    ensures
        spec_sanitize_dbus_id(spec_sanitize_dbus_id(id)) == spec_sanitize_dbus_id(id),
{
    lemma_sanitized_id_is_valid(id);
    let r = spec_sanitize_dbus_id(id);
    assert forall|i: int| 0 <= i < r.len() implies is_ascii_alpha(#[trigger] r[i]) || is_ascii_digit(r[i]) || r[i] == '_' by {
        let c = r[i];
        assert(is_ascii_alpha(c) || is_ascii_digit(c) || c == '_');
    }
    lemma_sanitize_keeps_valid_id(r);
}

/// The identifier-to-action entries registered for some shortcuts, in order;
/// where two actions share an identifier, the later entry is the one that counts.
pub open spec fn spec_bindings(actions: Seq<ShortcutDefinition>) -> Seq<(Seq<char>, Seq<char>)> {
    actions.map_values(|d: ShortcutDefinition| (spec_sanitize_dbus_id(d.action@), d.action@))
}

/// The action registered under an identifier: the last entry for it.
pub open spec fn lookup_binding(map: Seq<(Seq<char>, Seq<char>)>, id: Seq<char>) -> Option<Seq<char>>
    decreases map.len(),
{
    if map.len() == 0 {
        None
    } else if map.last().0 == id {
        Some(map.last().1)
    } else {
        lookup_binding(map.drop_last(), id)
    }
}

/// What the portal worker does with an update of the shortcuts.
#[derive(Debug, Clone, Copy, PartialEq, Eq, Structural)]
pub enum UpdatePlan {
    /// The shortcuts did not change: nothing to do.
    Unchanged,
    /// Close the current session first when `close_session`, open a new one,
    /// and bind the new shortcuts when `bind`.
    Apply { close_session: bool, bind: bool },
}

/// What an activation signal of the portal means.
#[derive(Debug, Clone)]
pub enum Activation {
    /// A shortcut of an active action was pressed.
    Pressed(String),
    /// The identifier belongs to an action that is no longer active.
    Deactivated(String),
    /// No shortcut was registered under the identifier.
    Unknown,
}

/// The state of the portal worker: the active shortcuts, the identifiers under
/// which they were registered, and whether the session has shortcuts bound.
pub struct PortalState {
    active_actions: Vec<ShortcutDefinition>,
    known_map: Vec<(String, String)>,
    session_bound: bool,
}

/// Whether two lists declare the same shortcuts, in the same order.
pub open spec fn same_definitions(a: Seq<ShortcutDefinition>, b: Seq<ShortcutDefinition>) -> bool {
    definitions_view(a) == definitions_view(b)
}

fn definitions_equal(a: &Vec<ShortcutDefinition>, b: &Vec<ShortcutDefinition>) -> (r: bool)
    ensures
        r == same_definitions(a@, b@),
{
    if a.len() != b.len() {
        proof {
            assert(definitions_view(a@).len() != definitions_view(b@).len());
        }
        return false;
    }
    let mut i: usize = 0;
    while i < a.len()
        invariant
            a.len() == b.len(),
            i <= a.len(),
            forall|k: int| 0 <= k < i ==> (#[trigger] a@[k]).view_pair() == b@[k].view_pair(),
        decreases a.len() - i,
    {
        if !(a[i].action == b[i].action) || !(a[i].label == b[i].label) {
            proof {
                assert(definitions_view(a@)[i as int] != definitions_view(b@)[i as int]);
            }
            return false;
        }
        i += 1;
    }
    proof {
        assert(definitions_view(a@) =~= definitions_view(b@));
    }
    true
}

fn duplicate_definitions(v: &Vec<ShortcutDefinition>) -> (r: Vec<ShortcutDefinition>)
    ensures
        r@ == v@,
{
    let mut out: Vec<ShortcutDefinition> = Vec::new();
    let mut i: usize = 0;
    while i < v.len()
        invariant
            i <= v.len(),
            out@ == v@.take(i as int),
        decreases v.len() - i,
    {
        out.push(v[i].duplicate());
        proof {
            assert(v@.take(i as int).push(v@[i as int]) =~= v@.take(i + 1));
        }
        i += 1;
    }
    proof {
        assert(v@.take(v.len() as int) =~= v@);
    }
    out
}

impl PortalState {
    pub closed spec fn active_view(self) -> Seq<ShortcutDefinition> {
        self.active_actions@
    }

    pub closed spec fn map_view(self) -> Seq<(Seq<char>, Seq<char>)> {
        self.known_map@.map_values(|e: (String, String)| (e.0@, e.1@))
    }

    pub closed spec fn is_bound(self) -> bool {
        self.session_bound
    }

    /// The state of a new session that is to declare `initial` (it is bound when
    /// there is anything to declare; nothing is registered yet).
    pub fn new(initial: Vec<ShortcutDefinition>) -> (r: PortalState)
        ensures
            r.active_view() == initial@,
            r.is_bound() == (initial@.len() > 0),
            r.map_view() == Seq::<(Seq<char>, Seq<char>)>::empty(),
    {
        let bound = initial.len() > 0;
        let r = PortalState { active_actions: initial, known_map: Vec::new(), session_bound: bound };
        proof {
            assert(r.map_view() =~= Seq::<(Seq<char>, Seq<char>)>::empty());
        }
        r
    }

    /// The active shortcuts.
    pub fn active_actions(&self) -> (r: Vec<ShortcutDefinition>)
        ensures
            r@ == self.active_view(),
    {
        duplicate_definitions(&self.active_actions)
    }

    /// Whether the session has shortcuts bound.
    pub fn session_bound(&self) -> (r: bool)
        ensures
            r == self.is_bound(),
    {
        self.session_bound
    }

    /// Takes a new list of shortcuts. An identical list changes nothing. Any
    /// other list replaces the active one: a bound session is closed (and what it
    /// registered forgotten), and a new list that is not empty is to be bound.
    pub fn on_update(&mut self, new_actions: Vec<ShortcutDefinition>) -> (r: UpdatePlan)
        ensures
            same_definitions(new_actions@, old(self).active_view()) ==> {
                &&& r == UpdatePlan::Unchanged
                &&& final(self).active_view() == old(self).active_view()
                &&& final(self).map_view() == old(self).map_view()
                &&& final(self).is_bound() == old(self).is_bound()
            },
            !same_definitions(new_actions@, old(self).active_view()) ==> {
                &&& r == UpdatePlan::Apply { close_session: old(self).is_bound(), bind: new_actions@.len() > 0 }
                &&& final(self).active_view() == new_actions@
                &&& final(self).is_bound() == (new_actions@.len() > 0)
                &&& final(self).map_view() == (if old(self).is_bound() {
                    Seq::<(Seq<char>, Seq<char>)>::empty()
                } else {
                    old(self).map_view()
                })
            },
    {
        if definitions_equal(&new_actions, &self.active_actions) {
            return UpdatePlan::Unchanged;
        }
        let close_session = self.session_bound;
        if self.session_bound {
            self.session_bound = false;
            self.known_map = Vec::new();
            proof {
                assert(self.map_view() =~= Seq::<(Seq<char>, Seq<char>)>::empty());
            }
        }
        let bind = new_actions.len() > 0;
        self.active_actions = new_actions;
        if bind {
            self.session_bound = true;
        }
        UpdatePlan::Apply { close_session, bind }
    }

    /// The shortcuts to bind for the active actions: their D-Bus identifier and label.
    pub fn shortcuts_to_bind(&self) -> (r: Vec<(String, String)>)
        ensures
            r@.len() == self.active_view().len(),
            forall|i: int| 0 <= i < r@.len() ==> (#[trigger] r@[i]).0@ == spec_sanitize_dbus_id(
                self.active_view()[i].action@,
            ) && r@[i].1@ == self.active_view()[i].label@,
    {
        let mut out: Vec<(String, String)> = Vec::new();
        let mut i: usize = 0;
        while i < self.active_actions.len()
            invariant
                i <= self.active_actions.len(),
                out@.len() == i,
                forall|k: int| 0 <= k < i ==> (#[trigger] out@[k]).0@ == spec_sanitize_dbus_id(
                    self.active_actions@[k].action@,
                ) && out@[k].1@ == self.active_actions@[k].label@,
            decreases self.active_actions.len() - i,
        {
            let d = &self.active_actions[i];
            out.push((sanitize_dbus_id(d.action.as_str()), d.label.clone()));
            i += 1;
        }
        out
    }

    /// Records that the active shortcuts were bound: each is now known under its
    /// D-Bus identifier.
    pub fn on_bound(&mut self)
        ensures
            final(self).map_view() == spec_bindings(old(self).active_view()),
            final(self).active_view() == old(self).active_view(),
            final(self).is_bound() == old(self).is_bound(),
    {
        let mut map: Vec<(String, String)> = Vec::new();
        let mut i: usize = 0;
        while i < self.active_actions.len()
            invariant
                i <= self.active_actions.len(),
                map@.map_values(|e: (String, String)| (e.0@, e.1@)) =~= spec_bindings(
                    self.active_actions@.take(i as int),
                ),
            decreases self.active_actions.len() - i,
        {
            let d = &self.active_actions[i];
            map.push((sanitize_dbus_id(d.action.as_str()), d.action.clone()));
            proof {
                assert(spec_bindings(self.active_actions@.take(i + 1)) =~= spec_bindings(
                    self.active_actions@.take(i as int),
                ).push((spec_sanitize_dbus_id(d.action@), d.action@)));
            }
            i += 1;
        }
        proof {
            assert(self.active_actions@.take(self.active_actions@.len() as int) =~= self.active_actions@);
        }
        self.known_map = map;
    }

    /// What an activation of the identifier `safe_id` means: the action
    /// registered under it is pressed when it is still active.
    pub fn on_activated(&self, safe_id: &str) -> (r: Activation)
        ensures
            match lookup_binding(self.map_view(), safe_id@) {
                None => r is Unknown,
                Some(action) => if has_action(definitions_view(self.active_view()), action) {
                    r matches Activation::Pressed(a) && a@ == action
                } else {
                    r matches Activation::Deactivated(a) && a@ == action
                },
            },
    {
        let mut i = self.known_map.len();
        proof {
            assert(self.map_view().take(i as int) =~= self.map_view());
        }
        while i > 0
            invariant
                i <= self.known_map.len(),
                lookup_binding(self.map_view(), safe_id@) == lookup_binding(self.map_view().take(i as int), safe_id@),
            decreases i,
        {
            proof {
                assert(self.map_view().take(i as int).drop_last() =~= self.map_view().take(i - 1));
            }
            let entry = &self.known_map[i - 1];
            if crate::text::str_eq(entry.0.as_str(), safe_id) {
                let shortcut_id = entry.1.clone();
                if find_action(&self.active_actions, &shortcut_id) {
                    return Activation::Pressed(shortcut_id);
                } else {
                    return Activation::Deactivated(shortcut_id);
                }
            }
            i -= 1;
        }
        Activation::Unknown
    }
}

/// A list whose actions have distinct D-Bus identifiers.
pub open spec fn distinct_ids(actions: Seq<ShortcutDefinition>) -> bool {
    forall|i: int, j: int| 0 <= i < j < actions.len() ==> spec_sanitize_dbus_id((#[trigger] actions[i]).action@)
        != spec_sanitize_dbus_id((#[trigger] actions[j]).action@)
}

proof fn lemma_lookup_bindings(actions: Seq<ShortcutDefinition>, k: int)
    requires
        0 <= k < actions.len(),
        distinct_ids(actions),
    ensures
        lookup_binding(spec_bindings(actions), spec_sanitize_dbus_id(actions[k].action@)) == Some(actions[k].action@),
    decreases actions.len(),
{
    let m = spec_bindings(actions);
    if k < actions.len() - 1 {
        let t = actions.drop_last();
        assert(spec_bindings(t) =~= m.drop_last());
        assert(m.last().0 != spec_sanitize_dbus_id(actions[k].action@));
        assert forall|i: int, j: int| 0 <= i < j < t.len() implies spec_sanitize_dbus_id((#[trigger] t[i]).action@)
            != spec_sanitize_dbus_id((#[trigger] t[j]).action@) by {
            assert(t[i] == actions[i] && t[j] == actions[j]);
        };
        lemma_lookup_bindings(t, k);
    }
}

/// Once a list of shortcuts with distinct identifiers is bound, activating the
/// identifier of any of its actions presses that action.
pub proof fn lemma_bound_shortcut_presses(actions: Seq<ShortcutDefinition>, k: int)
    requires
        0 <= k < actions.len(),
        distinct_ids(actions),
    ensures
        lookup_binding(spec_bindings(actions), spec_sanitize_dbus_id(actions[k].action@)) == Some(actions[k].action@),
        has_action(definitions_view(actions), actions[k].action@),
{
    lemma_lookup_bindings(actions, k);
    assert(definitions_view(actions)[k].0 == actions[k].action@);
}

} // verus!
