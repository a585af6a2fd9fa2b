//! The configuration that the host application hands to the native module.
use vstd::prelude::*;

verus! {

/// One keybind: the action it triggers, an optional human-readable label and the
/// codes of the inputs that make it up (for example `["AltLeft", "KeyA"]`,
/// `["Mouse3"]`, `["WheelUp"]`).
#[derive(Clone, Debug)]
pub struct Keybind {
    pub action: Option<String>,
    pub label: Option<String>,
    pub bind: Vec<String>,
}

#[derive(Clone, Debug)]
pub struct Config {
    pub debug: bool,
    pub keybinds: Vec<Keybind>,
    pub extract_thumbnails: Option<bool>,
}

impl Config {
    /// The module runs in development mode when debugging.
    pub fn is_dev(&self) -> (r: bool)
        ensures
            r == self.debug,
    {
        self.debug
    }

    /// Thumbnails are extracted unless the configuration turns them off.
    pub fn extract_thumbnails(&self) -> (r: bool)
        ensures
            r == (match self.extract_thumbnails {
                Some(b) => b,
                None => true,
            }),
    {
        match self.extract_thumbnails {
            Some(b) => b,
            None => true,
        }
    }
}

fn clone_opt(o: &Option<String>) -> (r: Option<String>)
    ensures
        r == *o,
{
    match o {
        Some(s) => Some(s.clone()),
        None => None,
    }
}

impl Keybind {
    /// A copy of the keybind.
    pub fn duplicate(&self) -> (r: Keybind)
        ensures
            r.action == self.action,
            r.label == self.label,
            r.bind@ == self.bind@,
    {
        let mut bind: Vec<String> = Vec::new();
        let mut i: usize = 0;
        while i < self.bind.len()
            invariant
                i <= self.bind.len(),
                bind@ == self.bind@.take(i as int),
            decreases self.bind.len() - i,
        {
            bind.push(self.bind[i].clone());
            proof {
                assert(bind@ =~= self.bind@.take(i + 1));
            }
            i += 1;
        }
        proof {
            assert(self.bind@.take(self.bind.len() as int) =~= self.bind@);
        }
        Keybind { action: clone_opt(&self.action), label: clone_opt(&self.label), bind }
    }
}

/// The two keybinds name the same action and label and the same inputs.
pub open spec fn same_keybind(a: Keybind, b: Keybind) -> bool {
    a.action == b.action && a.label == b.label && a.bind@ == b.bind@
}

/// A copy of a list of keybinds.
pub fn duplicate_keybinds(v: &Vec<Keybind>) -> (r: Vec<Keybind>)
    ensures
        r@.len() == v@.len(),
        forall|i: int| 0 <= i < v@.len() ==> same_keybind(#[trigger] r@[i], v@[i]),
{
    let mut out: Vec<Keybind> = Vec::new();
    let mut i: usize = 0;
    while i < v.len()
        invariant
            i <= v.len(),
            out@.len() == i,
            forall|k: int| 0 <= k < i ==> same_keybind(#[trigger] out@[k], v@[k]),
        decreases v.len() - i,
    {
        out.push(v[i].duplicate());
        i += 1;
    }
    out
}

} // verus!
