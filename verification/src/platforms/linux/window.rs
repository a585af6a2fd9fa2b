//! The window buttons of the desktop, from GTK's decoration layout.
use vstd::prelude::*;
use crate::models::media::names_of;
use crate::text::to_chars;

verus! {

/// A separator of the decoration layout: `:` between the sides, `,` between buttons.
pub open spec fn is_layout_separator(c: char) -> bool {
    c == ':' || c == ','
}

/// The buttons of a decoration layout: its non-empty pieces between separators,
/// in order.
pub open spec fn layout_tokens(s: Seq<char>) -> Seq<Seq<char>>
    decreases s.len(),
{
    if s.len() == 0 {
        Seq::empty()
    } else {
        let before = layout_tokens(s.drop_last());
        if is_layout_separator(s.last()) {
            before
        } else if s.len() >= 2 && !is_layout_separator(s[s.len() - 2]) {
            before.drop_last().push(before.last().push(s.last()))
        } else {
            before.push(seq![s.last()])
        }
    }
}

/// The buttons of the layout, or none when it names none.
pub open spec fn spec_decorations(layout: Seq<char>) -> Option<Seq<Seq<char>>> {
    if layout_tokens(layout).len() == 0 { None } else { Some(layout_tokens(layout)) }
}

/// Reads the buttons of a decoration layout such as
/// `"close,minimize:maximize"`.
pub fn parse_decorations(layout: &str) -> (r: Option<Vec<String>>)
    ensures
        match r {
            Some(v) => spec_decorations(layout@) == Some(names_of(v@)),
            None => spec_decorations(layout@) is None,
        },
{
    let cs = to_chars(layout);
    let mut tokens: Vec<String> = Vec::new();
    let mut current = String::new();
    let mut i: usize = 0;
    while i < cs.len()
        invariant
            i <= cs.len(),
            cs@ == layout@,
            i == 0 || is_layout_separator(cs@[i - 1]) ==> current@.len() == 0 && names_of(tokens@) == layout_tokens(cs@.take(i as int)),
            i > 0 && !is_layout_separator(cs@[i - 1]) ==> current@.len() > 0
                && names_of(tokens@).push(current@) == layout_tokens(cs@.take(i as int)),
        decreases cs.len() - i,
    {
        let c = cs[i];
        let ghost t = cs@.take(i + 1);
        proof {
            assert(t.drop_last() =~= cs@.take(i as int));
            assert(t.last() == c);
            if i > 0 {
                assert(t[t.len() - 2] == cs@[i - 1]);
            }
        }
        if c == ':' || c == ',' {
            if !current.as_str().is_empty() {
                let ghost before = tokens@;
                let ghost cur = current@;
                tokens.push(current);
                current = String::new();
                proof {
                    assert(names_of(tokens@) =~= names_of(before).push(cur));
                }
            }
        } else {
            let ghost before = current@;
            current.push(c);
            proof {
                if i > 0 && !is_layout_separator(cs@[i - 1]) {
                    let prev = layout_tokens(cs@.take(i as int));
                    assert(prev.drop_last() =~= names_of(tokens@));
                    assert(prev.last() == before);
                    assert(names_of(tokens@).push(current@) =~= prev.drop_last().push(prev.last().push(c)));
                } else {
                    assert(current@ =~= seq![c]);
                }
            }
        }
        i += 1;
    }
    proof {
        assert(cs@.take(cs.len() as int) =~= cs@);
    }
    if !current.as_str().is_empty() {
        let ghost before = tokens@;
        let ghost cur = current@;
        tokens.push(current);
        proof {
            assert(names_of(tokens@) =~= names_of(before).push(cur));
        }
    }
    if tokens.len() == 0 {
        None
    } else {
        Some(tokens)
    }
}

/// The window effects of one host window; on Linux only the decoration layout
/// is read.
pub struct WindowManager;

impl WindowManager {
    pub fn new(config: crate::config::Config) -> (r: WindowManager) {
        WindowManager
    }
}

} // verus!
