use vstd::prelude::*;

verus! {

/// How one part of a screen is drawn.
pub enum PartLook {
    /// Drawn as it is.
    Plain,
    /// Drawn with the line of its key labels under it.
    WithHelp,
    /// Drawn in grey, with `hint`, the key that hands it the keys, in its corner.
    GreyedOut { hint: &'static str },
}

/// `key` where the screen has the keys, and nothing where it does not.
pub open spec fn hint_if(selected: bool, key: Seq<char>) -> Seq<char> {
    if selected { key } else { Seq::empty() }
}

/// Whether `l` is the grey look with hint `h`.
pub open spec fn greyed_with(l: PartLook, h: Seq<char>) -> bool {
    l matches PartLook::GreyedOut { hint } && hint@ == h
}

/// The grey look whose hint is `key` where `selected` holds, and empty otherwise.
pub fn greyed_hint(selected: bool, key: &'static str) -> (r: PartLook)
    ensures
        greyed_with(r, hint_if(selected, key@)),
{
    if selected {
        PartLook::GreyedOut { hint: key }
    } else {
        let none = "";
        proof {
            reveal_strlit("");
        }
        assert(none@ =~= Seq::<char>::empty());
        PartLook::GreyedOut { hint: none }
    }
}

} // verus!
