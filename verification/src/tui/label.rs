use vstd::prelude::*;
use vstd::string::StringExecFns;
use crate::text::{join, joined, texts};

verus! {

/// Key-binding labels shown under a component.
pub struct Label();

/// The text of the label for `key` doing `action`.
pub open spec fn label_text(key: Seq<char>, action: Seq<char>) -> Seq<char> {
    seq![' '] + key + seq![':', ' '] + action + seq![' ']
}

/// The separator between neighbouring labels.
pub open spec fn label_separator() -> Seq<char> {
    seq![' ', '-', ' ']
}

/// The separator between labels on the help line under a component.
pub open spec fn help_separator() -> Seq<char> {
    seq!['-']
}

impl Label {
    /// The label for pressing `key` to `action`, as `" key: action "`.
    pub fn new(key: &str, action: &str) -> (r: String)
        ensures
            r@ == label_text(key@, action@),
    {
        let mut r = String::from_str(" ");
        r.append(key);
        r.append(": ");
        r.append(action);
        r.append(" ");
        proof {
            reveal_strlit(" ");
            reveal_strlit(": ");
        }
        assert(r@ =~= label_text(key@, action@));
        r
    }

    /// The labels in a row, separated by `" - "`.
    pub fn join(labels: Vec<String>) -> (r: String)
        ensures
            r@ == joined(texts(labels@), label_separator()),
    {
        let sep = " - ";
        proof {
            reveal_strlit(" - ");
        }
        assert(sep@ =~= label_separator());
        join(&labels, sep)
    }

    /// The help line drawn under a selected component: its labels joined by `-`.
    pub fn help_line(labels: &Vec<String>) -> (r: String)
        ensures
            r@ == joined(texts(labels@), help_separator()),
    {
        let sep = "-";
        proof {
            reveal_strlit("-");
        }
        assert(sep@ =~= help_separator());
        join(labels, sep)
    }
}

} // verus!
