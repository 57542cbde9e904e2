//! Style selectors: a base style class fixed per widget instance plus an
//! optional single transient pseudo-class (`hover`, `active`, `focus`)
//! derived from current interaction state at draw time and never persisted.
//! A theme outside this crate resolves a selector to concrete paint rules.

use vstd::prelude::*;
use vstd::string::*;

verus! {

/// The mathematical value of a [`Selector`]: both strings as character
/// sequences.
pub struct SelectorView {
    pub class: Seq<char>,
    pub pseudo_class: Option<Seq<char>>,
}

/// A style identifier: base class plus at most one pseudo-class.
#[derive(Debug, PartialEq, Eq)]
pub struct Selector {
    pub class: String,
    pub pseudo_class: Option<String>,
}

impl View for Selector {
    type V = SelectorView;

    open spec fn view(&self) -> SelectorView {
        SelectorView {
            class: self.class@,
            pseudo_class: match self.pseudo_class {
                Some(p) => Some(p@),
                None => None,
            },
        }
    }
}

impl SelectorView {
    /// The view-level counterpart of [`Selector::with_pseudo_class`].
    pub open spec fn spec_with_pseudo_class(self, pseudo: Seq<char>) -> SelectorView {
        SelectorView { class: self.class, pseudo_class: Some(pseudo) }
    }
}

impl Selector {
    /// A selector for `class` with no pseudo-class.
    pub fn new(class: &str) -> (r: Selector)
        ensures
            r@.class == class@,
            r@.pseudo_class is None,
    {
        Selector { class: String::from_str(class), pseudo_class: None }
    }

    /// The same base class with the single pseudo-class slot set to
    /// `pseudo`, replacing any pseudo-class held before.
    pub fn with_pseudo_class(self, pseudo: &str) -> (r: Selector)
        ensures
            r@ == self@.spec_with_pseudo_class(pseudo@),
    {
        Selector { class: self.class, pseudo_class: Some(String::from_str(pseudo)) }
    }

    /// An equal selector value.
    pub fn duplicate(&self) -> (r: Selector)
        ensures
            r@ == self@,
    {
        Selector {
            class: self.class.clone(),
            pseudo_class: match &self.pseudo_class {
                Some(p) => Some(p.clone()),
                None => None,
            },
        }
    }
}

} // verus!
