//! The glossary's one domain object.

use vstd::prelude::*;

verus! {

/// A term of the glossary with its definition.
#[derive(Clone, Debug, PartialEq, Eq)]
pub struct WordEntry {
    pub word: String,
    pub meaning: String,
}

/// The mathematical value of a [`WordEntry`]: its two texts.
pub ghost struct EntryView {
    pub word: Seq<char>,
    pub meaning: Seq<char>,
}

impl View for WordEntry {
    type V = EntryView;

    open spec fn view(&self) -> EntryView {
        EntryView { word: self.word@, meaning: self.meaning@ }
    }
}

impl DeepView for WordEntry {
    type V = EntryView;

    open spec fn deep_view(&self) -> EntryView {
        self@
    }
}

impl WordEntry {
    /// Makes an entry from its two texts.
    pub fn new(word: String, meaning: String) -> (entry: WordEntry)
        ensures
            entry@ == (EntryView { word: word@, meaning: meaning@ }),
    {
        WordEntry { word, meaning }
    }
}

} // verus!
