//! State of the interactive selector: the typed filter, the known network
//! names and the highlighted row, with the filter that decides which names
//! are shown.
use vstd::prelude::*;

verus! {

/// What `str::to_lowercase` makes of a text.
pub uninterp spec fn lower_of(s: Seq<char>) -> Seq<char>;

/// Relies on `str::to_lowercase`: the result depends on the characters alone.
#[verifier::external_body]
fn lowercase(s: &str) -> (r: String)
    ensures
        r@ == lower_of(s@),
{
    s.to_lowercase()
}

/// `needle` occurs in `hay` as a contiguous run of characters.
pub open spec fn has_substring(hay: Seq<char>, needle: Seq<char>) -> bool {
    exists|i: int|
        0 <= i && i + needle.len() <= hay.len() && #[trigger] hay.subrange(i, i + needle.len())
            == needle
}

/// Relies on `str::contains` with a `&str` pattern: true exactly when the
/// pattern matches a sub-slice of the text.
#[verifier::external_body]
fn contains_text(hay: &str, needle: &str) -> (r: bool)
    ensures
        r == has_substring(hay@, needle@),
{
    hay.contains(needle)
}

/// A name is shown when the lowercased filter occurs in the lowercased name.
pub open spec fn ssid_shown(ssid: Seq<char>, query: Seq<char>) -> bool {
    has_substring(lower_of(ssid), lower_of(query))
}

pub open spec fn texts(v: Seq<String>) -> Seq<Seq<char>> {
    v.map_values(|s: String| s@)
}

/// The names that the filter `query` lets through, in their order.
pub open spec fn shown_ssids(ssids: Seq<Seq<char>>, query: Seq<char>) -> Seq<Seq<char>>
    decreases ssids.len(),
{
    if ssids.len() == 0 {
        seq![]
    } else {
        let rest = shown_ssids(ssids.drop_last(), query);
        if ssid_shown(ssids.last(), query) {
            rest.push(ssids.last())
        } else {
            rest
        }
    }
}

/// Matching once both sides have been lowercased.
pub fn matches_folded(ssid_folded: &str, query_folded: &str) -> (r: bool)
    ensures
        r == has_substring(ssid_folded@, query_folded@),
{
    contains_text(ssid_folded, query_folded)
}

/// Whether `ssid` passes the filter `query`, ignoring case.
pub fn ssid_matches(ssid: &str, query: &str) -> (r: bool)
    ensures
        r == ssid_shown(ssid@, query@),
{
    let s = lowercase(ssid);
    let q = lowercase(query);
    matches_folded(s.as_str(), q.as_str())
}

/// The names of `ssids` that pass the filter `query`, in their order.
pub fn filter_ssids(ssids: &Vec<String>, query: &str) -> (r: Vec<String>)
    ensures
        texts(r@) == shown_ssids(texts(ssids@), query@),
{
    let mut out: Vec<String> = Vec::new();
    let mut i: usize = 0;
    while i < ssids.len()
        invariant
            i <= ssids.len(),
            texts(out@) == shown_ssids(texts(ssids@).take(i as int), query@),
        decreases ssids.len() - i,
    {
        let ghost before = out@;
        assert(texts(ssids@).take(i as int + 1).drop_last() == texts(ssids@).take(i as int));
        if ssid_matches(ssids[i].as_str(), query) {
            out.push(ssids[i].clone());
            assert(texts(out@) == texts(before).push(ssids@[i as int]@));
        }
        i = i + 1;
    }
    assert(texts(ssids@).take(ssids.len() as int) == texts(ssids@));
    out
}

/// A message that the selector reacts to.
pub enum SelectorMessage {
    SsidInputChanged(String),
    SelectNext,
    SelectPrevious,
    ResetSelection,
    Quit,
}

/// What the front end has to do after a message was handled.
#[derive(PartialEq, Eq, Structural, Clone, Copy, Debug)]
pub enum SelectorEffect {
    /// Nothing more.
    Idle,
    /// Feed `SelectorMessage::ResetSelection` back in.
    ResetSelection,
    /// Close the selector.
    Exit,
}

/// The filter text, the known names and the highlighted row among the shown
/// names.
pub struct Selector {
    pub ssid_input: String,
    pub ssids: Vec<String>,
    pub selected_index: usize,
}

impl Selector {
    /// An empty filter over `ssids`, with the first row highlighted.
    pub fn new(ssids: Vec<String>) -> (r: Selector)
        ensures
            r.ssid_input@.len() == 0,
            r.ssids@ == ssids@,
            r.selected_index == 0,
    {
        Selector { ssid_input: String::new(), ssids, selected_index: 0 }
    }

    /// Handles one message. A new filter text is stored and asks for the
    /// selection to be reset; moving saturates at both ends of `usize`.
    pub fn update(&mut self, message: SelectorMessage) -> (r: SelectorEffect)
        ensures
            final(self).ssids@ == old(self).ssids@,
            match message {
                SelectorMessage::SsidInputChanged(s) => {
                    &&& final(self).ssid_input@ == s@
                    &&& final(self).selected_index == old(self).selected_index
                    &&& r == SelectorEffect::ResetSelection
                },
                SelectorMessage::SelectNext => {
                    &&& final(self).ssid_input@ == old(self).ssid_input@
                    &&& final(self).selected_index == (if old(self).selected_index == usize::MAX {
                        usize::MAX as int
                    } else {
                        old(self).selected_index + 1
                    })
                    &&& r == SelectorEffect::Idle
                },
                SelectorMessage::SelectPrevious => {
                    &&& final(self).ssid_input@ == old(self).ssid_input@
                    &&& final(self).selected_index == (if old(self).selected_index == 0 {
                        0
                    } else {
                        old(self).selected_index - 1
                    })
                    &&& r == SelectorEffect::Idle
                },
                SelectorMessage::ResetSelection => {
                    &&& final(self).ssid_input@ == old(self).ssid_input@
                    &&& final(self).selected_index == 0
                    &&& r == SelectorEffect::Idle
                },
                SelectorMessage::Quit => {
                    &&& final(self).ssid_input@ == old(self).ssid_input@
                    &&& final(self).selected_index == old(self).selected_index
                    &&& r == SelectorEffect::Exit
                },
            },
    {
        match message {
            SelectorMessage::SsidInputChanged(s) => {
                self.ssid_input = s;
                SelectorEffect::ResetSelection
            },
            SelectorMessage::SelectNext => {
                self.selected_index = self.selected_index.saturating_add(1);
                SelectorEffect::Idle
            },
            SelectorMessage::SelectPrevious => {
                self.selected_index = self.selected_index.saturating_sub(1);
                SelectorEffect::Idle
            },
            SelectorMessage::ResetSelection => {
                self.selected_index = 0;
                SelectorEffect::Idle
            },
            SelectorMessage::Quit => SelectorEffect::Exit,
        }
    }

    /// The names that the current filter shows, in their order.
    pub fn visible_ssids(&self) -> (r: Vec<String>)
        ensures
            texts(r@) == shown_ssids(texts(self.ssids@), self.ssid_input@),
    {
        filter_ssids(&self.ssids, self.ssid_input.as_str())
    }

    /// Whether the shown row at `position` is the highlighted one.
    pub fn is_selected(&self, position: usize) -> (r: bool)
        ensures
            r == (position == self.selected_index),
    {
        position == self.selected_index
    }
}

} // verus!
