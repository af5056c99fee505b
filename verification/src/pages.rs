//! The page ring of the round-screen assistant.

use vstd::prelude::*;

verus! {

/// The pages of the assistant, in swipe order.
#[derive(Debug, Clone, Copy, PartialEq, Eq, Structural)]
pub enum AssistantPage {
    Home,
    Weather,
    Music,
    InternetRadio,
    Assistant,
    Settings,
}

/// Number of pages in the swipe ring.
pub const PAGE_COUNT: usize = 6;

/// The page at position `i` of the ring (`i < 6`).
pub open spec fn page_at_spec(i: int) -> AssistantPage {
    if i == 0 {
        AssistantPage::Home
    } else if i == 1 {
        AssistantPage::Weather
    } else if i == 2 {
        AssistantPage::Music
    } else if i == 3 {
        AssistantPage::InternetRadio
    } else if i == 4 {
        AssistantPage::Assistant
    } else {
        AssistantPage::Settings
    }
}

/// The page at position `idx` of the ring.
pub fn page_at(idx: usize) -> (p: AssistantPage)
    requires
        idx < PAGE_COUNT,
    ensures
        p == page_at_spec(idx as int),
        p.index_spec() == idx,
{
    if idx == 0 {
        AssistantPage::Home
    } else if idx == 1 {
        AssistantPage::Weather
    } else if idx == 2 {
        AssistantPage::Music
    } else if idx == 3 {
        AssistantPage::InternetRadio
    } else if idx == 4 {
        AssistantPage::Assistant
    } else {
        AssistantPage::Settings
    }
}

impl AssistantPage {
    /// Position of the page in the swipe ring.
    pub open spec fn index_spec(self) -> nat {
        match self {
            AssistantPage::Home => 0,
            AssistantPage::Weather => 1,
            AssistantPage::Music => 2,
            AssistantPage::InternetRadio => 3,
            AssistantPage::Assistant => 4,
            AssistantPage::Settings => 5,
        }
    }

    /// Heading shown for the page.
    pub open spec fn title_spec(self) -> Seq<char> {
        match self {
            AssistantPage::Home => "HOME"@,
            AssistantPage::Weather => "WEATHER"@,
            AssistantPage::Music => "MUSIC"@,
            AssistantPage::InternetRadio => "INTERNET RADIO"@,
            AssistantPage::Assistant => "AI ASSISTANT"@,
            AssistantPage::Settings => "SETTINGS"@,
        }
    }

    /// Heading shown for the page.
    pub fn title(self) -> (r: &'static str)
        ensures
            r@ == self.title_spec(),
    {
        match self {
            AssistantPage::Home => "HOME",
            AssistantPage::Weather => "WEATHER",
            AssistantPage::Music => "MUSIC",
            AssistantPage::InternetRadio => "INTERNET RADIO",
            AssistantPage::Assistant => "AI ASSISTANT",
            AssistantPage::Settings => "SETTINGS",
        }
    }

    /// Compact page name used in tab strips.
    pub fn short_label(self) -> (r: &'static str)
        ensures
            r@ == (match self {
                AssistantPage::Home => "HOME"@,
                AssistantPage::Weather => "WEATHER"@,
                AssistantPage::Music => "MUSIC"@,
                AssistantPage::InternetRadio => "RADIO"@,
                AssistantPage::Assistant => "ASSISTANT"@,
                AssistantPage::Settings => "SETTINGS"@,
            }),
    {
        match self {
            AssistantPage::Home => "HOME",
            AssistantPage::Weather => "WEATHER",
            AssistantPage::Music => "MUSIC",
            AssistantPage::InternetRadio => "RADIO",
            AssistantPage::Assistant => "ASSISTANT",
            AssistantPage::Settings => "SETTINGS",
        }
    }

    /// Position of the page in the swipe ring.
    pub fn index(self) -> (r: usize)
        ensures
            r == self.index_spec(),
            r < PAGE_COUNT,
            page_at_spec(r as int) == self,
    {
        match self {
            AssistantPage::Home => 0,
            AssistantPage::Weather => 1,
            AssistantPage::Music => 2,
            AssistantPage::InternetRadio => 3,
            AssistantPage::Assistant => 4,
            AssistantPage::Settings => 5,
        }
    }

    /// Number of pages in the ring.
    pub fn count() -> (r: usize)
        ensures
            r == PAGE_COUNT,
    {
        PAGE_COUNT
    }

    /// The page after this one, wrapping from the last to the first.
    pub open spec fn next_spec(self) -> AssistantPage {
        page_at_spec(((self.index_spec() + 1) % 6) as int)
    }

    /// The page before this one, wrapping from the first to the last.
    pub open spec fn previous_spec(self) -> AssistantPage {
        if self.index_spec() == 0 {
            page_at_spec(5)
        } else {
            page_at_spec(self.index_spec() - 1)
        }
    }

    /// The page after this one, wrapping from the last to the first.
    pub fn next(self) -> (r: AssistantPage)
        ensures
            r == self.next_spec(),
            r.index_spec() == (self.index_spec() + 1) % 6,
    {
        let idx = (self.index() + 1) % Self::count();
        page_at(idx)
    }

    /// The page before this one, wrapping from the first to the last.
    pub fn previous(self) -> (r: AssistantPage)
        ensures
            r == self.previous_spec(),
            r.index_spec() == (self.index_spec() + 5) % 6,
    {
        let idx = if self.index() == 0 {
            Self::count() - 1
        } else {
            self.index() - 1
        };
        page_at(idx)
    }
}

/// Swiping forward and then back (or back and then forward) returns to the
/// page one started on.
pub proof fn lemma_next_previous_inverse(p: AssistantPage)
    ensures
        p.next_spec().previous_spec() == p,
        p.previous_spec().next_spec() == p,
{
}

/// Six forward swipes visit every page once and come back to the start.
pub proof fn lemma_next_cycles(p: AssistantPage)
    ensures
        p.next_spec().next_spec().next_spec().next_spec().next_spec().next_spec() == p,
        forall|q: AssistantPage|
            #![trigger q.index_spec()]
            q == p || q == p.next_spec() || q == p.next_spec().next_spec() || q
                == p.next_spec().next_spec().next_spec() || q
                == p.next_spec().next_spec().next_spec().next_spec() || q
                == p.next_spec().next_spec().next_spec().next_spec().next_spec(),
{
}

} // verus!
