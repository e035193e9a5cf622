//! The tab bar, the screen chosen for each page, and the layout of the
//! bridge screens.

use vstd::prelude::*;

use crate::app::Page;
use crate::bridge::Bridge;
use crate::event::events::IoEvent;

pub mod layout;

verus! {

/// What the rendering loop does after an event.
#[derive(Clone, Copy, Debug, PartialEq, Eq, Structural)]
pub enum LoopControl {
    /// Leave the loop and restore the terminal.
    Quit,
    /// Draw the next frame.
    Continue,
}

/// The screen drawn for a page.
#[derive(Clone, Debug, PartialEq, Eq)]
pub enum Screen {
    /// The message that bridges are being looked for.
    LookingForBridges,
    /// The registration of a user on the bridges found.
    Discovery(Vec<Bridge>),
    /// Nothing is drawn.
    Blank,
}

/// Whether the bridge search has to be started when the interface starts.
pub fn needs_bridge_discovery(page: &Page) -> (b: bool)
    ensures
        b == (*page is Search),
{
    match page {
        Page::Search => true,
        _ => false,
    }
}

/// The screen drawn for `page`: the search message, the registration screen
/// with the bridges found, or nothing for the other pages.
pub fn screen_for(page: &Page) -> (screen: Screen)
    ensures
        *page is Search ==> screen is LookingForBridges,
        page matches Page::Discovery(bridges) ==> screen matches Screen::Discovery(shown) && shown@
            == bridges@,
        (*page is Rooms || *page is Lights) ==> screen is Blank,
{
    match page {
        Page::Search => Screen::LookingForBridges,
        Page::Discovery(bridges) => {
            let mut shown: Vec<Bridge> = Vec::new();
            let mut i: usize = 0;
            while i < bridges.len()
                invariant
                    i <= bridges@.len(),
                    shown@ == bridges@.subrange(0, i as int),
                decreases bridges@.len() - i,
            {
                shown.push(bridges[i]);
                i += 1;
                assert(shown@ =~= bridges@.subrange(0, i as int));
            }
            assert(bridges@.subrange(0, bridges@.len() as int) =~= bridges@);
            Screen::Discovery(shown)
        },
        _ => Screen::Blank,
    }
}

/// What the rendering loop does after `event`: any key press ends it, a
/// tick lets it go on.
pub fn next_control(event: &IoEvent) -> (control: LoopControl)
    ensures
        *event is Input ==> control is Quit,
        *event is Tick ==> control is Continue,
{
    match event {
        IoEvent::Input(_) => LoopControl::Quit,
        IoEvent::Tick => LoopControl::Continue,
    }
}

/// The tabs of the main screen and the one that is selected.
#[derive(Clone, Debug)]
pub struct TabsState {
    pub pages: Vec<String>,
    pub index: usize,
}

/// The position that follows `index` among `len` tabs, wrapping after the last.
pub open spec fn next_index(index: int, len: int) -> int {
    (index + 1) % len
}

/// The position that precedes `index` among `len` tabs, wrapping before the first.
pub open spec fn previous_index(index: int, len: int) -> int {
    if index > 0 {
        index - 1
    } else {
        len - 1
    }
}

/// The position reached from `index` after `steps` moves to the next tab.
pub open spec fn index_after_steps(index: int, len: int, steps: nat) -> int
    decreases steps,
{
    if steps == 0 {
        index
    } else {
        next_index(index_after_steps(index, len, (steps - 1) as nat), len)
    }
}

impl TabsState {
    /// There is at least one tab and the selection points at one of them.
    pub open spec fn wf(self) -> bool {
        &&& self.pages.len() > 0
        &&& self.index < self.pages.len()
    }

    /// The state after moving to the next tab.
    pub open spec fn after_next(self) -> TabsState {
        TabsState { pages: self.pages, index: next_index(self.index as int, self.pages.len() as int) as usize }
    }

    /// The state after moving to the previous tab.
    pub open spec fn after_previous(self) -> TabsState {
        TabsState {
            pages: self.pages,
            index: previous_index(self.index as int, self.pages.len() as int) as usize,
        }
    }

    /// The tabs "Rooms", "Lights" and "Groups", with the first selected.
    pub fn new() -> (tabs: TabsState)
        ensures
            tabs.pages@.len() == 3,
            tabs.pages@[0]@ == "Rooms"@,
            tabs.pages@[1]@ == "Lights"@,
            tabs.pages@[2]@ == "Groups"@,
            tabs.index == 0,
            tabs.wf(),
    {
        TabsState {
            pages: vec![String::from_str("Rooms"), String::from_str("Lights"), String::from_str("Groups")],
            index: 0,
        }
    }

    /// Selects the next tab, wrapping from the last to the first.
    pub fn next(&mut self)
        requires
            old(self).pages.len() > 0,
            old(self).index < usize::MAX,
        ensures
            *final(self) == old(self).after_next(),
            final(self).index == (old(self).index + 1) % (old(self).pages.len() as int),
            final(self).wf(),
    {
        self.index = (self.index + 1) % self.pages.len();
    }

    /// Selects the previous tab, wrapping from the first to the last.
    pub fn previous(&mut self)
        requires
            old(self).index == 0 ==> old(self).pages.len() > 0,
        ensures
            *final(self) == old(self).after_previous(),
            old(self).index > 0 ==> final(self).index == old(self).index - 1,
            old(self).index == 0 ==> final(self).index == old(self).pages.len() - 1,
            old(self).wf() ==> final(self).wf(),
    {
        if self.index > 0 {
            self.index -= 1;
        } else {
            self.index = self.pages.len() - 1;
        }
    }
}

impl Default for TabsState {
    fn default() -> (tabs: TabsState)
        ensures
            tabs.pages@.len() == 3,
            tabs.pages@[0]@ == "Rooms"@,
            tabs.pages@[1]@ == "Lights"@,
            tabs.pages@[2]@ == "Groups"@,
            tabs.index == 0,
    {
        Self::new()
    }
}

/// Moving to the next tab and then back to the previous one returns to the
/// tab that was selected.
pub proof fn lemma_previous_undoes_next(tabs: TabsState)
    requires
        tabs.wf(),
    ensures
        tabs.after_next().after_previous() == tabs,
{
    vstd::arithmetic::div_mod::lemma_mod_self_0(tabs.pages.len() as int);
    if tabs.index + 1 < tabs.pages.len() {
        vstd::arithmetic::div_mod::lemma_small_mod((tabs.index + 1) as nat, tabs.pages.len() as nat);
    }
}

/// Moving to the previous tab and then on to the next one returns to the
/// tab that was selected.
pub proof fn lemma_next_undoes_previous(tabs: TabsState)
    requires
        tabs.wf(),
    ensures
        tabs.after_previous().after_next() == tabs,
{
    vstd::arithmetic::div_mod::lemma_mod_self_0(tabs.pages.len() as int);
    if tabs.index > 0 {
        vstd::arithmetic::div_mod::lemma_small_mod(tabs.index as nat, tabs.pages.len() as nat);
    }
}

/// Moving on `steps` times lands `steps` tabs further, counted round the bar.
pub proof fn lemma_steps_wrap(index: int, len: int, steps: nat)
    requires
        0 <= index < len,
    ensures
        index_after_steps(index, len, steps) == (index + steps) % len,
    decreases steps,
{
    if steps == 0 {
        vstd::arithmetic::div_mod::lemma_small_mod(index as nat, len as nat);
    } else {
        lemma_steps_wrap(index, len, (steps - 1) as nat);
        vstd::arithmetic::div_mod::lemma_add_mod_noop_right(1, index + steps - 1, len);
    }
}

/// Going once round the whole tab bar, one tab at a time, comes back to the
/// tab that was selected.
pub proof fn lemma_full_round_returns(tabs: TabsState)
    requires
        tabs.wf(),
    ensures
        index_after_steps(tabs.index as int, tabs.pages.len() as int, tabs.pages.len() as nat)
            == tabs.index,
{
    let len = tabs.pages.len() as int;
    lemma_steps_wrap(tabs.index as int, len, len as nat);
    vstd::arithmetic::div_mod::lemma_mod_add_multiples_vanish(tabs.index as int, len);
    vstd::arithmetic::div_mod::lemma_small_mod(tabs.index as nat, len as nat);
}

} // verus!
