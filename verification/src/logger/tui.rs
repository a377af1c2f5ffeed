//! Navigation and keys of the user interface.

use vstd::prelude::*;

verus! {

/// Where the user interface stands.
#[derive(Clone, Copy, Debug)]
pub struct TuiApp {
    /// 0 schedule, 1 camera, 2 status.
    pub tab: usize,
    /// The selected field of the schedule and of the camera tab.
    pub selected: [usize; 2],
    /// Whether a camera value was changed and not sent since.
    pub camera_dirty: bool,
}

/// How many fields a tab has.
pub open spec fn field_count(tab: int) -> int {
    if tab == 0 {
        4
    } else if tab == 1 {
        6
    } else {
        0
    }
}

/// The tab behind `tab`, behind the last the first.
pub open spec fn tab_after(tab: int) -> int {
    (tab + 1) % 3
}

/// The tab in front of `tab`, in front of the first the last.
pub open spec fn tab_before(tab: int) -> int {
    (tab + 2) % 3
}

impl TuiApp {
    /// The tab exists, and so do the selected fields.
    pub open spec fn wf(self) -> bool {
        &&& self.tab < 3
        &&& self.selected@[0] < field_count(0)
        &&& self.selected@[1] < field_count(1)
    }

    /// Which selection the current tab goes by: its own on the first two tabs, that of the
    /// camera tab on the last.
    pub open spec fn slot(self) -> int {
        if self.tab == 0 {
            0
        } else {
            1
        }
    }

    /// The selected field.
    pub open spec fn field(self) -> usize {
        self.selected@[self.slot()]
    }

    /// The first field of the first tab, with nothing to send.
    pub fn new() -> (r: Self)
        ensures
            r.wf(),
            r.tab == 0,
            r.selected@ == seq![0usize, 0usize],
            !r.camera_dirty,
    {
        let r = TuiApp { tab: 0, selected: [0, 0], camera_dirty: false };
        proof {
            assert(r.selected@ =~= seq![0usize, 0usize]);
        }
        r
    }

    /// How many fields the current tab has.
    pub fn tab_field_count(&self) -> (r: usize)
        ensures
            r == field_count(self.tab as int),
    {
        match self.tab {
            0 => 4,
            1 => 6,
            _ => 0,
        }
    }

    fn slot_index(&self) -> (r: usize)
        ensures
            r == self.slot(),
            r < 2,
    {
        if self.tab == 0 {
            0
        } else {
            1
        }
    }

    /// The selected field.
    pub fn sel(&self) -> (r: usize)
        ensures
            r == self.field(),
    {
        self.selected[self.slot_index()]
    }

    /// Goes to the next tab, behind the last to the first.
    pub fn next_tab(&mut self)
        requires
            old(self).tab + 1 <= usize::MAX,
        ensures
            old(self).wf() ==> final(self).wf(),
            *final(self) == (TuiApp {
                tab: tab_after(old(self).tab as int) as usize,
                ..*old(self)
            }),
    {
        self.tab = (self.tab + 1) % 3;
    }

    /// Goes to the previous tab, in front of the first to the last.
    pub fn prev_tab(&mut self)
        requires
            old(self).tab + 2 <= usize::MAX,
        ensures
            old(self).wf() ==> final(self).wf(),
            *final(self) == (TuiApp {
                tab: tab_before(old(self).tab as int) as usize,
                ..*old(self)
            }),
    {
        self.tab = (self.tab + 2) % 3;
    }

    /// Selects the field above, if there is one.
    pub fn move_up(&mut self)
        ensures
            old(self).wf() ==> final(self).wf(),
            final(self).tab == old(self).tab,
            final(self).camera_dirty == old(self).camera_dirty,
            final(self).selected@ == old(self).selected@.update(
                old(self).slot(),
                (if old(self).field() > 0 {
                    (old(self).field() - 1) as usize
                } else {
                    0
                }),
            ),
    {
        let i: usize = self.slot_index();
        let s: usize = self.selected[i];
        if s > 0 {
            self.selected[i] = s - 1;
        }
        proof {
            assert(self.selected@ =~= old(self).selected@.update(
                i as int,
                if s > 0 {
                    (s - 1) as usize
                } else {
                    0
                },
            ));
        }
    }

    /// Selects the field below, if the current tab has one.
    pub fn move_down(&mut self)
        requires
            old(self).field() + 1 <= usize::MAX,
        ensures
            old(self).wf() ==> final(self).wf(),
            final(self).tab == old(self).tab,
            final(self).camera_dirty == old(self).camera_dirty,
            final(self).selected@ == old(self).selected@.update(
                old(self).slot(),
                (if old(self).field() + 1 < field_count(old(self).tab as int) {
                    (old(self).field() + 1) as usize
                } else {
                    old(self).field()
                }),
            ),
    {
        let max: usize = self.tab_field_count();
        let i: usize = self.slot_index();
        let s: usize = self.selected[i];
        if s + 1 < max {
            self.selected[i] = s + 1;
        }
        proof {
            assert(self.selected@ =~= old(self).selected@.update(
                i as int,
                if s + 1 < max {
                    (s + 1) as usize
                } else {
                    s
                },
            ));
        }
    }
}

/// Going to the next tab and back, in either order, leads to the tab it started from.
pub proof fn law_tabs_back_and_forth(tab: int)
    requires
        0 <= tab < 3,
    ensures
        tab_before(tab_after(tab)) == tab,
        tab_after(tab_before(tab)) == tab,
{
}

/// Three steps in one direction lead round to the tab they started from.
pub proof fn law_tabs_go_round(tab: int)
    requires
        0 <= tab < 3,
    ensures
        tab_after(tab_after(tab_after(tab))) == tab,
        tab_before(tab_before(tab_before(tab))) == tab,
{
}

} // verus!
