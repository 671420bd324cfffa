//! Navigation state of the interactive interface: which view is shown, and
//! which item of a list is selected.

use vstd::prelude::*;
use vstd::view::View as _;

verus! {

/// The screens of the interactive interface.
#[derive(Debug, Clone, Copy, PartialEq, Eq, Structural)]
pub enum View {
    Dashboard,
    Topics,
    TopicDetail,
    Plans,
    PlanDetail,
}

impl View {
    /// The cycle Dashboard, Topics, Plans; a detail view steps back to its list.
    pub open spec fn spec_next(self) -> View {
        match self {
            View::Dashboard => View::Topics,
            View::Topics => View::Plans,
            View::TopicDetail => View::Topics,
            View::Plans => View::Dashboard,
            View::PlanDetail => View::Plans,
        }
    }

    /// The same cycle backwards; a detail view steps back to its list.
    pub open spec fn spec_prev(self) -> View {
        match self {
            View::Dashboard => View::Plans,
            View::Topics => View::Dashboard,
            View::TopicDetail => View::Topics,
            View::Plans => View::Topics,
            View::PlanDetail => View::Plans,
        }
    }

    pub fn next(&self) -> (r: View)
        ensures
            r == self.spec_next(),
    {
        match self {
            View::Dashboard => View::Topics,
            View::Topics => View::Plans,
            View::TopicDetail => View::Topics,
            View::Plans => View::Dashboard,
            View::PlanDetail => View::Plans,
        }
    }

    pub fn prev(&self) -> (r: View)
        ensures
            r == self.spec_prev(),
    {
        match self {
            View::Dashboard => View::Plans,
            View::Topics => View::Dashboard,
            View::TopicDetail => View::Topics,
            View::Plans => View::Topics,
            View::PlanDetail => View::Plans,
        }
    }
}

/// Going forward then back among the three main views returns to the start.
pub proof fn lemma_main_views_cycle(v: View)
    requires
        v == View::Dashboard || v == View::Topics || v == View::Plans,
    ensures
        v.spec_next().spec_prev() == v,
        v.spec_prev().spec_next() == v,
        v.spec_next().spec_next().spec_next() == v,
{
}

/// A list with at most one selected item.
pub struct StatefulList<T> {
    pub items: Vec<T>,
    pub selected: Option<usize>,
}

impl<T> StatefulList<T> {
    /// The selection, if any, names an item of the list.
    pub open spec fn wf(&self) -> bool {
        match self.selected {
            Some(i) => i < self.items@.len(),
            None => true,
        }
    }

    /// A list whose first item, if there is one, is selected.
    pub fn with_items(items: Vec<T>) -> (r: Self)
        ensures
            r.items@ == items@,
            r.selected == (if items@.len() == 0 { None } else { Some(0usize) }),
            r.wf(),
    {
        let selected = if items.len() == 0 {
            None
        } else {
            Some(0)
        };
        StatefulList { items, selected }
    }

    /// Selects the following item, wrapping from the last to the first.
    pub fn next(&mut self)
        ensures
            final(self).items@ == old(self).items@,
            old(self).items@.len() == 0 ==> final(self).selected == old(self).selected,
            old(self).items@.len() > 0 ==> final(self).selected == Some(
                match old(self).selected {
                    Some(i) => if i + 1 >= old(self).items@.len() { 0 } else { (i + 1) as usize },
                    None => 0usize,
                },
            ),
            old(self).items@.len() > 0 ==> final(self).wf(),
    {
        if self.items.len() == 0 {
            return;
        }
        let i = match self.selected {
            Some(i) => if i >= self.items.len() - 1 {
                0
            } else {
                i + 1
            },
            None => 0,
        };
        self.selected = Some(i);
    }

    /// Selects the preceding item, wrapping from the first to the last.
    pub fn previous(&mut self)
        ensures
            final(self).items@ == old(self).items@,
            old(self).items@.len() == 0 ==> final(self).selected == old(self).selected,
            old(self).items@.len() > 0 ==> final(self).selected == Some(
                match old(self).selected {
                    Some(i) => if i == 0 { (old(self).items@.len() - 1) as usize } else { (i - 1) as usize },
                    None => 0usize,
                },
            ),
            old(self).items@.len() > 0 && old(self).wf() ==> final(self).wf(),
    {
        if self.items.len() == 0 {
            return;
        }
        let i = match self.selected {
            Some(i) => if i == 0 {
                self.items.len() - 1
            } else {
                i - 1
            },
            None => 0,
        };
        self.selected = Some(i);
    }

    /// The selected item, if the selection names one.
    pub fn selected_item(&self) -> (r: Option<&T>)
        ensures
            match self.selected {
                Some(i) => if i < self.items@.len() {
                    r == Some(&self.items@[i as int])
                } else {
                    r is None
                },
                None => r is None,
            },
    {
        match self.selected {
            Some(i) => if i < self.items.len() {
                Some(&self.items[i])
            } else {
                None
            },
            None => None,
        }
    }
}

} // verus!
