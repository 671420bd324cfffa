//! Key handling of the interactive interface, as a state machine: a key
//! changes the navigation state and may ask the caller to load data.

use vstd::prelude::*;
use vstd::view::View as _;

use crate::models::{Plan, TopicWithProgress};
use crate::nav::{StatefulList, View};

verus! {

/// The keys that the interface tells apart.
#[derive(Debug, Clone, Copy, PartialEq, Eq, Structural)]
pub enum Key {
    Char(char),
    Esc,
    Enter,
    Backspace,
    Left,
    Right,
    Up,
    Down,
    Tab,
    BackTab,
    Other,
}

/// What the caller is to do after a key.
#[derive(Debug, Clone, Copy, PartialEq, Eq, Structural)]
pub enum Request {
    Nothing,
    /// Reload every list and the statistics.
    Refresh,
    /// Reload the topic list under the current tag filter.
    ReloadTopics,
    /// Load the sessions and gaps of the topic now open.
    OpenTopic,
    /// Load the interview entries of the plan now open.
    OpenPlan,
}

/// The navigation state: the view shown, the two lists with their
/// selections, the item open in a detail view (an index into its list), and
/// the tag filter being typed or in force.
pub struct Browser {
    pub view: View,
    pub topics: StatefulList<TopicWithProgress>,
    pub plans: StatefulList<Plan>,
    pub selected_topic: Option<usize>,
    pub selected_plan: Option<usize>,
    pub filter_tag: Option<String>,
    pub filter_input: Vec<char>,
    pub filter_mode: bool,
    pub should_quit: bool,
}

/// What key handling reads and changes of a `Browser`.
pub struct BrowserState {
    pub view: View,
    pub topic_count: nat,
    pub topic_sel: Option<usize>,
    pub plan_count: nat,
    pub plan_sel: Option<usize>,
    pub selected_topic: Option<usize>,
    pub selected_plan: Option<usize>,
    pub filter_tag: Option<Seq<char>>,
    pub filter_input: Seq<char>,
    pub filter_mode: bool,
    pub should_quit: bool,
}

/// The selection after moving down a list of `n` items.
pub open spec fn sel_next(n: nat, sel: Option<usize>) -> Option<usize> {
    if n == 0 {
        sel
    } else {
        Some(
            match sel {
                Some(i) => if i + 1 >= n { 0 } else { (i + 1) as usize },
                None => 0usize,
            },
        )
    }
}

/// The selection after moving up a list of `n` items.
pub open spec fn sel_prev(n: nat, sel: Option<usize>) -> Option<usize> {
    if n == 0 {
        sel
    } else {
        Some(
            match sel {
                Some(i) => if i == 0 { (n - 1) as usize } else { (i - 1) as usize },
                None => 0usize,
            },
        )
    }
}

/// The tag filter that typed text sets: none for empty text.
pub open spec fn filter_of(input: Seq<char>) -> Option<Seq<char>> {
    if input.len() == 0 {
        None
    } else {
        Some(input)
    }
}

/// Opens the selected topic, if the selection names one.
pub open spec fn open_topic(s: BrowserState) -> (BrowserState, Request) {
    match s.topic_sel {
        Some(i) => if i < s.topic_count {
            (BrowserState { selected_topic: Some(i), view: View::TopicDetail, ..s }, Request::OpenTopic)
        } else {
            (s, Request::Nothing)
        },
        None => (s, Request::Nothing),
    }
}

/// Opens the selected plan, if the selection names one.
pub open spec fn open_plan(s: BrowserState) -> (BrowserState, Request) {
    match s.plan_sel {
        Some(i) => if i < s.plan_count {
            (BrowserState { selected_plan: Some(i), view: View::PlanDetail, ..s }, Request::OpenPlan)
        } else {
            (s, Request::Nothing)
        },
        None => (s, Request::Nothing),
    }
}

/// Leaves a detail view for its list, or moves to the previous view.
pub open spec fn go_left(s: BrowserState) -> BrowserState {
    match s.view {
        View::TopicDetail => BrowserState { view: View::Topics, selected_topic: None, ..s },
        View::PlanDetail => BrowserState { view: View::Plans, selected_plan: None, ..s },
        _ => BrowserState { view: s.view.spec_prev(), ..s },
    }
}

/// The state after a key while a tag filter is being typed.
pub open spec fn typing_step(s: BrowserState, key: Key) -> (BrowserState, Request) {
    match key {
        Key::Esc => (BrowserState { filter_mode: false, filter_input: Seq::empty(), ..s }, Request::Nothing),
        Key::Enter => (
            BrowserState { filter_mode: false, filter_tag: filter_of(s.filter_input), ..s },
            Request::ReloadTopics,
        ),
        Key::Backspace => (
            BrowserState {
                filter_input: if s.filter_input.len() > 0 {
                    s.filter_input.drop_last()
                } else {
                    s.filter_input
                },
                ..s
            },
            Request::Nothing,
        ),
        Key::Char(c) => (BrowserState { filter_input: s.filter_input.push(c), ..s }, Request::Nothing),
        _ => (s, Request::Nothing),
    }
}

/// The state after a key, with the control and shift modifiers as given.
pub open spec fn key_step(s: BrowserState, key: Key, ctrl: bool, shift: bool) -> (BrowserState, Request) {
    if s.filter_mode {
        typing_step(s, key)
    } else {
        match key {
            Key::Char(c) => if c == 'q' {
                (BrowserState { should_quit: true, ..s }, Request::Nothing)
            } else if c == 'r' && ctrl {
                (s, Request::Refresh)
            } else if c == '/' && s.view == View::Topics {
                (BrowserState { filter_mode: true, filter_input: Seq::empty(), ..s }, Request::Nothing)
            } else if c == 'h' {
                (go_left(s), Request::Nothing)
            } else if c == 'l' {
                match s.view {
                    View::Topics => open_topic(s),
                    View::Plans => open_plan(s),
                    _ => (BrowserState { view: s.view.spec_next(), ..s }, Request::Nothing),
                }
            } else if c == 'j' {
                match s.view {
                    View::Topics => (BrowserState { topic_sel: sel_next(s.topic_count, s.topic_sel), ..s }, Request::Nothing),
                    View::Plans => (BrowserState { plan_sel: sel_next(s.plan_count, s.plan_sel), ..s }, Request::Nothing),
                    _ => (s, Request::Nothing),
                }
            } else if c == 'k' {
                match s.view {
                    View::Topics => (BrowserState { topic_sel: sel_prev(s.topic_count, s.topic_sel), ..s }, Request::Nothing),
                    View::Plans => (BrowserState { plan_sel: sel_prev(s.plan_count, s.plan_sel), ..s }, Request::Nothing),
                    _ => (s, Request::Nothing),
                }
            } else if c == 'g' {
                if s.view == View::Topics && s.topic_count > 0 {
                    (BrowserState { topic_sel: Some(0usize), ..s }, Request::Nothing)
                } else if s.view == View::Plans && s.plan_count > 0 {
                    (BrowserState { plan_sel: Some(0usize), ..s }, Request::Nothing)
                } else {
                    (s, Request::Nothing)
                }
            } else if c == 'G' {
                if s.view == View::Topics && s.topic_count > 0 {
                    (BrowserState { topic_sel: Some((s.topic_count - 1) as usize), ..s }, Request::Nothing)
                } else if s.view == View::Plans && s.plan_count > 0 {
                    (BrowserState { plan_sel: Some((s.plan_count - 1) as usize), ..s }, Request::Nothing)
                } else {
                    (s, Request::Nothing)
                }
            } else {
                (s, Request::Nothing)
            },
            Key::Esc => match s.view {
                View::TopicDetail => (BrowserState { view: View::Topics, selected_topic: None, ..s }, Request::Nothing),
                View::PlanDetail => (BrowserState { view: View::Plans, selected_plan: None, ..s }, Request::Nothing),
                View::Topics => if s.filter_tag is Some {
                    (BrowserState { filter_tag: None, filter_input: Seq::empty(), ..s }, Request::ReloadTopics)
                } else {
                    (s, Request::Nothing)
                },
                _ => (s, Request::Nothing),
            },
            Key::Left => (go_left(s), Request::Nothing),
            Key::Right => match s.view {
                View::Topics => open_topic(s),
                View::Plans => open_plan(s),
                _ => (BrowserState { view: s.view.spec_next(), ..s }, Request::Nothing),
            },
            Key::Tab => if shift {
                (BrowserState { view: s.view.spec_prev(), ..s }, Request::Nothing)
            } else {
                (BrowserState { view: s.view.spec_next(), ..s }, Request::Nothing)
            },
            Key::BackTab => (BrowserState { view: s.view.spec_prev(), ..s }, Request::Nothing),
            Key::Down => match s.view {
                View::Topics => (BrowserState { topic_sel: sel_next(s.topic_count, s.topic_sel), ..s }, Request::Nothing),
                View::Plans => (BrowserState { plan_sel: sel_next(s.plan_count, s.plan_sel), ..s }, Request::Nothing),
                _ => (s, Request::Nothing),
            },
            Key::Up => match s.view {
                View::Topics => (BrowserState { topic_sel: sel_prev(s.topic_count, s.topic_sel), ..s }, Request::Nothing),
                View::Plans => (BrowserState { plan_sel: sel_prev(s.plan_count, s.plan_sel), ..s }, Request::Nothing),
                _ => (s, Request::Nothing),
            },
            Key::Enter => match s.view {
                View::Topics => open_topic(s),
                View::Plans => open_plan(s),
                _ => (s, Request::Nothing),
            },
            _ => (s, Request::Nothing),
        }
    }
}

/// Relies on `String: FromIterator<char>`: the characters, collected in order.
#[verifier::external_body]
fn collect_chars(cs: &Vec<char>) -> (r: String)
    ensures
        r@ == cs@,
{
    cs.iter().collect()
}

impl Browser {
    pub open spec fn state(&self) -> BrowserState {
        BrowserState {
            view: self.view,
            topic_count: self.topics.items@.len(),
            topic_sel: self.topics.selected,
            plan_count: self.plans.items@.len(),
            plan_sel: self.plans.selected,
            selected_topic: self.selected_topic,
            selected_plan: self.selected_plan,
            filter_tag: match self.filter_tag {
                Some(t) => Some(t@),
                None => None,
            },
            filter_input: self.filter_input@,
            filter_mode: self.filter_mode,
            should_quit: self.should_quit,
        }
    }

    /// The dashboard, over the given lists, with no filter.
    pub fn new(topics: Vec<TopicWithProgress>, plans: Vec<Plan>) -> (b: Browser)
        ensures
            b.view == View::Dashboard,
            b.topics.items@ == topics@,
            b.plans.items@ == plans@,
            b.topics.wf(),
            b.plans.wf(),
            b.selected_topic is None,
            b.selected_plan is None,
            b.filter_tag is None,
            b.filter_input@.len() == 0,
            !b.filter_mode,
            !b.should_quit,
    {
        Browser {
            view: View::Dashboard,
            topics: StatefulList::with_items(topics),
            plans: StatefulList::with_items(plans),
            selected_topic: None,
            selected_plan: None,
            filter_tag: None,
            filter_input: Vec::new(),
            filter_mode: false,
            should_quit: false,
        }
    }

    fn open_topic(&mut self) -> (r: Request)
        ensures
            (final(self).state(), r) == open_topic(old(self).state()),
            final(self).topics.items@ == old(self).topics.items@,
            final(self).plans.items@ == old(self).plans.items@,
    {
        match self.topics.selected {
            Some(i) => if i < self.topics.items.len() {
                self.selected_topic = Some(i);
                self.view = View::TopicDetail;
                Request::OpenTopic
            } else {
                Request::Nothing
            },
            None => Request::Nothing,
        }
    }

    fn open_plan(&mut self) -> (r: Request)
        ensures
            (final(self).state(), r) == open_plan(old(self).state()),
            final(self).topics.items@ == old(self).topics.items@,
            final(self).plans.items@ == old(self).plans.items@,
    {
        match self.plans.selected {
            Some(i) => if i < self.plans.items.len() {
                self.selected_plan = Some(i);
                self.view = View::PlanDetail;
                Request::OpenPlan
            } else {
                Request::Nothing
            },
            None => Request::Nothing,
        }
    }

    fn go_left(&mut self)
        ensures
            final(self).state() == go_left(old(self).state()),
            final(self).topics.items@ == old(self).topics.items@,
            final(self).plans.items@ == old(self).plans.items@,
    {
        match self.view {
            View::TopicDetail => {
                self.view = View::Topics;
                self.selected_topic = None;
            },
            View::PlanDetail => {
                self.view = View::Plans;
                self.selected_plan = None;
            },
            _ => {
                self.view = self.view.prev();
            },
        }
    }

    fn apply_filter(&mut self)
        ensures
            final(self).state() == (BrowserState { filter_tag: filter_of(old(self).filter_input@), ..old(self).state() }),
            final(self).topics.items@ == old(self).topics.items@,
            final(self).plans.items@ == old(self).plans.items@,
    {
        if self.filter_input.len() == 0 {
            self.filter_tag = None;
        } else {
            self.filter_tag = Some(collect_chars(&self.filter_input));
        }
    }

    /// Handles one key; the caller then does what the returned request asks.
    pub fn handle_key(&mut self, key: Key, ctrl: bool, shift: bool) -> (r: Request)
        ensures
            (final(self).state(), r) == key_step(old(self).state(), key, ctrl, shift),
            final(self).topics.items@ == old(self).topics.items@,
            final(self).plans.items@ == old(self).plans.items@,
    {
        if self.filter_mode {
            match key {
                Key::Esc => {
                    self.filter_mode = false;
                    self.filter_input.clear();
                    proof {
                        assert(self.filter_input@ =~= Seq::<char>::empty());
                    }
                },
                Key::Enter => {
                    self.filter_mode = false;
                    self.apply_filter();
                    return Request::ReloadTopics;
                },
                Key::Backspace => {
                    self.filter_input.pop();
                },
                Key::Char(c) => {
                    self.filter_input.push(c);
                },
                _ => {},
            }
            return Request::Nothing;
        }
        match key {
            Key::Char(c) => {
                if c == 'q' {
                    self.should_quit = true;
                } else if c == 'r' && ctrl {
                    return Request::Refresh;
                } else if c == '/' && self.view == View::Topics {
                    self.filter_mode = true;
                    self.filter_input.clear();
                    proof {
                        assert(self.filter_input@ =~= Seq::<char>::empty());
                    }
                } else if c == 'h' {
                    self.go_left();
                } else if c == 'l' {
                    match self.view {
                        View::Topics => {
                            return self.open_topic();
                        },
                        View::Plans => {
                            return self.open_plan();
                        },
                        _ => {
                            self.view = self.view.next();
                        },
                    }
                } else if c == 'j' {
                    match self.view {
                        View::Topics => self.topics.next(),
                        View::Plans => self.plans.next(),
                        _ => {},
                    }
                } else if c == 'k' {
                    match self.view {
                        View::Topics => self.topics.previous(),
                        View::Plans => self.plans.previous(),
                        _ => {},
                    }
                } else if c == 'g' {
                    if self.view == View::Topics && self.topics.items.len() > 0 {
                        self.topics.selected = Some(0);
                    } else if self.view == View::Plans && self.plans.items.len() > 0 {
                        self.plans.selected = Some(0);
                    }
                } else if c == 'G' {
                    if self.view == View::Topics && self.topics.items.len() > 0 {
                        self.topics.selected = Some(self.topics.items.len() - 1);
                    } else if self.view == View::Plans && self.plans.items.len() > 0 {
                        self.plans.selected = Some(self.plans.items.len() - 1);
                    }
                }
            },
            Key::Esc => match self.view {
                View::TopicDetail => {
                    self.view = View::Topics;
                    self.selected_topic = None;
                },
                View::PlanDetail => {
                    self.view = View::Plans;
                    self.selected_plan = None;
                },
                View::Topics => {
                    if self.filter_tag.is_some() {
                        self.filter_tag = None;
                        self.filter_input.clear();
                        proof {
                            assert(self.filter_input@ =~= Seq::<char>::empty());
                        }
                        self.apply_filter();
                        return Request::ReloadTopics;
                    }
                },
                _ => {},
            },
            Key::Left => {
                self.go_left();
            },
            Key::Right => match self.view {
                View::Topics => {
                    return self.open_topic();
                },
                View::Plans => {
                    return self.open_plan();
                },
                _ => {
                    self.view = self.view.next();
                },
            },
            Key::Tab => {
                if shift {
                    self.view = self.view.prev();
                } else {
                    self.view = self.view.next();
                }
            },
            Key::BackTab => {
                self.view = self.view.prev();
            },
            Key::Down => match self.view {
                View::Topics => self.topics.next(),
                View::Plans => self.plans.next(),
                _ => {},
            },
            Key::Up => match self.view {
                View::Topics => self.topics.previous(),
                View::Plans => self.plans.previous(),
                _ => {},
            },
            Key::Enter => match self.view {
                View::Topics => {
                    return self.open_topic();
                },
                View::Plans => {
                    return self.open_plan();
                },
                _ => {},
            },
            _ => {},
        }
        Request::Nothing
    }
}

} // verus!
