//! What the window holds and how it answers to the user and the clock: the
//! hosts and their groups, the filter, the state of each host and the pane
//! with the detail of one host. Polling itself is asked for, not done here.

use crate::group_box::GroupBox;
use crate::host::{
    first_address, group_names, groups_of, info_text, replies_view, status, Host, Reply,
};
use crate::host_box::{button_ids, HostBox};
use crate::info_box::{detail_lines, InfoBox};
use crate::settings::Environment;
use crate::status_bar::StatusBar;
use crate::text::TextState;
use crate::views::{places_view, strings_view};
use vstd::prelude::*;

verus! {

/// What the window is told.
#[derive(Debug, Clone, Copy, PartialEq, Eq)]
pub enum Message {
    /// The filter is taken away.
    Clear,
    /// The clock ticked.
    ClockTick,
    /// Something happened to the window; `true` where it is asked to close.
    EventOccurred(bool),
    /// The button of the group at this place was pressed.
    GroupPress(usize),
    /// The button of the host at this place was pressed.
    HostPress(usize),
    /// A poll of all hosts is asked for.
    Poll,
}

/// What is to be done after a message.
#[derive(Debug, Clone, Copy, PartialEq, Eq)]
pub enum Action {
    /// Nothing.
    Nothing,
    /// Poll all hosts, and hand the states over.
    PollAll,
    /// Poll the host at this place, and show its detail.
    Describe(usize),
    /// Close the window.
    Close,
}

/// What the window holds.
pub struct SnitchState {
    pub filter: Seq<char>,
    pub groups: Seq<Seq<char>>,
    pub hosts: Option<Seq<Host>>,
    pub states: Seq<bool>,
    pub info: TextState,
    pub hosts_file: Seq<char>,
    pub group_cols: nat,
    pub host_cols: nat,
}

impl SnitchState {
    /// The hosts; none where no list of hosts was found.
    pub open spec fn host_list(self) -> Seq<Host> {
        match self.hosts {
            Some(hosts) => hosts,
            None => Seq::empty(),
        }
    }

    /// The groups are those of the hosts, there is one state for each host,
    /// and the pane has its six rows, shows them as they are and has no
    /// mark.
    pub open spec fn wf(self) -> bool {
        &&& self.groups == groups_of(group_names(self.host_list()))
        &&& self.states.len() == self.host_list().len()
        &&& self.info.wf()
        &&& self.info.rows == 6
        &&& self.info.cursor.is_none()
    }
}

/// The window.
pub struct SnitchUi {
    filter: String,
    group_box: GroupBox,
    groups: Vec<String>,
    host_box: HostBox,
    hosts: Option<Vec<Host>>,
    info_box: InfoBox,
    states: Vec<bool>,
    status_bar: StatusBar,
}

impl View for SnitchUi {
    type V = SnitchState;

    closed spec fn view(&self) -> SnitchState {
        SnitchState {
            filter: self.filter@,
            groups: strings_view(self.groups@),
            hosts: match self.hosts {
                Some(hosts) => Some(hosts@),
                None => None,
            },
            states: self.states@,
            info: self.info_box@,
            hosts_file: self.status_bar@,
            group_cols: self.group_box@,
            host_cols: self.host_box@,
        }
    }
}

impl SnitchUi {
    /// The seconds between two polls of all hosts.
    pub const POLL_INTERVAL: u64 = 10;

    /// The size of the title.
    pub const HEADER_TEXT_SIZE: u16 = 20;

    /// The space around the frame.
    pub const FRAME_PADDING: u16 = 5;

    /// The columns of the grid of the groups and of the grid of the hosts.
    pub const COLUMNS: usize = 5;

    /// The window for these hosts: no filter, every host down until the
    /// first poll, a pane of six empty rows, and two grids of five columns.
    /// Without a list of hosts there is no host and no state.
    pub fn new(env: &Environment, hosts: Option<Vec<Host>>) -> (ui: SnitchUi)
        ensures
            ui@.wf(),
            ui@.filter == Seq::<char>::empty(),
            ui@.hosts == match hosts {
                Some(hosts) => Some(hosts@),
                None => None,
            },
            forall|i: int| 0 <= i < ui@.states.len() ==> !ui@.states[i],
            ui@.info == TextState::fresh(6, 80, None),
            ui@.hosts_file == match env.hosts_path {
                Some(path) => path@,
                None => "~/.rsnitch-rs/hosts.json"@,
            },
            ui@.group_cols == 5,
            ui@.host_cols == 5,
    {
        let mut states: Vec<bool> = Vec::new();
        let groups = match &hosts {
            Some(hosts) => {
                let mut i: usize = 0;
                while i < hosts.len()
                    invariant
                        i <= hosts.len(),
                        states.len() == i,
                        forall|k: int| 0 <= k < i ==> !states[k],
                    decreases hosts.len() - i,
                {
                    states.push(false);
                    i += 1;
                }
                Host::groups(hosts)
            },
            None => {
                let none: Vec<Host> = Vec::new();
                assert(group_names(none@) =~= group_names(Seq::<Host>::empty()));
                Host::groups(&none)
            },
        };
        SnitchUi {
            filter: String::new(),
            group_box: GroupBox::new(env, Self::COLUMNS),
            groups,
            host_box: HostBox::new(env, Self::COLUMNS),
            hosts,
            info_box: InfoBox::new(6, 80),
            states,
            status_bar: StatusBar::new(env),
        }
    }

    /// The title of the window.
    pub fn title(&self) -> (title: String)
        ensures
            title@ == "rsnitch 0.0.2"@,
    {
        "rsnitch 0.0.2".to_owned()
    }

    /// The milliseconds between two polls of all hosts.
    pub fn poll_interval_millis(&self) -> (millis: u64)
        ensures
            millis == 10_000,
    {
        Self::POLL_INTERVAL * 1000
    }

    /// Answers to a message. A press on a group makes it the filter, `Clear`
    /// takes the filter away; nothing else changes what the window holds.
    /// A tick of the clock and `Poll` ask for a poll of all hosts where
    /// there is a list of hosts, a press on a host asks for its detail, and
    /// a request to close the window asks for that.
    pub fn update(&mut self, message: Message) -> (action: Action)
        requires
            old(self)@.wf(),
            match message {
                Message::GroupPress(id) => id < old(self)@.groups.len(),
                Message::HostPress(id) => id < old(self)@.host_list().len(),
                _ => true,
            },
        ensures
            final(self)@.wf(),
            final(self)@ == (SnitchState {
                filter: match message {
                    Message::GroupPress(id) => old(self)@.groups[id as int],
                    Message::Clear => Seq::<char>::empty(),
                    _ => old(self)@.filter,
                },
                ..old(self)@
            }),
            action == match message {
                Message::Poll | Message::ClockTick => if old(self)@.hosts.is_some() {
                    Action::PollAll
                } else {
                    Action::Nothing
                },
                Message::HostPress(id) => Action::Describe(id),
                Message::EventOccurred(closing) => if closing {
                    Action::Close
                } else {
                    Action::Nothing
                },
                Message::GroupPress(_) | Message::Clear => Action::Nothing,
            },
    {
        match message {
            Message::Poll | Message::ClockTick => match &self.hosts {
                Some(_) => Action::PollAll,
                None => Action::Nothing,
            },
            Message::GroupPress(id) => {
                self.filter = self.groups[id].clone();
                Action::Nothing
            },
            Message::Clear => {
                self.filter = String::new();
                Action::Nothing
            },
            Message::HostPress(id) => Action::Describe(id),
            Message::EventOccurred(closing) => if closing {
                Action::Close
            } else {
                Action::Nothing
            },
        }
    }

    /// Takes the states of a poll over: all at once, in place of the ones
    /// held before.
    pub fn set_states(&mut self, states: Vec<bool>)
        requires
            old(self)@.wf(),
            states.len() == old(self)@.host_list().len(),
        ensures
            final(self)@.wf(),
            final(self)@ == (SnitchState { states: states@, ..old(self)@ }),
    {
        self.states = states;
    }

    /// Shows the detail of the host at place `id` in the pane: its name,
    /// group and label, and what the lookup of its name and the replies of
    /// its probe say of it.
    pub fn describe(&mut self, id: usize, answer: &Option<Vec<String>>, replies: &Vec<Reply>)
        requires
            old(self)@.wf(),
            id < old(self)@.host_list().len(),
        ensures
            final(self)@.wf(),
            final(self)@ == (SnitchState {
                info: old(self)@.info.with_lines(
                    detail_lines(
                        6,
                        old(self)@.host_list()[id as int].host@,
                        old(self)@.host_list()[id as int].group@,
                        old(self)@.host_list()[id as int].label@,
                        info_text(
                            old(self)@.host_list()[id as int].host@,
                            first_address(*answer),
                            status(first_address(*answer), replies_view(replies@)),
                        ),
                    ),
                ),
                ..old(self)@
            }),
    {
        match &self.hosts {
            Some(hosts) => {
                let info = Host::info(&hosts[id], answer, replies);
                self.info_box.show(&hosts[id], info.as_str());
            },
            None => {},
        }
    }

    /// The filter: the group whose hosts are shown, empty for all hosts.
    pub fn filter(&self) -> (filter: String)
        ensures
            filter@ == self@.filter,
    {
        self.filter.clone()
    }

    /// The groups, in the order of their buttons.
    pub fn groups(&self) -> (groups: &Vec<String>)
        ensures
            strings_view(groups@) == self@.groups,
    {
        &self.groups
    }

    /// The hosts; none where no list of hosts was found.
    pub fn hosts(&self) -> (hosts: &Option<Vec<Host>>)
        ensures
            self@.hosts == match *hosts {
                Some(hosts) => Some(hosts@),
                None => None,
            },
    {
        &self.hosts
    }

    /// The grid of the groups.
    pub fn group_box(&self) -> (group_box: &GroupBox)
        ensures
            group_box@ == self@.group_cols,
    {
        &self.group_box
    }

    /// The grid of the hosts.
    pub fn host_box(&self) -> (host_box: &HostBox)
        ensures
            host_box@ == self@.host_cols,
    {
        &self.host_box
    }

    /// The state of each host as the last poll found it.
    pub fn states(&self) -> (states: &Vec<bool>)
        ensures
            states@ == self@.states,
    {
        &self.states
    }

    /// The text of the pane.
    pub fn info(&self) -> (text: String)
        ensures
            text@ == self@.info.image,
    {
        self.info_box.contents()
    }

    /// The text of the status line: the file of the hosts and the filter.
    pub fn status(&self) -> (line: String)
        ensures
            line@ == self@.hosts_file + "    "@ + self@.filter,
    {
        self.status_bar.text(self.filter.as_str())
    }

    /// The buttons of the hosts under the filter, in their order: for each
    /// the host that it stands for, and whether that host is up.
    pub fn host_buttons(&self) -> (buttons: Vec<(usize, bool)>)
        requires
            self@.wf(),
        ensures
            buttons.len() == button_ids(
                self@.host_list(),
                self@.filter,
                self@.host_list().len() as int,
            ).len(),
            forall|k: int|
                0 <= k < buttons.len() ==> {
                    let id = button_ids(
                        self@.host_list(),
                        self@.filter,
                        self@.host_list().len() as int,
                    )[k];
                    &&& (#[trigger] buttons[k]).0 == id
                    &&& 0 <= id < self@.states.len()
                    &&& buttons[k].1 == self@.states[id]
                },
    {
        let mut buttons: Vec<(usize, bool)> = Vec::new();
        match &self.hosts {
            Some(hosts) => {
                let ids = self.host_box.visible(&self.filter, hosts.as_slice());
                let ghost all = places_view(ids@);
                let mut k: usize = 0;
                while k < ids.len()
                    invariant
                        k <= ids.len(),
                        buttons.len() == k,
                        all == places_view(ids@),
                        forall|j: int| 0 <= j < ids.len() ==> 0 <= #[trigger] ids[j] < self.states.len(),
                        forall|j: int|
                            0 <= j < k ==> (#[trigger] buttons[j]).0 == all[j] && buttons[j].1
                                == self.states[all[j]],
                    decreases ids.len() - k,
                {
                    let id: usize = ids[k];
                    assert(all[k as int] == id);
                    buttons.push((id, self.states[id]));
                    k += 1;
                }
            },
            None => {
                assert(button_ids(Seq::<Host>::empty(), self@.filter, 0) =~= Seq::<int>::empty());
            },
        }
        buttons
    }
}

} // verus!
