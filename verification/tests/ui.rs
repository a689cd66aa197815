use rsnitch::host::{Host, Poll, Reply};
use rsnitch::settings::Environment;
use rsnitch::snitch_ui::{Action, Message, SnitchUi};

fn env(hosts_path: Option<&str>) -> Environment {
    Environment {
        user: "ann".to_string(),
        hostname: "box".to_string(),
        home_path: "/home/ann".to_string(),
        config_path: "/home/ann/.config/rsnitch-rs".to_string(),
        hosts_path: hosts_path.map(|p| p.to_string()),
        settings: None,
    }
}

fn host(group: &str, name: &str, label: &str) -> Host {
    Host { group: group.to_string(), host: name.to_string(), label: label.to_string() }
}

fn hosts() -> Vec<Host> {
    vec![
        host("db", "10.0.0.5", "db1"),
        host("web", "10.0.0.6", "web1"),
        host("db", "bad.invalid", "db2"),
    ]
}

#[test]
fn window_starts_with_every_host_down_and_no_filter() {
    let ui = SnitchUi::new(&env(None), Some(hosts()));
    assert_eq!(ui.filter(), "");
    assert_eq!(*ui.groups(), vec!["db".to_string(), "web".to_string()]);
    assert_eq!(*ui.states(), vec![false, false, false]);
    assert_eq!(ui.info(), " \n \n \n \n \n ");
    assert_eq!(ui.title(), "rsnitch 0.0.2");
    assert_eq!(ui.poll_interval_millis(), 10_000);
    assert_eq!(SnitchUi::POLL_INTERVAL, 10);
    assert_eq!(ui.group_box().cols(), 5);
    assert_eq!(ui.host_box().cols(), 5);
    assert_eq!(ui.status(), "~/.rsnitch-rs/hosts.json    ");
    assert_eq!(ui.hosts().as_ref().map(|h| h.len()), Some(3));
}

#[test]
fn window_without_a_list_of_hosts_has_nothing_to_poll() {
    let mut ui = SnitchUi::new(&env(None), None);
    assert!(ui.hosts().is_none());
    assert_eq!(*ui.groups(), Vec::<String>::new());
    assert_eq!(*ui.states(), Vec::<bool>::new());
    assert_eq!(ui.update(Message::Poll), Action::Nothing);
    assert_eq!(ui.update(Message::ClockTick), Action::Nothing);
    assert_eq!(ui.host_buttons(), Vec::<(usize, bool)>::new());
}

#[test]
fn poll_and_clock_tick_ask_for_a_poll_of_all_hosts() {
    let mut ui = SnitchUi::new(&env(None), Some(hosts()));
    assert_eq!(ui.update(Message::Poll), Action::PollAll);
    assert_eq!(ui.update(Message::ClockTick), Action::PollAll);
    let empty = SnitchUi::new(&env(None), Some(Vec::new())).update(Message::Poll);
    assert_eq!(empty, Action::PollAll);
}

#[test]
fn group_press_sets_the_filter_and_clear_takes_it_away() {
    let mut ui = SnitchUi::new(&env(Some("/tmp/hosts.json")), Some(hosts()));
    assert_eq!(ui.update(Message::GroupPress(1)), Action::Nothing);
    assert_eq!(ui.filter(), "web");
    assert_eq!(ui.status(), "/tmp/hosts.json    web");
    assert_eq!(ui.update(Message::GroupPress(0)), Action::Nothing);
    assert_eq!(ui.filter(), "db");
    assert_eq!(ui.update(Message::Clear), Action::Nothing);
    assert_eq!(ui.filter(), "");
    assert_eq!(ui.status(), "/tmp/hosts.json    ");
}

#[test]
fn window_events_close_only_on_request() {
    let mut ui = SnitchUi::new(&env(None), Some(hosts()));
    assert_eq!(ui.update(Message::EventOccurred(false)), Action::Nothing);
    assert_eq!(ui.update(Message::EventOccurred(true)), Action::Close);
}

#[test]
fn states_are_replaced_as_a_whole() {
    let mut ui = SnitchUi::new(&env(None), Some(hosts()));
    let answers = vec![
        Some(vec!["10.0.0.5".to_string()]),
        Some(vec!["10.0.0.6".to_string()]),
        None,
    ];
    let poll = Poll::new(&answers);
    let replies = vec![
        Reply { addr: "10.0.0.6".to_string(), reachable: true },
        Reply { addr: "10.0.0.5".to_string(), reachable: false },
    ];
    ui.set_states(poll.poll_all(&replies));
    assert_eq!(*ui.states(), vec![false, true, false]);
    assert_eq!(ui.host_buttons(), vec![(0, false), (1, true), (2, false)]);
    ui.update(Message::GroupPress(0));
    assert_eq!(ui.host_buttons(), vec![(0, false), (2, false)]);
    ui.update(Message::GroupPress(1));
    assert_eq!(ui.host_buttons(), vec![(1, true)]);
}

#[test]
fn host_press_asks_for_the_detail_which_is_then_shown() {
    let mut ui = SnitchUi::new(&env(None), Some(hosts()));
    assert_eq!(ui.update(Message::HostPress(0)), Action::Describe(0));
    assert_eq!(ui.info(), " \n \n \n \n \n ");
    let answer = Some(vec!["10.0.0.5".to_string()]);
    ui.describe(0, &answer, &vec![Reply { addr: "10.0.0.5".to_string(), reachable: true }]);
    assert_eq!(ui.info(), " \n \nhost: 10.0.0.5\ngroup: db\nlabel: db1\ninfo: 10.0.0.5 up");
    assert_eq!(ui.update(Message::HostPress(2)), Action::Describe(2));
    ui.describe(2, &None, &Vec::new());
    assert_eq!(
        ui.info(),
        " \n \nhost: bad.invalid\ngroup: db\nlabel: db2\ninfo: hostname: bad.invalid DNS lookup failure"
    );
}
