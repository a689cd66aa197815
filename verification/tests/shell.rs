use rsnitch::controls_box::Controls;
use rsnitch::group_box::GroupBox;
use rsnitch::host::Host;
use rsnitch::host_box::{position, HostBox};
use rsnitch::quad::{quad, Quad};
use rsnitch::settings::{Environment, Settings, TextUi, Window};
use rsnitch::settings_tab::{
    predefined_style, SettingsMessage, SettingsTab, TabBarPosition, TabBarStyles, TabSettings,
};
use rsnitch::status_bar::StatusBar;

fn env(hosts_path: Option<&str>) -> Environment {
    Environment {
        user: "ann".to_string(),
        hostname: "box".to_string(),
        home_path: "/home/ann".to_string(),
        config_path: "/home/ann/.config/rsnitch-rs".to_string(),
        hosts_path: hosts_path.map(|p| p.to_string()),
        settings: None,
    }
}

fn host(group: &str, name: &str, label: &str) -> Host {
    Host { group: group.to_string(), host: name.to_string(), label: label.to_string() }
}

fn hosts() -> Vec<Host> {
    vec![
        host("web", "w1", "front"),
        host("db", "d1", "main"),
        host("web", "w2", "back"),
        host("db", "w1", "shadow"),
    ]
}

#[test]
fn settings_come_with_the_configuration_directory() {
    let unset = Settings {
        window: Window { size: None, min_size: None, max_size: None, resizable: None },
        textui: TextUi { rows: None, cursor: None },
    };
    assert_eq!(Settings::from_env(&env(None), true), Some(unset));
    assert_eq!(Settings::from_env(&env(None), false), None);
    assert_eq!(Settings::default(), unset);
}

#[test]
fn dotfiles_sets_the_settings_and_keeps_the_rest() {
    let with = env(Some("/tmp/hosts.json")).dotfiles(true);
    assert_eq!(with.user, "ann");
    assert_eq!(with.hostname, "box");
    assert_eq!(with.home_path, "/home/ann");
    assert_eq!(with.config_path, "/home/ann/.config/rsnitch-rs");
    assert_eq!(with.hosts_path, Some("/tmp/hosts.json".to_string()));
    assert_eq!(with.settings, Some(Settings::default()));
    let without = env(None).dotfiles(false);
    assert_eq!(without.settings, None);
    assert_eq!(without.hosts_path, None);
}

#[test]
fn hosts_file_is_the_given_path_or_the_one_in_the_configuration() {
    assert_eq!(env(Some("/tmp/hosts.json")).hosts_file(), "/tmp/hosts.json");
    assert_eq!(env(None).hosts_file(), "/home/ann/.config/rsnitch-rs/hosts.json");
    assert_eq!(Environment::CONFIG_PATH, ".config/rsnitch-rs");
    assert_eq!(Environment::SETTINGS_FILE, "settings.json");
    assert_eq!(Environment::HOSTS_FILE, "hosts.json");
}

#[test]
fn status_bar_names_the_hosts_file() {
    assert_eq!(StatusBar::new(&env(Some("/tmp/hosts.json"))).text("db"), "/tmp/hosts.json    db");
    assert_eq!(StatusBar::new(&env(None)).text(""), "~/.rsnitch-rs/hosts.json    ");
}

#[test]
fn controls_hold_the_filter() {
    let mut controls = Controls::new();
    assert_eq!(controls.get_filter(), "");
    controls.set_filter("db".to_string());
    assert_eq!(controls.get_filter(), "db");
    controls.set_filter(String::new());
    assert_eq!(controls.get_filter(), "");
}

#[test]
fn boxes_keep_their_columns() {
    assert_eq!(GroupBox::new(&env(None), 5).cols(), 5);
    assert_eq!(HostBox::new(&env(None), 7).cols(), 7);
}

#[test]
fn effective_hid_without_a_filter_is_the_id() {
    let host_box = HostBox::new(&env(None), 5);
    let hid = host_box.effective_hid(&hosts(), 2, &"w2".to_string(), &String::new());
    assert_eq!(hid, 2);
    let hid = host_box.effective_hid(&hosts(), 3, &"nowhere".to_string(), &String::new());
    assert_eq!(hid, 3);
}

#[test]
fn effective_hid_with_a_filter_is_the_first_host_of_that_name() {
    let host_box = HostBox::new(&env(None), 5);
    let hid = host_box.effective_hid(&hosts(), 0, &"w2".to_string(), &"web".to_string());
    assert_eq!(hid, 2);
    let hid = host_box.effective_hid(&hosts(), 1, &"w1".to_string(), &"db".to_string());
    assert_eq!(hid, 0);
}

#[test]
fn position_is_the_first_place_of_a_name() {
    assert_eq!(position(&hosts(), &"w1".to_string()), Some(0));
    assert_eq!(position(&hosts(), &"d1".to_string()), Some(1));
    assert_eq!(position(&hosts(), &"none".to_string()), None);
    assert_eq!(position(&[], &"w1".to_string()), None);
}

#[test]
fn visible_hosts_under_a_filter() {
    let host_box = HostBox::new(&env(None), 5);
    assert_eq!(host_box.visible(&String::new(), &hosts()), vec![0, 1, 2, 3]);
    assert_eq!(host_box.visible(&"web".to_string(), &hosts()), vec![0, 2]);
    assert_eq!(host_box.visible(&"db".to_string(), &hosts()), vec![1, 0]);
    assert_eq!(host_box.visible(&"mail".to_string(), &hosts()), Vec::<usize>::new());
    assert_eq!(host_box.visible(&String::new(), &[]), Vec::<usize>::new());
}

#[test]
fn quad_keeps_width_and_height() {
    let q = Quad::new();
    assert_eq!((q.width, q.height), (0, 0));
    let q = q.width(500);
    assert_eq!((q.width, q.height), (500, 0));
    let q = q.height(1);
    assert_eq!((q.width, q.height), (500, 1));
    let q = quad(-3, 4);
    assert_eq!((q.width, q.height), (-3, 4));
}

#[test]
fn tab_bar_positions_have_names() {
    assert_eq!(TabBarPosition::Top.name(), "Top");
    assert_eq!(TabBarPosition::Bottom.name(), "Bottom");
    assert_eq!(TabBarPosition::all(), [TabBarPosition::Top, TabBarPosition::Bottom]);
    assert_eq!(TabBarPosition::default(), TabBarPosition::Top);
}

#[test]
fn predefined_styles_by_index() {
    assert_eq!(predefined_style(0), TabBarStyles::Default);
    assert_eq!(predefined_style(1), TabBarStyles::Red);
    assert_eq!(predefined_style(2), TabBarStyles::Blue);
    assert_eq!(predefined_style(3), TabBarStyles::Green);
    assert_eq!(predefined_style(4), TabBarStyles::Purple);
    assert_eq!(predefined_style(5), TabBarStyles::Default);
    assert_eq!(predefined_style(usize::MAX), TabBarStyles::Default);
}

#[test]
fn settings_tab_takes_choices_over() {
    let mut tab = SettingsTab::new(&env(None));
    assert_eq!(*tab.settings(), TabSettings::new());
    assert_eq!(tab.settings().tab_bar_position, Some(TabBarPosition::Top));
    assert_eq!(tab.settings().tab_bar_theme, Some(TabBarStyles::Default));
    tab.update(SettingsMessage::PositionSelected(TabBarPosition::Bottom));
    assert_eq!(tab.settings().tab_bar_position, Some(TabBarPosition::Bottom));
    assert_eq!(tab.settings().tab_bar_theme, Some(TabBarStyles::Default));
    tab.update(SettingsMessage::ThemeSelected(TabBarStyles::Green));
    assert_eq!(tab.settings().tab_bar_position, Some(TabBarPosition::Bottom));
    assert_eq!(tab.settings().tab_bar_theme, Some(TabBarStyles::Green));
    tab.update(SettingsMessage::ClockTick);
    assert_eq!(tab.settings().tab_bar_position, Some(TabBarPosition::Bottom));
    assert_eq!(tab.settings().tab_bar_theme, Some(TabBarStyles::Green));
}
