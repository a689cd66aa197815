//! Host liveness polling: the correlation of probe replies with the hosts
//! that asked for them, and the bounded scrolling text buffer in which the
//! detail of one host is shown.

pub mod controls_box;
pub mod cycle;
pub mod group_box;
pub mod host;
pub mod host_box;
pub mod info_box;
pub mod quad;
pub mod settings;
pub mod settings_tab;
pub mod snitch_ui;
pub mod status_bar;
pub mod text;
pub mod text_widget;
pub mod tty;
pub mod views;
