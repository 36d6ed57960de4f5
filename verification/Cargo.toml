[package]
name = "pages_list"
version = "0.1.0"
edition = "2021"
publish = false

[dependencies]
ratatui = "0.27"
throbber-widgets-tui = "0.6"
tui-widget-list = "0.10"
