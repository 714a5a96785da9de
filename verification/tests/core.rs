use adguard_vpn_gui::app::{App, Message, STATUS_REFRESH_NANOS};
use adguard_vpn_gui::commands::{
    combine_outputs, config_args, connect_args, expand_home, parse_exclusions, Effect, Reply,
};
use adguard_vpn_gui::locations::{parse_locations, Location};
use adguard_vpn_gui::options::{pick_options, ExclMode, IpVersion, PickOption, Tab};
use adguard_vpn_gui::output::{clean_output, launch_failure, strip_ansi};
use adguard_vpn_gui::text::{join_range, split_lines, split_words, trim};

fn strs(v: &[&str]) -> Vec<String> {
    v.iter().map(|s| s.to_string()).collect()
}

fn run_args(e: &Effect) -> (Vec<String>, Reply) {
    match e {
        Effect::Run(call) => (call.args.clone(), call.reply),
        other => panic!("expected a single run, got {:?}", other),
    }
}

#[test]
fn strip_ansi_removes_colour_sequences() {
    assert_eq!(strip_ansi("\x1b[1;32mConnected\x1b[0m"), "Connected");
    assert_eq!(strip_ansi("a\x1b[mb"), "ab");
    assert_eq!(strip_ansi("plain text"), "plain text");
}

#[test]
fn strip_ansi_keeps_incomplete_sequences() {
    assert_eq!(strip_ansi("\x1b[12x"), "\x1b[12x");
    assert_eq!(strip_ansi("\x1b["), "\x1b[");
    assert_eq!(strip_ansi("\x1b[\x1b[1mm"), "\x1b[m");
}

#[test]
fn clean_output_trims_then_strips() {
    assert_eq!(clean_output("  \x1b[32mok\x1b[0m \n"), "ok");
    assert_eq!(clean_output("\n\t"), "");
}

#[test]
fn launch_failure_names_the_tool() {
    assert_eq!(
        launch_failure("No such file or directory"),
        "Ошибка запуска adguardvpn-cli: No such file or directory"
    );
}

#[test]
fn trim_lines_words() {
    assert_eq!(trim("\u{a0} x y \u{3000}"), "x y");
    assert_eq!(split_lines("a\n\nb\n"), strs(&["a", "", "b"]));
    assert_eq!(split_lines(""), Vec::<String>::new());
    assert_eq!(split_lines("\n"), strs(&[""]));
    assert_eq!(split_words("  US  New   York\t32 "), strs(&["US", "New", "York", "32"]));
    let parts = strs(&["a", "b", "c"]);
    assert_eq!(join_range(&parts, 0, 3, " "), "a b c");
    assert_eq!(join_range(&parts, 1, 1, " "), "");
}

#[test]
fn parse_locations_reads_the_table() {
    let out = "ISO   COUNTRY              CITY                           ESTIMATE\n\
               --    ----                 ----                           --------\n\
               US    United States        New York                       32\n\
               DE    Germany              Frankfurt                      45\r\n\
               JP    Japan                Tokyo\n\
               xx    lower case           code                           10\n\
               FR    France\n";
    let locs = parse_locations(out);
    assert_eq!(
        locs,
        vec![
            Location { iso: "US".into(), label: "US  United States New York  (32 ms)".into() },
            Location { iso: "DE".into(), label: "DE  Germany Frankfurt  (45 ms)".into() },
            Location { iso: "JP".into(), label: "JP  Japan Tokyo".into() },
        ]
    );
}

#[test]
fn parse_exclusions_keeps_entries() {
    let out = "example.com\n  -- header --\n\n  foo.org  \n";
    assert_eq!(parse_exclusions(out), strs(&["example.com", "foo.org"]));
}

#[test]
fn options_and_tabs() {
    assert_eq!(
        pick_options(&["TUN", "SOCKS"]),
        vec![PickOption("TUN".into()), PickOption("SOCKS".into())]
    );
    assert_eq!(Tab::Settings.label(), "⚙ Настройки");
    assert_eq!(Tab::all().len(), 5);
    assert_eq!(Tab::all()[0], Tab::Connection);
    assert_eq!(ExclMode::Selective.word(), "selective");
}

#[test]
fn connect_arguments() {
    let loc = Some(Location { iso: "DE".into(), label: "DE  Germany".into() });
    assert_eq!(connect_args(true, &loc, IpVersion::IPv6), strs(&["connect", "-f", "-6"]));
    assert_eq!(connect_args(false, &loc, IpVersion::IPv4), strs(&["connect", "-l", "DE", "-4"]));
    assert_eq!(connect_args(false, &None, IpVersion::Default), strs(&["connect"]));
}

#[test]
fn config_args_and_home_expansion() {
    assert_eq!(config_args(strs(&["set-mode", "TUN"])), strs(&["config", "set-mode", "TUN"]));
    assert_eq!(expand_home("~/logs.zip", &Some("/home/u".into())), "/home/u/logs.zip");
    assert_eq!(expand_home("~/logs.zip", &None), "/root/logs.zip");
    assert_eq!(expand_home("/tmp/x~", &None), "/tmp/x~");
}

#[test]
fn combine_outputs_reports_each_run() {
    let results = vec![
        ("done".to_string(), String::new()),
        (String::new(), "bad value".to_string()),
        (String::new(), String::new()),
    ];
    assert_eq!(combine_outputs(&results), "done\n⚠ bad value\n");
}

#[test]
fn start_up_state_and_commands() {
    let (app, effect) = App::new(7);
    assert_eq!(app.status_text, "Получение статуса…");
    assert_eq!(app.socks_port, "1080");
    assert_eq!(app.last_status_refresh, 7);
    assert_eq!(App::title_static(&app), "AdGuard VPN — GUI Manager (Rust + iced)");
    match effect {
        Effect::RunAll(calls) => {
            let got: Vec<(Vec<String>, Reply)> =
                calls.into_iter().map(|c| (c.args, c.reply)).collect();
            assert_eq!(
                got,
                vec![
                    (strs(&["status"]), Reply::Status),
                    (strs(&["list-locations"]), Reply::Locations),
                    (strs(&["license"]), Reply::License),
                    (strs(&["site-exclusions", "show"]), Reply::Exclusions),
                ]
            );
        }
        other => panic!("unexpected {:?}", other),
    }
}

#[test]
fn tick_refreshes_every_fifteen_seconds() {
    let (mut app, _) = App::new(1_000);
    let e = app.update(Message::Tick(1_000 + STATUS_REFRESH_NANOS - 1), 0);
    assert!(matches!(e, Effect::Nothing));
    assert_eq!(app.last_status_refresh, 1_000);
    let e = app.update(Message::Tick(1_000 + STATUS_REFRESH_NANOS), 0);
    assert_eq!(run_args(&e), (strs(&["status"]), Reply::Status));
    assert_eq!(app.last_status_refresh, 1_000 + STATUS_REFRESH_NANOS);
    let e = app.update(Message::Tick(500), 0);
    assert!(matches!(e, Effect::Nothing));
}

#[test]
fn status_and_license_results() {
    let (mut app, _) = App::new(0);
    app.update(Message::StatusResult("Connected".into(), "".into()), 1);
    assert_eq!(app.status_text, "Connected");
    app.update(Message::StatusResult("".into(), "offline".into()), 1);
    assert_eq!(app.status_text, "⚠ offline");
    app.update(Message::StatusResult("".into(), "".into()), 1);
    assert_eq!(app.status_text, "⚠ offline");
    app.update(Message::LicenseResult("Premium".into(), "".into()), 1);
    assert_eq!(app.license_text, "Premium");
}

#[test]
fn connect_cycle() {
    let (mut app, _) = App::new(0);
    app.update(
        Message::LocationsResult("US  United States  New York  12\n".into(), "slow".into()),
        0,
    );
    assert_eq!(app.locations.len(), 1);
    assert_eq!(app.selected_location.as_ref().unwrap().iso, "US");
    assert_eq!(app.conn_output, "⚠ slow\n");
    app.update(Message::SetIpVersion(IpVersion::IPv4), 0);
    let e = app.update(Message::Connect, 0);
    assert!(app.conn_busy);
    assert_eq!(app.status_bar_text, "Подключение…");
    assert_eq!(run_args(&e), (strs(&["connect", "-l", "US", "-4"]), Reply::Connect));
    let e = app.update(Message::ConnectResult("Connected to US".into(), "".into()), 42);
    assert!(!app.conn_busy);
    assert_eq!(app.status_bar_text, "Готово");
    assert_eq!(app.last_status_refresh, 42);
    assert_eq!(app.conn_output, "⚠ slow\nConnected to US\n");
    assert_eq!(run_args(&e), (strs(&["status"]), Reply::Status));
    app.update(Message::ToggleFastest(true), 0);
    let e = app.update(Message::Connect, 0);
    assert_eq!(run_args(&e), (strs(&["connect", "-f", "-4"]), Reply::Connect));
    let e = app.update(Message::Disconnect, 0);
    assert_eq!(run_args(&e), (strs(&["disconnect"]), Reply::Disconnect));
}

fn spawn_of(e: &Effect) -> (Vec<String>, usize) {
    match e {
        Effect::SpawnTerminal { command, attempt } => (command.clone(), *attempt),
        other => panic!("expected a terminal attempt, got {:?}", other),
    }
}

#[test]
fn login_tries_terminals_in_order() {
    let (mut app, _) = App::new(0);
    let e = app.update(Message::Login, 0);
    assert_eq!(spawn_of(&e), (strs(&["konsole", "-e", "adguardvpn-cli login"]), 0));
    let e = app.update(Message::TerminalSpawned(0, false), 0);
    assert_eq!(spawn_of(&e), (strs(&["kitty", "--", "adguardvpn-cli", "login"]), 1));
    let e = app.update(Message::TerminalSpawned(1, true), 0);
    assert!(matches!(e, Effect::Nothing));
    assert_eq!(
        app.account_output,
        "Открываю терминал для авторизации…\nОткрыт: kitty\nВведите email и пароль AdGuard.\n"
    );
}

#[test]
fn login_reports_when_no_terminal_starts() {
    let (mut app, _) = App::new(0);
    let mut e = app.update(Message::Login, 0);
    let mut tried = Vec::new();
    while let Effect::SpawnTerminal { command, attempt } = e {
        tried.push(command[0].clone());
        e = app.update(Message::TerminalSpawned(attempt, false), 0);
    }
    assert_eq!(
        tried,
        strs(&["konsole", "kitty", "alacritty", "gnome-terminal", "xfce4-terminal", "xterm"])
    );
    assert_eq!(
        app.account_output,
        "Открываю терминал для авторизации…\n\
         ⚠ Терминал не найден. Выполните вручную:\n  adguardvpn-cli login\n"
    );
}

#[test]
fn socks_port_accepts_only_digits() {
    let (mut app, _) = App::new(0);
    app.update(Message::SocksPortInput("10a80".into()), 0);
    assert_eq!(app.socks_port, "1080");
    app.update(Message::SocksPortInput("".into()), 0);
    assert_eq!(app.socks_port, "");
    app.update(Message::SocksPortInput("9050".into()), 0);
    assert_eq!(app.socks_port, "9050");
}

#[test]
fn apply_settings_commands() {
    let (mut app, _) = App::new(0);
    app.update(Message::SelectProto(PickOption("quic".into())), 0);
    app.update(Message::DnsInput("1.1.1.1".into()), 0);
    app.update(Message::ToggleHints(true), 0);
    app.update(Message::SocksHostInput("127.0.0.1".into()), 0);
    let e = app.update(Message::ApplySettings, 0);
    assert_eq!(app.status_bar_text, "Применение настроек…");
    match e {
        Effect::ApplySettings(cmds) => {
            let expected: Vec<Vec<String>> = vec![
                strs(&["config", "set-mode", "TUN"]),
                strs(&["config", "set-protocol", "quic"]),
                strs(&["config", "set-update-channel", "release"]),
                strs(&["config", "set-tun-routing-mode", "AUTO"]),
                strs(&["config", "set-dns", "1.1.1.1"]),
                strs(&["config", "set-system-dns", "off"]),
                strs(&["config", "set-socks-port", "1080"]),
                strs(&["config", "set-socks-host", "127.0.0.1"]),
                strs(&["config", "send-reports", "off"]),
                strs(&["config", "set-show-hints", "on"]),
                strs(&["config", "set-debug-logging", "off"]),
                strs(&["config", "set-show-notifications", "off"]),
            ];
            assert_eq!(cmds, expected);
        }
        other => panic!("unexpected {:?}", other),
    }
    app.update(
        Message::SettingsResults(vec![
            ("ok".into(), "".into()),
            ("".into(), "bad".into()),
        ]),
        0,
    );
    assert_eq!(app.settings_output, "ok\n⚠ bad\n");
    assert_eq!(app.status_bar_text, "Настройки применены");
    let e = app.update(Message::ClearSocksAuth, 0);
    assert_eq!(run_args(&e), (strs(&["config", "clear-socks-auth"]), Reply::ClearSocks));
    app.update(Message::ConfigResult("".into(), "".into()), 0);
    assert_eq!(app.settings_output, "⚠ ");
}

#[test]
fn exclusion_management() {
    let (mut app, _) = App::new(0);
    let e = app.update(Message::AddExclusion, 0);
    assert!(matches!(e, Effect::Nothing));
    app.update(Message::ExclDomainInput("  example.com ".into()), 0);
    let e = app.update(Message::AddExclusion, 0);
    assert_eq!(
        run_args(&e),
        (strs(&["site-exclusions", "add", "example.com"]), Reply::ExclAction)
    );
    assert_eq!(app.excl_domain_input, "");
    app.update(Message::ExclusionsResult("a.org\nb.org\n".into(), "".into()), 0);
    assert_eq!(app.exclusions, strs(&["a.org", "b.org"]));
    let e = app.update(Message::RemoveExclusion, 0);
    assert!(matches!(e, Effect::Nothing));
    app.update(Message::SelectExclusion(1), 0);
    let e = app.update(Message::RemoveExclusion, 0);
    assert_eq!(run_args(&e), (strs(&["site-exclusions", "remove", "b.org"]), Reply::ExclAction));
    app.update(Message::SelectExclusion(9), 0);
    let e = app.update(Message::RemoveExclusion, 0);
    assert!(matches!(e, Effect::Nothing));
    app.update(Message::SetExclMode(ExclMode::Selective), 0);
    let e = app.update(Message::ApplyExclMode, 0);
    assert_eq!(
        run_args(&e),
        (strs(&["site-exclusions", "mode", "selective"]), Reply::ExclMode)
    );
    let e = app.update(Message::ExclActionResult("Removed".into(), "warn".into()), 0);
    assert_eq!(app.excl_output, "Removed\n⚠ warn\n");
    assert_eq!(run_args(&e), (strs(&["site-exclusions", "show"]), Reply::Exclusions));
    let e = app.update(Message::ClearExclusions, 0);
    assert_eq!(run_args(&e), (strs(&["site-exclusions", "clear"]), Reply::ExclAction));
}

#[test]
fn updates_and_log_export() {
    let (mut app, _) = App::new(0);
    let e = app.update(Message::CheckUpdate, 0);
    assert_eq!(run_args(&e), (strs(&["check-update"]), Reply::Update));
    app.update(Message::UpdateResult("Up to date".into(), "".into()), 0);
    assert_eq!(app.updates_output, "Up to date\n");
    assert_eq!(app.status_bar_text, "Готово");
    let e = app.update(Message::ExportLogs(None), 0);
    assert_eq!(
        run_args(&e),
        (strs(&["export-logs", "-o", "/root/adguardvpn_logs.zip"]), Reply::ExportLogs)
    );
    assert_eq!(app.updates_output, "");
    app.update(Message::LogPathInput("".into()), 0);
    let e = app.update(Message::ExportLogs(Some("/home/u".into())), 0);
    assert!(matches!(e, Effect::Nothing));
}

#[test]
fn switch_tab_and_toggles() {
    let (mut app, _) = App::new(0);
    let e = app.update(Message::SwitchTab(Tab::Exclusions), 0);
    assert!(matches!(e, Effect::Nothing));
    assert_eq!(app.active_tab, Tab::Exclusions);
    app.update(Message::ToggleSystemDns(true), 0);
    app.update(Message::ToggleReports(true), 0);
    app.update(Message::ToggleDebug(true), 0);
    app.update(Message::ToggleNotif(true), 0);
    assert!(app.system_dns && app.flag_reports && app.flag_debug && app.flag_notif);
    let e = app.update(Message::RefreshStatus, 99);
    assert_eq!(app.last_status_refresh, 99);
    assert_eq!(run_args(&e), (strs(&["status"]), Reply::Status));
}

#[test]
fn exclusions_result_twice_is_once() {
    let (mut app, _) = App::new(0);
    let m = Message::ExclusionsResult("a.org\n--\nb.org".into(), "".into());
    app.update(m.clone(), 0);
    let once = app.exclusions.clone();
    app.update(m, 0);
    assert_eq!(app.exclusions, once);
    assert_eq!(once, strs(&["a.org", "b.org"]));
}

#[test]
fn buttons_follow_busy_flag_and_selection() {
    let (mut app, _) = App::new(0);
    assert!(app.connection_actions_enabled());
    app.update(Message::Connect, 0);
    assert!(!app.connection_actions_enabled());
    app.update(Message::DisconnectResult("".into(), "".into()), 0);
    assert!(app.connection_actions_enabled());
    assert!(!app.is_selected_exclusion(0));
    app.update(Message::SelectExclusion(2), 0);
    assert!(app.is_selected_exclusion(2));
    assert!(!app.is_selected_exclusion(1));
}

#[test]
fn logout_and_license_requests() {
    let (mut app, _) = App::new(0);
    let e = app.update(Message::Logout, 0);
    assert_eq!(app.status_bar_text, "Выход…");
    assert_eq!(run_args(&e), (strs(&["logout"]), Reply::Logout));
    app.update(Message::LogoutResult("Logged out".into(), "".into()), 0);
    assert_eq!(app.account_output, "Logged out\n");
    let e = app.update(Message::RefreshLicense, 0);
    assert_eq!(run_args(&e), (strs(&["license"]), Reply::License));
    let e = app.update(Message::ShowConfig, 0);
    assert_eq!(run_args(&e), (strs(&["config", "show"]), Reply::Config));
    let e = app.update(Message::DoUpdate, 0);
    assert_eq!(run_args(&e), (strs(&["update"]), Reply::Update));
    let e = app.update(Message::LoadLocations, 0);
    assert_eq!(run_args(&e), (strs(&["list-locations"]), Reply::Locations));
}

#[test]
fn locations_of_joined_texts_concatenate() {
    let pairs = [
        ("US  United States  New York  12\n", "DE  Germany  Berlin"),
        ("ISO COUNTRY CITY ESTIMATE", "JP  Japan  Tokyo  30\nFR  France  Paris"),
        ("", "GB  United Kingdom  London  9"),
        ("NL  Netherlands  Amsterdam", ""),
    ];
    for (a, b) in pairs {
        let joined = parse_locations(&format!("{a}\n{b}"));
        let mut expected = parse_locations(a);
        expected.extend(parse_locations(b));
        assert_eq!(joined, expected);
    }
}
