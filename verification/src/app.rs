//! The application's state and its state machine: each user action or command result
//! (a `Message`) changes the state and yields an `Effect` for the surrounding program.

use vstd::prelude::*;
use crate::commands::{
    args1, args2, args3, append_report, combine_outputs, combined, config_args, connect_args, connect_command,
    exclusions_listed, expand_home, expanded_path, parse_exclusions, report, run,
    terminal_command, terminal_commands, TERMINAL_COUNT, warning, warning_text, CallView, CliCall,
    Effect, EffectView, Reply,
};
use crate::locations::{parse_locations, locations_listed, Location, LocationView};
use crate::options::{excl_mode_word, pick_options, ExclMode, IpVersion, PickOption, Tab};
use crate::text::{all_ascii_digits, has_prefix, only_ascii_digits, trim, trimmed};

verus! {

broadcast use vstd::string::group_string_axioms;

/// How long after the last status request the timer asks for the status again:
/// 15 seconds, in nanoseconds.
pub const STATUS_REFRESH_NANOS: u64 = 15_000_000_000;

/// The state of the application. Times are nanoseconds on a monotonic clock that the
/// surrounding program keeps.
pub struct App {
    pub active_tab: Tab,
    pub status_text: String,
    pub status_bar_text: String,
    pub conn_output: String,
    pub locations: Vec<Location>,
    pub selected_location: Option<Location>,
    pub fastest_location: bool,
    pub ip_version: IpVersion,
    pub conn_busy: bool,
    pub license_text: String,
    pub account_output: String,
    pub mode_options: Vec<PickOption>,
    pub selected_mode: Option<PickOption>,
    pub proto_options: Vec<PickOption>,
    pub selected_proto: Option<PickOption>,
    pub channel_options: Vec<PickOption>,
    pub selected_channel: Option<PickOption>,
    pub tun_route_options: Vec<PickOption>,
    pub selected_tun_route: Option<PickOption>,
    pub dns_input: String,
    pub system_dns: bool,
    pub socks_port: String,
    pub socks_host: String,
    pub socks_user: String,
    pub socks_pass: String,
    pub flag_reports: bool,
    pub flag_hints: bool,
    pub flag_debug: bool,
    pub flag_notif: bool,
    pub settings_output: String,
    pub excl_mode: ExclMode,
    pub exclusions: Vec<String>,
    pub excl_domain_input: String,
    pub excl_selected: Option<usize>,
    pub excl_output: String,
    pub updates_output: String,
    pub log_export_path: String,
    pub last_status_refresh: u64,
}

/// The model of an `App`: every text as its characters.
#[verifier::ext_equal]
pub struct AppView {
    pub active_tab: Tab,
    pub status_text: Seq<char>,
    pub status_bar_text: Seq<char>,
    pub conn_output: Seq<char>,
    pub locations: Seq<LocationView>,
    pub selected_location: Option<LocationView>,
    pub fastest_location: bool,
    pub ip_version: IpVersion,
    pub conn_busy: bool,
    pub license_text: Seq<char>,
    pub account_output: Seq<char>,
    pub mode_options: Seq<Seq<char>>,
    pub selected_mode: Option<Seq<char>>,
    pub proto_options: Seq<Seq<char>>,
    pub selected_proto: Option<Seq<char>>,
    pub channel_options: Seq<Seq<char>>,
    pub selected_channel: Option<Seq<char>>,
    pub tun_route_options: Seq<Seq<char>>,
    pub selected_tun_route: Option<Seq<char>>,
    pub dns_input: Seq<char>,
    pub system_dns: bool,
    pub socks_port: Seq<char>,
    pub socks_host: Seq<char>,
    pub socks_user: Seq<char>,
    pub socks_pass: Seq<char>,
    pub flag_reports: bool,
    pub flag_hints: bool,
    pub flag_debug: bool,
    pub flag_notif: bool,
    pub settings_output: Seq<char>,
    pub excl_mode: ExclMode,
    pub exclusions: Seq<Seq<char>>,
    pub excl_domain_input: Seq<char>,
    pub excl_selected: Option<usize>,
    pub excl_output: Seq<char>,
    pub updates_output: Seq<char>,
    pub log_export_path: Seq<char>,
    pub last_status_refresh: u64,
}

impl View for App {
    type V = AppView;

    open spec fn view(&self) -> AppView {
        AppView {
            active_tab: self.active_tab,
            status_text: self.status_text@,
            status_bar_text: self.status_bar_text@,
            conn_output: self.conn_output@,
            locations: self.locations.deep_view(),
            selected_location: self.selected_location.deep_view(),
            fastest_location: self.fastest_location,
            ip_version: self.ip_version,
            conn_busy: self.conn_busy,
            license_text: self.license_text@,
            account_output: self.account_output@,
            mode_options: self.mode_options.deep_view(),
            selected_mode: self.selected_mode.deep_view(),
            proto_options: self.proto_options.deep_view(),
            selected_proto: self.selected_proto.deep_view(),
            channel_options: self.channel_options.deep_view(),
            selected_channel: self.selected_channel.deep_view(),
            tun_route_options: self.tun_route_options.deep_view(),
            selected_tun_route: self.selected_tun_route.deep_view(),
            dns_input: self.dns_input@,
            system_dns: self.system_dns,
            socks_port: self.socks_port@,
            socks_host: self.socks_host@,
            socks_user: self.socks_user@,
            socks_pass: self.socks_pass@,
            flag_reports: self.flag_reports,
            flag_hints: self.flag_hints,
            flag_debug: self.flag_debug,
            flag_notif: self.flag_notif,
            settings_output: self.settings_output@,
            excl_mode: self.excl_mode,
            exclusions: self.exclusions.deep_view(),
            excl_domain_input: self.excl_domain_input@,
            excl_selected: self.excl_selected,
            excl_output: self.excl_output@,
            updates_output: self.updates_output@,
            log_export_path: self.log_export_path@,
            last_status_refresh: self.last_status_refresh,
        }
    }
}

/// What happens to the application: user actions, command results, timer ticks.
#[derive(Debug, Clone)]
pub enum Message {
    SwitchTab(Tab),
    RefreshStatus,
    StatusResult(String, String),
    LoadLocations,
    LocationsResult(String, String),
    SelectLocation(Location),
    ToggleFastest(bool),
    SetIpVersion(IpVersion),
    Connect,
    Disconnect,
    ConnectResult(String, String),
    DisconnectResult(String, String),
    Login,
    /// Login command line number `.0` was tried; `.1` tells whether it started.
    TerminalSpawned(usize, bool),
    Logout,
    LogoutResult(String, String),
    RefreshLicense,
    LicenseResult(String, String),
    SelectMode(PickOption),
    SelectProto(PickOption),
    SelectChannel(PickOption),
    SelectTunRoute(PickOption),
    DnsInput(String),
    ToggleSystemDns(bool),
    SocksPortInput(String),
    SocksHostInput(String),
    SocksUserInput(String),
    SocksPassInput(String),
    ToggleReports(bool),
    ToggleHints(bool),
    ToggleDebug(bool),
    ToggleNotif(bool),
    ApplySettings,
    /// The standard output and error output of each settings command, in order.
    SettingsResults(Vec<(String, String)>),
    ShowConfig,
    ConfigResult(String, String),
    ClearSocksAuth,
    ClearSocksResult(String, String),
    SetExclMode(ExclMode),
    ApplyExclMode,
    ExclModeResult(String, String),
    RefreshExclusions,
    ExclusionsResult(String, String),
    ExclDomainInput(String),
    SelectExclusion(usize),
    AddExclusion,
    RemoveExclusion,
    ClearExclusions,
    ExclActionResult(String, String),
    CheckUpdate,
    DoUpdate,
    UpdateResult(String, String),
    LogPathInput(String),
    /// Export the logs; carries the user's home directory, when it is known.
    ExportLogs(Option<String>),
    ExportLogsResult(String, String),
    /// The timer fired at the given time.
    Tick(u64),
}

/// The well-formedness of the state: the SOCKS port field holds only digits, every
/// listed location has a two-letter capital code that its label starts with, every
/// listed exclusion is trimmed, not empty and does not start with `--`, and the
/// pickers offer their fixed entries.
pub open spec fn state_wf(s: AppView) -> bool {
    &&& all_ascii_digits(s.socks_port)
    &&& locations_wf(s.locations)
    &&& exclusions_wf(s.exclusions)
    &&& s.mode_options == mode_entries()
    &&& s.proto_options == proto_entries()
    &&& s.channel_options == channel_entries()
    &&& s.tun_route_options == tun_route_entries()
}

/// Every location has a two-letter capital code, and its label starts with the code.
#[verifier::opaque]
pub open spec fn locations_wf(ls: Seq<LocationView>) -> bool {
    forall|i: int|
        0 <= i < ls.len() ==> {
            &&& #[trigger] ls[i].iso.len() == 2
            &&& crate::text::all_ascii_upper(ls[i].iso)
            &&& has_prefix(ls[i].label, ls[i].iso)
        }
}

/// Every exclusion is trimmed, not empty, and does not start with `--`.
#[verifier::opaque]
pub open spec fn exclusions_wf(es: Seq<Seq<char>>) -> bool {
    forall|i: int|
        0 <= i < es.len() ==> {
            &&& #[trigger] es[i].len() > 0
            &&& trimmed(es[i]) == es[i]
            &&& !has_prefix(es[i], "--"@)
        }
}

/// The entries of the mode picker.
pub open spec fn mode_entries() -> Seq<Seq<char>> {
    seq!["TUN"@, "SOCKS"@]
}

/// The entries of the protocol picker.
pub open spec fn proto_entries() -> Seq<Seq<char>> {
    seq!["auto"@, "http2"@, "quic"@]
}

/// The entries of the update channel picker.
pub open spec fn channel_entries() -> Seq<Seq<char>> {
    seq!["release"@, "beta"@, "nightly"@]
}

/// The entries of the TUN routing mode picker.
pub open spec fn tun_route_entries() -> Seq<Seq<char>> {
    seq!["AUTO"@, "SCRIPT"@, "NONE"@]
}

/// The state when the application starts at time `now`.
pub open spec fn initial_state(now: u64) -> AppView {
    AppView {
        active_tab: Tab::Connection,
        status_text: "Получение статуса…"@,
        status_bar_text: "Готов к работе"@,
        conn_output: seq![],
        locations: seq![],
        selected_location: None,
        fastest_location: false,
        ip_version: IpVersion::Default,
        conn_busy: false,
        license_text: "Нажмите «Обновить лицензию» для получения данных."@,
        account_output: seq![],
        mode_options: mode_entries(),
        selected_mode: Some("TUN"@),
        proto_options: proto_entries(),
        selected_proto: Some("auto"@),
        channel_options: channel_entries(),
        selected_channel: Some("release"@),
        tun_route_options: tun_route_entries(),
        selected_tun_route: Some("AUTO"@),
        dns_input: seq![],
        system_dns: false,
        socks_port: "1080"@,
        socks_host: seq![],
        socks_user: seq![],
        socks_pass: seq![],
        flag_reports: false,
        flag_hints: false,
        flag_debug: false,
        flag_notif: false,
        settings_output: seq![],
        excl_mode: ExclMode::General,
        exclusions: seq![],
        excl_domain_input: seq![],
        excl_selected: None,
        excl_output: seq![],
        updates_output: seq![],
        log_export_path: "~/adguardvpn_logs.zip"@,
        last_status_refresh: now,
    }
}

/// The commands run when the application starts: status, locations, license and the
/// site exclusions, each handed back as its own reply.
pub open spec fn initial_effect() -> EffectView {
    EffectView::RunAll(
        seq![
            CallView { args: seq!["status"@], reply: Reply::Status },
            CallView { args: seq!["list-locations"@], reply: Reply::Locations },
            CallView { args: seq!["license"@], reply: Reply::License },
            CallView { args: seq!["site-exclusions"@, "show"@], reply: Reply::Exclusions },
        ],
    )
}

/// Asking the tool for the status.
pub open spec fn status_request() -> EffectView {
    run(seq!["status"@], Reply::Status)
}

/// Asking the tool for the site exclusions.
pub open spec fn exclusions_request() -> EffectView {
    run(seq!["site-exclusions"@, "show"@], Reply::Exclusions)
}

/// The chosen picker entry, or the given default when there is none.
pub open spec fn chosen_or(o: Option<Seq<char>>, default: Seq<char>) -> Seq<char> {
    match o {
        Some(v) => v,
        None => default,
    }
}

/// `on` or `off`.
pub open spec fn on_off(b: bool) -> Seq<char> {
    if b {
        "on"@
    } else {
        "off"@
    }
}

/// One `config` command with one value.
pub open spec fn set_command(name: Seq<char>, value: Seq<char>) -> Seq<Seq<char>> {
    seq!["config"@, name, value]
}

/// A `config` command that is only sent when its value is not empty.
pub open spec fn set_if_given(name: Seq<char>, value: Seq<char>) -> Seq<Seq<Seq<char>>> {
    if value.len() > 0 {
        seq![set_command(name, value)]
    } else {
        seq![]
    }
}

/// The `config` commands that apply the settings of state `s`, in the order they run:
/// mode, protocol, update channel and TUN routing mode (with their defaults when
/// nothing is chosen), the DNS server if given, system DNS, the SOCKS port, host,
/// user name and password where given, then the four flags.
pub open spec fn settings_commands(s: AppView) -> Seq<Seq<Seq<char>>> {
    seq![
        set_command("set-mode"@, chosen_or(s.selected_mode, "TUN"@)),
        set_command("set-protocol"@, chosen_or(s.selected_proto, "auto"@)),
        set_command("set-update-channel"@, chosen_or(s.selected_channel, "release"@)),
        set_command("set-tun-routing-mode"@, chosen_or(s.selected_tun_route, "AUTO"@)),
    ] + set_if_given("set-dns"@, s.dns_input) + seq![
        set_command("set-system-dns"@, on_off(s.system_dns)),
    ] + set_if_given("set-socks-port"@, s.socks_port) + set_if_given(
        "set-socks-host"@,
        s.socks_host,
    ) + set_if_given("set-socks-username"@, s.socks_user) + set_if_given(
        "set-socks-password"@,
        s.socks_pass,
    ) + seq![
        set_command("send-reports"@, on_off(s.flag_reports)),
        set_command("set-show-hints"@, on_off(s.flag_hints)),
        set_command("set-debug-logging"@, on_off(s.flag_debug)),
        set_command("set-show-notifications"@, on_off(s.flag_notif)),
    ]
}

/// A result text shown in a field: the output if there is one, else the warning of
/// the error output if there is one, else the field as it was.
pub open spec fn shown_result(old: Seq<char>, out: Seq<char>, err: Seq<char>) -> Seq<char> {
    if out.len() > 0 {
        out
    } else if err.len() > 0 {
        warning(err)
    } else {
        old
    }
}

/// The domain that `RemoveExclusion` removes: the trimmed input if not empty, else the
/// selected list entry (empty if the selection is past the list), or none when
/// neither is there.
pub open spec fn domain_to_remove(s: AppView) -> Option<Seq<char>> {
    if trimmed(s.excl_domain_input).len() > 0 {
        Some(trimmed(s.excl_domain_input))
    } else {
        match s.excl_selected {
            Some(idx) => Some(
                if idx < s.exclusions.len() {
                    s.exclusions[idx as int]
                } else {
                    seq![]
                },
            ),
            None => None,
        }
    }
}

/// `m` concerns status, locations and connecting.
pub open spec fn is_connection_message(m: Message) -> bool {
    match m {
        Message::SwitchTab(..) | Message::Tick(..) | Message::RefreshStatus | Message::StatusResult(..) | Message::LoadLocations | Message::LocationsResult(..) | Message::SelectLocation(..) | Message::ToggleFastest(..) | Message::SetIpVersion(..) | Message::Connect | Message::ConnectResult(..) | Message::DisconnectResult(..) | Message::Disconnect => true,
        _ => false,
    }
}

/// `m` concerns logging in and out and the license.
pub open spec fn is_account_message(m: Message) -> bool {
    match m {
        Message::Login | Message::TerminalSpawned(..) | Message::Logout | Message::LogoutResult(..) | Message::RefreshLicense | Message::LicenseResult(..) => true,
        _ => false,
    }
}

/// `m` concerns the settings form.
pub open spec fn is_settings_message(m: Message) -> bool {
    match m {
        Message::SelectMode(..) | Message::SelectProto(..) | Message::SelectChannel(..) | Message::SelectTunRoute(..) | Message::DnsInput(..) | Message::ToggleSystemDns(..) | Message::SocksPortInput(..) | Message::SocksHostInput(..) | Message::SocksUserInput(..) | Message::SocksPassInput(..) | Message::ToggleReports(..) | Message::ToggleHints(..) | Message::ToggleDebug(..) | Message::ToggleNotif(..) | Message::ApplySettings | Message::SettingsResults(..) | Message::ShowConfig | Message::ConfigResult(..) | Message::ClearSocksAuth | Message::ClearSocksResult(..) => true,
        _ => false,
    }
}

/// `m` concerns site exclusions.
pub open spec fn is_exclusions_message(m: Message) -> bool {
    match m {
        Message::SetExclMode(..) | Message::ApplyExclMode | Message::ExclModeResult(..) | Message::ExclActionResult(..) | Message::RefreshExclusions | Message::ExclusionsResult(..) | Message::ExclDomainInput(..) | Message::SelectExclusion(..) | Message::AddExclusion | Message::RemoveExclusion | Message::ClearExclusions => true,
        _ => false,
    }
}

/// `m` concerns updates and log export.
pub open spec fn is_updates_message(m: Message) -> bool {
    match m {
        Message::CheckUpdate | Message::DoUpdate | Message::UpdateResult(..) | Message::ExportLogsResult(..) | Message::LogPathInput(..) | Message::ExportLogs(..) => true,
        _ => false,
    }
}

/// The line logged when the login starts.
pub open spec fn login_opening() -> Seq<char> {
    "Открываю терминал для авторизации…\n"@
}

/// The lines logged when the login terminal `program` started.
pub open spec fn terminal_opened(program: Seq<char>) -> Seq<char> {
    "Открыт: "@ + program + "\nВведите email и пароль AdGuard.\n"@
}

/// The lines logged when no login terminal could be started.
pub open spec fn terminal_not_found() -> Seq<char> {
    "⚠ Терминал не найден. Выполните вручную:\n  adguardvpn-cli login\n"@
}

/// Trying login command line number `i`.
pub open spec fn terminal_attempt(i: usize) -> EffectView {
    EffectView::SpawnTerminal(terminal_commands()[i as int], i)
}

/// One step of the application: the state after message `m` arrives in state `s` at
/// time `now`, and the effect it asks for.
pub open spec fn step(s: AppView, m: Message, now: u64) -> (AppView, EffectView) {
    if is_connection_message(m) {
        step_connection(s, m, now)
    } else if is_account_message(m) {
        step_account(s, m, now)
    } else if is_settings_message(m) {
        step_settings(s, m, now)
    } else if is_exclusions_message(m) {
        step_exclusions(s, m, now)
    } else {
        step_updates(s, m, now)
    }
}

/// `step` for messages about status, locations and connecting.
pub open spec fn step_connection(s: AppView, m: Message, now: u64) -> (AppView, EffectView) {
    match m {
        Message::SwitchTab(t) => (AppView { active_tab: t, ..s }, EffectView::Nothing),
        Message::Tick(t) => {
            if t >= s.last_status_refresh && t - s.last_status_refresh >= STATUS_REFRESH_NANOS {
                (AppView { last_status_refresh: t, ..s }, status_request())
            } else {
                (s, EffectView::Nothing)
            }
        },
        Message::RefreshStatus => (AppView { last_status_refresh: now, ..s }, status_request()),
        Message::StatusResult(out, err) => (
            AppView { status_text: shown_result(s.status_text, out@, err@), ..s },
            EffectView::Nothing,
        ),
        Message::LoadLocations => (s, run(seq!["list-locations"@], Reply::Locations)),
        Message::LocationsResult(out, err) => {
            let listed = locations_listed(out@);
            let s1 = if out@.len() > 0 {
                AppView {
                    locations: listed,
                    selected_location: if listed.len() > 0 {
                        Some(listed[0])
                    } else {
                        None
                    },
                    ..s
                }
            } else {
                s
            };
            let s2 = if err@.len() > 0 {
                AppView { conn_output: s1.conn_output + warning(err@) + "\n"@, ..s1 }
            } else {
                s1
            };
            (s2, EffectView::Nothing)
        },
        Message::SelectLocation(loc) => (
            AppView { selected_location: Some(loc@), ..s },
            EffectView::Nothing,
        ),
        Message::ToggleFastest(v) => (AppView { fastest_location: v, ..s }, EffectView::Nothing),
        Message::SetIpVersion(v) => (AppView { ip_version: v, ..s }, EffectView::Nothing),
        Message::Connect => (
            AppView { conn_busy: true, status_bar_text: "Подключение…"@, ..s },
            run(connect_command(s.fastest_location, s.selected_location, s.ip_version), Reply::Connect),
        ),
        Message::ConnectResult(out, err) | Message::DisconnectResult(out, err) => (
            AppView {
                conn_busy: false,
                status_bar_text: "Готово"@,
                conn_output: s.conn_output + report(out@, err@),
                last_status_refresh: now,
                ..s
            },
            status_request(),
        ),
        Message::Disconnect => (
            AppView { conn_busy: true, status_bar_text: "Отключение…"@, ..s },
            run(seq!["disconnect"@], Reply::Disconnect),
        ),
        _ => (s, EffectView::Nothing),
    }
}

/// `step` for messages about logging in and out and the license.
pub open spec fn step_account(s: AppView, m: Message, now: u64) -> (AppView, EffectView) {
    match m {
        Message::Login => (
            AppView { account_output: s.account_output + login_opening(), ..s },
            terminal_attempt(0),
        ),
        Message::TerminalSpawned(i, started) => {
            if started && i < terminal_commands().len() {
                (
                    AppView {
                        account_output: s.account_output + terminal_opened(
                            terminal_commands()[i as int][0],
                        ),
                        ..s
                    },
                    EffectView::Nothing,
                )
            } else if !started && i + 1 < terminal_commands().len() {
                (s, terminal_attempt((i + 1) as usize))
            } else if !started {
                (AppView { account_output: s.account_output + terminal_not_found(), ..s }, EffectView::Nothing)
            } else {
                (s, EffectView::Nothing)
            }
        },
        Message::Logout => (
            AppView { status_bar_text: "Выход…"@, ..s },
            run(seq!["logout"@], Reply::Logout),
        ),
        Message::LogoutResult(out, err) => (
            AppView {
                status_bar_text: "Готово"@,
                account_output: s.account_output + report(out@, err@),
                ..s
            },
            EffectView::Nothing,
        ),
        Message::RefreshLicense => (s, run(seq!["license"@], Reply::License)),
        Message::LicenseResult(out, err) => (
            AppView { license_text: shown_result(s.license_text, out@, err@), ..s },
            EffectView::Nothing,
        ),
        _ => (s, EffectView::Nothing),
    }
}

/// `step` for messages about the settings form.
pub open spec fn step_settings(s: AppView, m: Message, now: u64) -> (AppView, EffectView) {
    match m {
        Message::SelectMode(v) => (AppView { selected_mode: Some(v@), ..s }, EffectView::Nothing),
        Message::SelectProto(v) => (AppView { selected_proto: Some(v@), ..s }, EffectView::Nothing),
        Message::SelectChannel(v) => (
            AppView { selected_channel: Some(v@), ..s },
            EffectView::Nothing,
        ),
        Message::SelectTunRoute(v) => (
            AppView { selected_tun_route: Some(v@), ..s },
            EffectView::Nothing,
        ),
        Message::DnsInput(v) => (AppView { dns_input: v@, ..s }, EffectView::Nothing),
        Message::ToggleSystemDns(v) => (AppView { system_dns: v, ..s }, EffectView::Nothing),
        Message::SocksPortInput(v) => (
            if all_ascii_digits(v@) {
                AppView { socks_port: v@, ..s }
            } else {
                s
            },
            EffectView::Nothing,
        ),
        Message::SocksHostInput(v) => (AppView { socks_host: v@, ..s }, EffectView::Nothing),
        Message::SocksUserInput(v) => (AppView { socks_user: v@, ..s }, EffectView::Nothing),
        Message::SocksPassInput(v) => (AppView { socks_pass: v@, ..s }, EffectView::Nothing),
        Message::ToggleReports(v) => (AppView { flag_reports: v, ..s }, EffectView::Nothing),
        Message::ToggleHints(v) => (AppView { flag_hints: v, ..s }, EffectView::Nothing),
        Message::ToggleDebug(v) => (AppView { flag_debug: v, ..s }, EffectView::Nothing),
        Message::ToggleNotif(v) => (AppView { flag_notif: v, ..s }, EffectView::Nothing),
        Message::ApplySettings => (
            AppView { settings_output: seq![], status_bar_text: "Применение настроек…"@, ..s },
            EffectView::ApplySettings(settings_commands(s)),
        ),
        Message::SettingsResults(results) => (
            AppView {
                settings_output: combined(results.deep_view()),
                status_bar_text: "Настройки применены"@,
                ..s
            },
            EffectView::Nothing,
        ),
        Message::ShowConfig => (
            AppView { settings_output: seq![], ..s },
            run(seq!["config"@, "show"@], Reply::Config),
        ),
        Message::ConfigResult(out, err) => (
            AppView {
                settings_output: if out@.len() > 0 {
                    out@
                } else {
                    warning(err@)
                },
                ..s
            },
            EffectView::Nothing,
        ),
        Message::ClearSocksAuth => (s, run(seq!["config"@, "clear-socks-auth"@], Reply::ClearSocks)),
        Message::ClearSocksResult(out, err) => (
            AppView { settings_output: s.settings_output + report(out@, err@), ..s },
            EffectView::Nothing,
        ),
        _ => (s, EffectView::Nothing),
    }
}

/// `step` for messages about site exclusions.
pub open spec fn step_exclusions(s: AppView, m: Message, now: u64) -> (AppView, EffectView) {
    match m {
        Message::SetExclMode(m) => (AppView { excl_mode: m, ..s }, EffectView::Nothing),
        Message::ApplyExclMode => (
            s,
            run(seq!["site-exclusions"@, "mode"@, excl_mode_word(s.excl_mode)], Reply::ExclMode),
        ),
        Message::ExclModeResult(out, err) | Message::ExclActionResult(out, err) => (
            AppView { excl_output: report(out@, err@), ..s },
            exclusions_request(),
        ),
        Message::RefreshExclusions => (s, exclusions_request()),
        Message::ExclusionsResult(out, _err) => (
            AppView { exclusions: exclusions_listed(out@), ..s },
            EffectView::Nothing,
        ),
        Message::ExclDomainInput(v) => (AppView { excl_domain_input: v@, ..s }, EffectView::Nothing),
        Message::SelectExclusion(idx) => (
            AppView { excl_selected: Some(idx), ..s },
            EffectView::Nothing,
        ),
        Message::AddExclusion => {
            let domain = trimmed(s.excl_domain_input);
            if domain.len() == 0 {
                (s, EffectView::Nothing)
            } else {
                (
                    AppView { excl_domain_input: seq![], ..s },
                    run(seq!["site-exclusions"@, "add"@, domain], Reply::ExclAction),
                )
            }
        },
        Message::RemoveExclusion => match domain_to_remove(s) {
            Some(domain) => if domain.len() == 0 {
                (s, EffectView::Nothing)
            } else {
                (
                    AppView { excl_domain_input: seq![], ..s },
                    run(seq!["site-exclusions"@, "remove"@, domain], Reply::ExclAction),
                )
            },
            None => (s, EffectView::Nothing),
        },
        Message::ClearExclusions => (
            s,
            run(seq!["site-exclusions"@, "clear"@], Reply::ExclAction),
        ),
        _ => (s, EffectView::Nothing),
    }
}

/// `step` for messages about updates and log export.
pub open spec fn step_updates(s: AppView, m: Message, now: u64) -> (AppView, EffectView) {
    match m {
        Message::CheckUpdate => (
            AppView { updates_output: seq![], status_bar_text: "Проверка обновлений…"@, ..s },
            run(seq!["check-update"@], Reply::Update),
        ),
        Message::DoUpdate => (
            AppView { updates_output: seq![], status_bar_text: "Обновление…"@, ..s },
            run(seq!["update"@], Reply::Update),
        ),
        Message::UpdateResult(out, err) | Message::ExportLogsResult(out, err) => (
            AppView {
                status_bar_text: "Готово"@,
                updates_output: s.updates_output + report(out@, err@),
                ..s
            },
            EffectView::Nothing,
        ),
        Message::LogPathInput(v) => (AppView { log_export_path: v@, ..s }, EffectView::Nothing),
        Message::ExportLogs(home) => if s.log_export_path.len() == 0 {
            (s, EffectView::Nothing)
        } else {
            (
                AppView { updates_output: seq![], status_bar_text: "Экспорт логов…"@, ..s },
                run(
                    seq![
                        "export-logs"@,
                        "-o"@,
                        expanded_path(s.log_export_path, home.deep_view()),
                    ],
                    Reply::ExportLogs,
                ),
            )
        },

        _ => (s, EffectView::Nothing),
    }
}

/// Builds `Effect::Run` for `args`.
fn run_call(args: Vec<String>, reply: Reply) -> (e: Effect)
    ensures
        e@ == run(args.deep_view(), reply),
{
    Effect::Run(CliCall { args, reply })
}

/// Asks the tool for the status.
fn status_call() -> (e: Effect)
    ensures
        e@ == status_request(),
{
    run_call(args1("status"), Reply::Status)
}

/// Asks the tool for the site exclusions.
fn exclusions_call() -> (e: Effect)
    ensures
        e@ == exclusions_request(),
{
    run_call(args2("site-exclusions", "show"), Reply::Exclusions)
}

/// The chosen picker entry, or `default`.
fn chosen_value(o: &Option<PickOption>, default: &str) -> (r: String)
    ensures
        r@ == chosen_or(o.deep_view(), default@),
{
    match o {
        Some(p) => p.0.clone(),
        None => String::from_str(default),
    }
}

/// `on` or `off`.
fn on_off_word(b: bool) -> (r: &'static str)
    ensures
        r@ == on_off(b),
{
    if b {
        "on"
    } else {
        "off"
    }
}

/// Adds `config NAME VALUE` to `cmds`.
fn push_set(cmds: &mut Vec<Vec<String>>, name: &str, value: &str)
    ensures
        final(cmds).deep_view() == old(cmds).deep_view().push(set_command(name@, value@)),
{
    let ghost before = cmds.deep_view();
    cmds.push(args3("config", name, value));
    assert(cmds.deep_view() =~= before.push(set_command(name@, value@)));
}

/// Adds `config NAME VALUE` to `cmds` when `value` is not empty.
fn push_set_if_given(cmds: &mut Vec<Vec<String>>, name: &str, value: &str)
    ensures
        final(cmds).deep_view() == old(cmds).deep_view() + set_if_given(name@, value@),
{
    if !value.is_empty() {
        push_set(cmds, name, value);
        assert(cmds.deep_view() =~= old(cmds).deep_view() + set_if_given(name@, value@));
    } else {
        assert(cmds.deep_view() =~= old(cmds).deep_view() + set_if_given(name@, value@));
    }
}

impl App {
    /// The well-formedness of the state (see `state_wf`).
    pub open spec fn wf(&self) -> bool {
        state_wf(self@)
    }

    /// The state at start-up at time `now`, and the commands that fill it in.
    pub fn new(now: u64) -> (r: (App, Effect))
        ensures
            r.0@ == initial_state(now),
            r.1@ == initial_effect(),
            r.0.wf(),
    {
        let app = App {
            active_tab: Tab::Connection,
            status_text: String::from_str("Получение статуса…"),
            status_bar_text: String::from_str("Готов к работе"),
            conn_output: String::new(),
            locations: Vec::new(),
            selected_location: None,
            fastest_location: false,
            ip_version: IpVersion::Default,
            conn_busy: false,
            license_text: String::from_str("Нажмите «Обновить лицензию» для получения данных."),
            account_output: String::new(),
            mode_options: pick_options(&["TUN", "SOCKS"]),
            selected_mode: Some(PickOption(String::from_str("TUN"))),
            proto_options: pick_options(&["auto", "http2", "quic"]),
            selected_proto: Some(PickOption(String::from_str("auto"))),
            channel_options: pick_options(&["release", "beta", "nightly"]),
            selected_channel: Some(PickOption(String::from_str("release"))),
            tun_route_options: pick_options(&["AUTO", "SCRIPT", "NONE"]),
            selected_tun_route: Some(PickOption(String::from_str("AUTO"))),
            dns_input: String::new(),
            system_dns: false,
            socks_port: String::from_str("1080"),
            socks_host: String::new(),
            socks_user: String::new(),
            socks_pass: String::new(),
            flag_reports: false,
            flag_hints: false,
            flag_debug: false,
            flag_notif: false,
            settings_output: String::new(),
            excl_mode: ExclMode::General,
            exclusions: Vec::new(),
            excl_domain_input: String::new(),
            excl_selected: None,
            excl_output: String::new(),
            updates_output: String::new(),
            log_export_path: String::from_str("~/adguardvpn_logs.zip"),
            last_status_refresh: now,
        };
        let mut calls: Vec<CliCall> = Vec::new();
        calls.push(CliCall { args: args1("status"), reply: Reply::Status });
        calls.push(CliCall { args: args1("list-locations"), reply: Reply::Locations });
        calls.push(CliCall { args: args1("license"), reply: Reply::License });
        calls.push(CliCall { args: args2("site-exclusions", "show"), reply: Reply::Exclusions });
        proof {
            reveal_strlit("1080");
            reveal(locations_wf);
            reveal(exclusions_wf);
        }
        assert(app@ =~= initial_state(now));
        assert(calls.deep_view() =~= seq![
            CallView { args: seq!["status"@], reply: Reply::Status },
            CallView { args: seq!["list-locations"@], reply: Reply::Locations },
            CallView { args: seq!["license"@], reply: Reply::License },
            CallView { args: seq!["site-exclusions"@, "show"@], reply: Reply::Exclusions },
        ]);
        (app, Effect::RunAll(calls))
    }

    /// The window title.
    pub fn title_static(_state: &Self) -> (r: String)
        ensures
            r@ == "AdGuard VPN — GUI Manager (Rust + iced)"@,
    {
        String::from_str("AdGuard VPN — GUI Manager (Rust + iced)")
    }

    /// Whether the connect and disconnect buttons take clicks: not while a connect or
    /// disconnect command runs.
    pub fn connection_actions_enabled(&self) -> (r: bool)
        ensures
            r == !self.conn_busy,
    {
        !self.conn_busy
    }

    /// Whether entry `i` of the exclusion list is the selected one.
    pub fn is_selected_exclusion(&self, i: usize) -> (r: bool)
        ensures
            r == (self.excl_selected == Some(i)),
    {
        match self.excl_selected {
            Some(j) => j == i,
            None => false,
        }
    }

    /// The `config` commands that apply the current settings (see `settings_commands`).
    pub fn settings_command_lines(&self) -> (r: Vec<Vec<String>>)
        ensures
            r.deep_view() == settings_commands(self@),
    {
        let ghost st = self@;
        let mut cmds: Vec<Vec<String>> = Vec::new();
        let mode = chosen_value(&self.selected_mode, "TUN");
        push_set(&mut cmds, "set-mode", mode.as_str());
        let proto = chosen_value(&self.selected_proto, "auto");
        push_set(&mut cmds, "set-protocol", proto.as_str());
        let channel = chosen_value(&self.selected_channel, "release");
        push_set(&mut cmds, "set-update-channel", channel.as_str());
        let route = chosen_value(&self.selected_tun_route, "AUTO");
        push_set(&mut cmds, "set-tun-routing-mode", route.as_str());
        let ghost p1 = seq![
            set_command("set-mode"@, chosen_or(st.selected_mode, "TUN"@)),
            set_command("set-protocol"@, chosen_or(st.selected_proto, "auto"@)),
            set_command("set-update-channel"@, chosen_or(st.selected_channel, "release"@)),
            set_command("set-tun-routing-mode"@, chosen_or(st.selected_tun_route, "AUTO"@)),
        ];
        assert(cmds.deep_view() =~= p1);
        push_set_if_given(&mut cmds, "set-dns", self.dns_input.as_str());
        push_set(&mut cmds, "set-system-dns", on_off_word(self.system_dns));
        let ghost p2 = p1 + set_if_given("set-dns"@, st.dns_input) + seq![
            set_command("set-system-dns"@, on_off(st.system_dns)),
        ];
        assert(cmds.deep_view() =~= p2);
        push_set_if_given(&mut cmds, "set-socks-port", self.socks_port.as_str());
        push_set_if_given(&mut cmds, "set-socks-host", self.socks_host.as_str());
        push_set_if_given(&mut cmds, "set-socks-username", self.socks_user.as_str());
        push_set_if_given(&mut cmds, "set-socks-password", self.socks_pass.as_str());
        let ghost p3 = p2 + set_if_given("set-socks-port"@, st.socks_port) + set_if_given(
            "set-socks-host"@,
            st.socks_host,
        ) + set_if_given("set-socks-username"@, st.socks_user) + set_if_given(
            "set-socks-password"@,
            st.socks_pass,
        );
        assert(cmds.deep_view() == p3);
        push_set(&mut cmds, "send-reports", on_off_word(self.flag_reports));
        push_set(&mut cmds, "set-show-hints", on_off_word(self.flag_hints));
        push_set(&mut cmds, "set-debug-logging", on_off_word(self.flag_debug));
        push_set(&mut cmds, "set-show-notifications", on_off_word(self.flag_notif));
        let ghost p4 = seq![
            set_command("send-reports"@, on_off(st.flag_reports)),
            set_command("set-show-hints"@, on_off(st.flag_hints)),
            set_command("set-debug-logging"@, on_off(st.flag_debug)),
            set_command("set-show-notifications"@, on_off(st.flag_notif)),
        ];
        assert(cmds.deep_view() =~= p3 + p4);
        assert(cmds.deep_view() =~= settings_commands(self@));
        cmds
    }

    /// Handles `message` arriving at time `now`: changes the state as `step` says and
    /// returns the effect it asks for. The state stays well-formed.
    pub fn update(&mut self, message: Message, now: u64) -> (e: Effect)
        requires
            old(self).wf(),
        ensures
            final(self).wf(),
            final(self)@ == step(old(self)@, message, now).0,
            e@ == step(old(self)@, message, now).1,
    {
        match message {
            Message::SwitchTab(..) => self.on_switch_tab(message, now),
            Message::Tick(..) => self.on_tick(message, now),
            Message::RefreshStatus => self.on_refresh_status(message, now),
            Message::StatusResult(..) => self.on_status_result(message, now),
            Message::LoadLocations => self.on_load_locations(message, now),
            Message::LocationsResult(..) => self.on_locations_result(message, now),
            Message::SelectLocation(..) => self.on_select_location(message, now),
            Message::ToggleFastest(..) => self.on_toggle_fastest(message, now),
            Message::SetIpVersion(..) => self.on_set_ip_version(message, now),
            Message::Connect => self.on_connect(message, now),
            Message::ConnectResult(..) | Message::DisconnectResult(..) => self.on_connect_result(message, now),
            Message::Disconnect => self.on_disconnect(message, now),
            Message::Login => self.on_login(message, now),
            Message::TerminalSpawned(..) => self.on_terminal_spawned(message, now),
            Message::Logout => self.on_logout(message, now),
            Message::LogoutResult(..) => self.on_logout_result(message, now),
            Message::RefreshLicense => self.on_refresh_license(message, now),
            Message::LicenseResult(..) => self.on_license_result(message, now),
            Message::SelectMode(..) => self.on_select_mode(message, now),
            Message::SelectProto(..) => self.on_select_proto(message, now),
            Message::SelectChannel(..) => self.on_select_channel(message, now),
            Message::SelectTunRoute(..) => self.on_select_tun_route(message, now),
            Message::DnsInput(..) => self.on_dns_input(message, now),
            Message::ToggleSystemDns(..) => self.on_toggle_system_dns(message, now),
            Message::SocksPortInput(..) => self.on_socks_port_input(message, now),
            Message::SocksHostInput(..) => self.on_socks_host_input(message, now),
            Message::SocksUserInput(..) => self.on_socks_user_input(message, now),
            Message::SocksPassInput(..) => self.on_socks_pass_input(message, now),
            Message::ToggleReports(..) => self.on_toggle_reports(message, now),
            Message::ToggleHints(..) => self.on_toggle_hints(message, now),
            Message::ToggleDebug(..) => self.on_toggle_debug(message, now),
            Message::ToggleNotif(..) => self.on_toggle_notif(message, now),
            Message::ApplySettings => self.on_apply_settings(message, now),
            Message::SettingsResults(..) => self.on_settings_results(message, now),
            Message::ShowConfig => self.on_show_config(message, now),
            Message::ConfigResult(..) => self.on_config_result(message, now),
            Message::ClearSocksAuth => self.on_clear_socks_auth(message, now),
            Message::ClearSocksResult(..) => self.on_clear_socks_result(message, now),
            Message::SetExclMode(..) => self.on_set_excl_mode(message, now),
            Message::ApplyExclMode => self.on_apply_excl_mode(message, now),
            Message::ExclModeResult(..) | Message::ExclActionResult(..) => self.on_excl_mode_result(message, now),
            Message::RefreshExclusions => self.on_refresh_exclusions(message, now),
            Message::ExclusionsResult(..) => self.on_exclusions_result(message, now),
            Message::ExclDomainInput(..) => self.on_excl_domain_input(message, now),
            Message::SelectExclusion(..) => self.on_select_exclusion(message, now),
            Message::AddExclusion => self.on_add_exclusion(message, now),
            Message::RemoveExclusion => self.on_remove_exclusion(message, now),
            Message::ClearExclusions => self.on_clear_exclusions(message, now),
            Message::CheckUpdate => self.on_check_update(message, now),
            Message::DoUpdate => self.on_do_update(message, now),
            Message::UpdateResult(..) | Message::ExportLogsResult(..) => self.on_update_result(message, now),
            Message::LogPathInput(..) => self.on_log_path_input(message, now),
            Message::ExportLogs(..) => self.on_export_logs(message, now),
        }
    }

    /// `update` for `SwitchTab`.
    fn on_switch_tab(&mut self, message: Message, now: u64) -> (e: Effect)
        requires
            old(self).wf(),
            message is SwitchTab,
        ensures
            final(self).wf(),
            final(self)@ == step(old(self)@, message, now).0,
            e@ == step(old(self)@, message, now).1,
    {
        match message {
            Message::SwitchTab(t) => {
                self.active_tab = t;
                Effect::Nothing
            },
            _ => Effect::Nothing,
        }
    }

    /// `update` for `Tick`.
    fn on_tick(&mut self, message: Message, now: u64) -> (e: Effect)
        requires
            old(self).wf(),
            message is Tick,
        ensures
            final(self).wf(),
            final(self)@ == step(old(self)@, message, now).0,
            e@ == step(old(self)@, message, now).1,
    {
        match message {
            Message::Tick(t) => {
                if t >= self.last_status_refresh && t - self.last_status_refresh
                    >= STATUS_REFRESH_NANOS {
                    self.last_status_refresh = t;
                    status_call()
                } else {
                    Effect::Nothing
                }
            },
            _ => Effect::Nothing,
        }
    }

    /// `update` for `RefreshStatus`.
    fn on_refresh_status(&mut self, message: Message, now: u64) -> (e: Effect)
        requires
            old(self).wf(),
            message is RefreshStatus,
        ensures
            final(self).wf(),
            final(self)@ == step(old(self)@, message, now).0,
            e@ == step(old(self)@, message, now).1,
    {
        match message {
            Message::RefreshStatus => {
                self.last_status_refresh = now;
                status_call()
            },
            _ => Effect::Nothing,
        }
    }

    /// `update` for `StatusResult`.
    fn on_status_result(&mut self, message: Message, now: u64) -> (e: Effect)
        requires
            old(self).wf(),
            message is StatusResult,
        ensures
            final(self).wf(),
            final(self)@ == step(old(self)@, message, now).0,
            e@ == step(old(self)@, message, now).1,
    {
        match message {
            Message::StatusResult(out, err) => {
                if !out.as_str().is_empty() {
                    self.status_text = out;
                } else if !err.as_str().is_empty() {
                    self.status_text = warning_text(err.as_str());
                }
                Effect::Nothing
            },
            _ => Effect::Nothing,
        }
    }

    /// `update` for `LoadLocations`.
    fn on_load_locations(&mut self, message: Message, now: u64) -> (e: Effect)
        requires
            old(self).wf(),
            message is LoadLocations,
        ensures
            final(self).wf(),
            final(self)@ == step(old(self)@, message, now).0,
            e@ == step(old(self)@, message, now).1,
    {
        match message {
            Message::LoadLocations => run_call(args1("list-locations"), Reply::Locations),
            _ => Effect::Nothing,
        }
    }

    /// `update` for `LocationsResult`.
    fn on_locations_result(&mut self, message: Message, now: u64) -> (e: Effect)
        requires
            old(self).wf(),
            message is LocationsResult,
        ensures
            final(self).wf(),
            final(self)@ == step(old(self)@, message, now).0,
            e@ == step(old(self)@, message, now).1,
    {
        reveal(locations_wf);
        match message {
            Message::LocationsResult(out, err) => {
                if !out.as_str().is_empty() {
                    self.locations = parse_locations(out.as_str());
                    self.selected_location = if self.locations.len() > 0 {
                        Some(self.locations[0].clone())
                    } else {
                        None
                    };
                }
                if !err.as_str().is_empty() {
                    let w = warning_text(err.as_str());
                    self.conn_output.append(w.as_str());
                    self.conn_output.append("\n");
                }
                Effect::Nothing
            },
            _ => Effect::Nothing,
        }
    }

    /// `update` for `SelectLocation`.
    fn on_select_location(&mut self, message: Message, now: u64) -> (e: Effect)
        requires
            old(self).wf(),
            message is SelectLocation,
        ensures
            final(self).wf(),
            final(self)@ == step(old(self)@, message, now).0,
            e@ == step(old(self)@, message, now).1,
    {
        match message {
            Message::SelectLocation(loc) => {
                self.selected_location = Some(loc);
                Effect::Nothing
            },
            _ => Effect::Nothing,
        }
    }

    /// `update` for `ToggleFastest`.
    fn on_toggle_fastest(&mut self, message: Message, now: u64) -> (e: Effect)
        requires
            old(self).wf(),
            message is ToggleFastest,
        ensures
            final(self).wf(),
            final(self)@ == step(old(self)@, message, now).0,
            e@ == step(old(self)@, message, now).1,
    {
        match message {
            Message::ToggleFastest(v) => {
                self.fastest_location = v;
                Effect::Nothing
            },
            _ => Effect::Nothing,
        }
    }

    /// `update` for `SetIpVersion`.
    fn on_set_ip_version(&mut self, message: Message, now: u64) -> (e: Effect)
        requires
            old(self).wf(),
            message is SetIpVersion,
        ensures
            final(self).wf(),
            final(self)@ == step(old(self)@, message, now).0,
            e@ == step(old(self)@, message, now).1,
    {
        match message {
            Message::SetIpVersion(v) => {
                self.ip_version = v;
                Effect::Nothing
            },
            _ => Effect::Nothing,
        }
    }

    /// `update` for `Connect`.
    fn on_connect(&mut self, message: Message, now: u64) -> (e: Effect)
        requires
            old(self).wf(),
            message is Connect,
        ensures
            final(self).wf(),
            final(self)@ == step(old(self)@, message, now).0,
            e@ == step(old(self)@, message, now).1,
    {
        match message {
            Message::Connect => {
                self.conn_busy = true;
                self.status_bar_text = String::from_str("Подключение…");
                let args = connect_args(
                    self.fastest_location,
                    &self.selected_location,
                    self.ip_version,
                );
                run_call(args, Reply::Connect)
            },
            _ => Effect::Nothing,
        }
    }

    /// `update` for `ConnectResult / DisconnectResult`.
    fn on_connect_result(&mut self, message: Message, now: u64) -> (e: Effect)
        requires
            old(self).wf(),
            message is ConnectResult || message is DisconnectResult,
        ensures
            final(self).wf(),
            final(self)@ == step(old(self)@, message, now).0,
            e@ == step(old(self)@, message, now).1,
    {
        match message {
            Message::ConnectResult(out, err) | Message::DisconnectResult(out, err) => {
                self.conn_busy = false;
                self.status_bar_text = String::from_str("Готово");
                append_report(&mut self.conn_output, out.as_str(), err.as_str());
                self.last_status_refresh = now;
                status_call()
            },
            _ => Effect::Nothing,
        }
    }

    /// `update` for `Disconnect`.
    fn on_disconnect(&mut self, message: Message, now: u64) -> (e: Effect)
        requires
            old(self).wf(),
            message is Disconnect,
        ensures
            final(self).wf(),
            final(self)@ == step(old(self)@, message, now).0,
            e@ == step(old(self)@, message, now).1,
    {
        match message {
            Message::Disconnect => {
                self.conn_busy = true;
                self.status_bar_text = String::from_str("Отключение…");
                run_call(args1("disconnect"), Reply::Disconnect)
            },

            _ => Effect::Nothing,
        }
    }

    /// `update` for `Login`.
    fn on_login(&mut self, message: Message, now: u64) -> (e: Effect)
        requires
            old(self).wf(),
            message is Login,
        ensures
            final(self).wf(),
            final(self)@ == step(old(self)@, message, now).0,
            e@ == step(old(self)@, message, now).1,
    {
        match message {
            Message::Login => {
                self.account_output.append("Открываю терминал для авторизации…\n");
                Effect::SpawnTerminal { command: terminal_command(0), attempt: 0 }
            },
            _ => Effect::Nothing,
        }
    }

    /// `update` for `TerminalSpawned`.
    fn on_terminal_spawned(&mut self, message: Message, now: u64) -> (e: Effect)
        requires
            old(self).wf(),
            message is TerminalSpawned,
        ensures
            final(self).wf(),
            final(self)@ == step(old(self)@, message, now).0,
            e@ == step(old(self)@, message, now).1,
    {
        match message {
            Message::TerminalSpawned(i, started) => {
                if started && i < TERMINAL_COUNT {
                    let command = terminal_command(i);
                    assert(command.deep_view()[0] == command[0]@);
                    self.account_output.append("Открыт: ");
                    self.account_output.append(command[0].as_str());
                    self.account_output.append("\nВведите email и пароль AdGuard.\n");
                    Effect::Nothing
                } else if !started && i < TERMINAL_COUNT - 1 {
                    Effect::SpawnTerminal { command: terminal_command(i + 1), attempt: i + 1 }
                } else if !started {
                    self.account_output.append(
                        "⚠ Терминал не найден. Выполните вручную:\n  adguardvpn-cli login\n",
                    );
                    Effect::Nothing
                } else {
                    Effect::Nothing
                }
            },
            _ => Effect::Nothing,
        }
    }

    /// `update` for `Logout`.
    fn on_logout(&mut self, message: Message, now: u64) -> (e: Effect)
        requires
            old(self).wf(),
            message is Logout,
        ensures
            final(self).wf(),
            final(self)@ == step(old(self)@, message, now).0,
            e@ == step(old(self)@, message, now).1,
    {
        match message {
            Message::Logout => {
                self.status_bar_text = String::from_str("Выход…");
                run_call(args1("logout"), Reply::Logout)
            },
            _ => Effect::Nothing,
        }
    }

    /// `update` for `LogoutResult`.
    fn on_logout_result(&mut self, message: Message, now: u64) -> (e: Effect)
        requires
            old(self).wf(),
            message is LogoutResult,
        ensures
            final(self).wf(),
            final(self)@ == step(old(self)@, message, now).0,
            e@ == step(old(self)@, message, now).1,
    {
        match message {
            Message::LogoutResult(out, err) => {
                self.status_bar_text = String::from_str("Готово");
                append_report(&mut self.account_output, out.as_str(), err.as_str());
                Effect::Nothing
            },
            _ => Effect::Nothing,
        }
    }

    /// `update` for `RefreshLicense`.
    fn on_refresh_license(&mut self, message: Message, now: u64) -> (e: Effect)
        requires
            old(self).wf(),
            message is RefreshLicense,
        ensures
            final(self).wf(),
            final(self)@ == step(old(self)@, message, now).0,
            e@ == step(old(self)@, message, now).1,
    {
        match message {
            Message::RefreshLicense => run_call(args1("license"), Reply::License),
            _ => Effect::Nothing,
        }
    }

    /// `update` for `LicenseResult`.
    fn on_license_result(&mut self, message: Message, now: u64) -> (e: Effect)
        requires
            old(self).wf(),
            message is LicenseResult,
        ensures
            final(self).wf(),
            final(self)@ == step(old(self)@, message, now).0,
            e@ == step(old(self)@, message, now).1,
    {
        match message {
            Message::LicenseResult(out, err) => {
                if !out.as_str().is_empty() {
                    self.license_text = out;
                } else if !err.as_str().is_empty() {
                    self.license_text = warning_text(err.as_str());
                }
                Effect::Nothing
            },

            _ => Effect::Nothing,
        }
    }

    /// `update` for `SelectMode`.
    fn on_select_mode(&mut self, message: Message, now: u64) -> (e: Effect)
        requires
            old(self).wf(),
            message is SelectMode,
        ensures
            final(self).wf(),
            final(self)@ == step(old(self)@, message, now).0,
            e@ == step(old(self)@, message, now).1,
    {
        match message {
            Message::SelectMode(v) => {
                self.selected_mode = Some(v);
                Effect::Nothing
            },
            _ => Effect::Nothing,
        }
    }

    /// `update` for `SelectProto`.
    fn on_select_proto(&mut self, message: Message, now: u64) -> (e: Effect)
        requires
            old(self).wf(),
            message is SelectProto,
        ensures
            final(self).wf(),
            final(self)@ == step(old(self)@, message, now).0,
            e@ == step(old(self)@, message, now).1,
    {
        match message {
            Message::SelectProto(v) => {
                self.selected_proto = Some(v);
                Effect::Nothing
            },
            _ => Effect::Nothing,
        }
    }

    /// `update` for `SelectChannel`.
    fn on_select_channel(&mut self, message: Message, now: u64) -> (e: Effect)
        requires
            old(self).wf(),
            message is SelectChannel,
        ensures
            final(self).wf(),
            final(self)@ == step(old(self)@, message, now).0,
            e@ == step(old(self)@, message, now).1,
    {
        match message {
            Message::SelectChannel(v) => {
                self.selected_channel = Some(v);
                Effect::Nothing
            },
            _ => Effect::Nothing,
        }
    }

    /// `update` for `SelectTunRoute`.
    fn on_select_tun_route(&mut self, message: Message, now: u64) -> (e: Effect)
        requires
            old(self).wf(),
            message is SelectTunRoute,
        ensures
            final(self).wf(),
            final(self)@ == step(old(self)@, message, now).0,
            e@ == step(old(self)@, message, now).1,
    {
        match message {
            Message::SelectTunRoute(v) => {
                self.selected_tun_route = Some(v);
                Effect::Nothing
            },
            _ => Effect::Nothing,
        }
    }

    /// `update` for `DnsInput`.
    fn on_dns_input(&mut self, message: Message, now: u64) -> (e: Effect)
        requires
            old(self).wf(),
            message is DnsInput,
        ensures
            final(self).wf(),
            final(self)@ == step(old(self)@, message, now).0,
            e@ == step(old(self)@, message, now).1,
    {
        match message {
            Message::DnsInput(v) => {
                self.dns_input = v;
                Effect::Nothing
            },
            _ => Effect::Nothing,
        }
    }

    /// `update` for `ToggleSystemDns`.
    fn on_toggle_system_dns(&mut self, message: Message, now: u64) -> (e: Effect)
        requires
            old(self).wf(),
            message is ToggleSystemDns,
        ensures
            final(self).wf(),
            final(self)@ == step(old(self)@, message, now).0,
            e@ == step(old(self)@, message, now).1,
    {
        match message {
            Message::ToggleSystemDns(v) => {
                self.system_dns = v;
                Effect::Nothing
            },
            _ => Effect::Nothing,
        }
    }

    /// `update` for `SocksPortInput`.
    fn on_socks_port_input(&mut self, message: Message, now: u64) -> (e: Effect)
        requires
            old(self).wf(),
            message is SocksPortInput,
        ensures
            final(self).wf(),
            final(self)@ == step(old(self)@, message, now).0,
            e@ == step(old(self)@, message, now).1,
    {
        match message {
            Message::SocksPortInput(v) => {
                if only_ascii_digits(v.as_str()) {
                    self.socks_port = v;
                }
                Effect::Nothing
            },
            _ => Effect::Nothing,
        }
    }

    /// `update` for `SocksHostInput`.
    fn on_socks_host_input(&mut self, message: Message, now: u64) -> (e: Effect)
        requires
            old(self).wf(),
            message is SocksHostInput,
        ensures
            final(self).wf(),
            final(self)@ == step(old(self)@, message, now).0,
            e@ == step(old(self)@, message, now).1,
    {
        match message {
            Message::SocksHostInput(v) => {
                self.socks_host = v;
                Effect::Nothing
            },
            _ => Effect::Nothing,
        }
    }

    /// `update` for `SocksUserInput`.
    fn on_socks_user_input(&mut self, message: Message, now: u64) -> (e: Effect)
        requires
            old(self).wf(),
            message is SocksUserInput,
        ensures
            final(self).wf(),
            final(self)@ == step(old(self)@, message, now).0,
            e@ == step(old(self)@, message, now).1,
    {
        match message {
            Message::SocksUserInput(v) => {
                self.socks_user = v;
                Effect::Nothing
            },
            _ => Effect::Nothing,
        }
    }

    /// `update` for `SocksPassInput`.
    fn on_socks_pass_input(&mut self, message: Message, now: u64) -> (e: Effect)
        requires
            old(self).wf(),
            message is SocksPassInput,
        ensures
            final(self).wf(),
            final(self)@ == step(old(self)@, message, now).0,
            e@ == step(old(self)@, message, now).1,
    {
        match message {
            Message::SocksPassInput(v) => {
                self.socks_pass = v;
                Effect::Nothing
            },
            _ => Effect::Nothing,
        }
    }

    /// `update` for `ToggleReports`.
    fn on_toggle_reports(&mut self, message: Message, now: u64) -> (e: Effect)
        requires
            old(self).wf(),
            message is ToggleReports,
        ensures
            final(self).wf(),
            final(self)@ == step(old(self)@, message, now).0,
            e@ == step(old(self)@, message, now).1,
    {
        match message {
            Message::ToggleReports(v) => {
                self.flag_reports = v;
                Effect::Nothing
            },
            _ => Effect::Nothing,
        }
    }

    /// `update` for `ToggleHints`.
    fn on_toggle_hints(&mut self, message: Message, now: u64) -> (e: Effect)
        requires
            old(self).wf(),
            message is ToggleHints,
        ensures
            final(self).wf(),
            final(self)@ == step(old(self)@, message, now).0,
            e@ == step(old(self)@, message, now).1,
    {
        match message {
            Message::ToggleHints(v) => {
                self.flag_hints = v;
                Effect::Nothing
            },
            _ => Effect::Nothing,
        }
    }

    /// `update` for `ToggleDebug`.
    fn on_toggle_debug(&mut self, message: Message, now: u64) -> (e: Effect)
        requires
            old(self).wf(),
            message is ToggleDebug,
        ensures
            final(self).wf(),
            final(self)@ == step(old(self)@, message, now).0,
            e@ == step(old(self)@, message, now).1,
    {
        match message {
            Message::ToggleDebug(v) => {
                self.flag_debug = v;
                Effect::Nothing
            },
            _ => Effect::Nothing,
        }
    }

    /// `update` for `ToggleNotif`.
    fn on_toggle_notif(&mut self, message: Message, now: u64) -> (e: Effect)
        requires
            old(self).wf(),
            message is ToggleNotif,
        ensures
            final(self).wf(),
            final(self)@ == step(old(self)@, message, now).0,
            e@ == step(old(self)@, message, now).1,
    {
        match message {
            Message::ToggleNotif(v) => {
                self.flag_notif = v;
                Effect::Nothing
            },
            _ => Effect::Nothing,
        }
    }

    /// `update` for `ApplySettings`.
    fn on_apply_settings(&mut self, message: Message, now: u64) -> (e: Effect)
        requires
            old(self).wf(),
            message is ApplySettings,
        ensures
            final(self).wf(),
            final(self)@ == step(old(self)@, message, now).0,
            e@ == step(old(self)@, message, now).1,
    {
        match message {
            Message::ApplySettings => {
                let cmds = self.settings_command_lines();
                self.settings_output = String::new();
                self.status_bar_text = String::from_str("Применение настроек…");
                Effect::ApplySettings(cmds)
            },
            _ => Effect::Nothing,
        }
    }

    /// `update` for `SettingsResults`.
    fn on_settings_results(&mut self, message: Message, now: u64) -> (e: Effect)
        requires
            old(self).wf(),
            message is SettingsResults,
        ensures
            final(self).wf(),
            final(self)@ == step(old(self)@, message, now).0,
            e@ == step(old(self)@, message, now).1,
    {
        match message {
            Message::SettingsResults(results) => {
                self.settings_output = combine_outputs(&results);
                self.status_bar_text = String::from_str("Настройки применены");
                Effect::Nothing
            },
            _ => Effect::Nothing,
        }
    }

    /// `update` for `ShowConfig`.
    fn on_show_config(&mut self, message: Message, now: u64) -> (e: Effect)
        requires
            old(self).wf(),
            message is ShowConfig,
        ensures
            final(self).wf(),
            final(self)@ == step(old(self)@, message, now).0,
            e@ == step(old(self)@, message, now).1,
    {
        match message {
            Message::ShowConfig => {
                self.settings_output = String::new();
                run_call(args2("config", "show"), Reply::Config)
            },
            _ => Effect::Nothing,
        }
    }

    /// `update` for `ConfigResult`.
    fn on_config_result(&mut self, message: Message, now: u64) -> (e: Effect)
        requires
            old(self).wf(),
            message is ConfigResult,
        ensures
            final(self).wf(),
            final(self)@ == step(old(self)@, message, now).0,
            e@ == step(old(self)@, message, now).1,
    {
        match message {
            Message::ConfigResult(out, err) => {
                self.settings_output = if !out.as_str().is_empty() {
                    out
                } else {
                    warning_text(err.as_str())
                };
                Effect::Nothing
            },
            _ => Effect::Nothing,
        }
    }

    /// `update` for `ClearSocksAuth`.
    fn on_clear_socks_auth(&mut self, message: Message, now: u64) -> (e: Effect)
        requires
            old(self).wf(),
            message is ClearSocksAuth,
        ensures
            final(self).wf(),
            final(self)@ == step(old(self)@, message, now).0,
            e@ == step(old(self)@, message, now).1,
    {
        match message {
            Message::ClearSocksAuth => {
                let args = config_args(args1("clear-socks-auth"));
                assert(args.deep_view() =~= seq!["config"@, "clear-socks-auth"@]);
                run_call(args, Reply::ClearSocks)
            },
            _ => Effect::Nothing,
        }
    }

    /// `update` for `ClearSocksResult`.
    fn on_clear_socks_result(&mut self, message: Message, now: u64) -> (e: Effect)
        requires
            old(self).wf(),
            message is ClearSocksResult,
        ensures
            final(self).wf(),
            final(self)@ == step(old(self)@, message, now).0,
            e@ == step(old(self)@, message, now).1,
    {
        match message {
            Message::ClearSocksResult(out, err) => {
                append_report(&mut self.settings_output, out.as_str(), err.as_str());
                Effect::Nothing
            },

            _ => Effect::Nothing,
        }
    }

    /// `update` for `SetExclMode`.
    fn on_set_excl_mode(&mut self, message: Message, now: u64) -> (e: Effect)
        requires
            old(self).wf(),
            message is SetExclMode,
        ensures
            final(self).wf(),
            final(self)@ == step(old(self)@, message, now).0,
            e@ == step(old(self)@, message, now).1,
    {
        match message {
            Message::SetExclMode(mode) => {
                self.excl_mode = mode;
                Effect::Nothing
            },
            _ => Effect::Nothing,
        }
    }

    /// `update` for `ApplyExclMode`.
    fn on_apply_excl_mode(&mut self, message: Message, now: u64) -> (e: Effect)
        requires
            old(self).wf(),
            message is ApplyExclMode,
        ensures
            final(self).wf(),
            final(self)@ == step(old(self)@, message, now).0,
            e@ == step(old(self)@, message, now).1,
    {
        match message {
            Message::ApplyExclMode => {
                run_call(args3("site-exclusions", "mode", self.excl_mode.word()), Reply::ExclMode)
            },
            _ => Effect::Nothing,
        }
    }

    /// `update` for `ExclModeResult / ExclActionResult`.
    fn on_excl_mode_result(&mut self, message: Message, now: u64) -> (e: Effect)
        requires
            old(self).wf(),
            message is ExclModeResult || message is ExclActionResult,
        ensures
            final(self).wf(),
            final(self)@ == step(old(self)@, message, now).0,
            e@ == step(old(self)@, message, now).1,
    {
        match message {
            Message::ExclModeResult(out, err) | Message::ExclActionResult(out, err) => {
                self.excl_output = String::new();
                append_report(&mut self.excl_output, out.as_str(), err.as_str());
                exclusions_call()
            },
            _ => Effect::Nothing,
        }
    }

    /// `update` for `RefreshExclusions`.
    fn on_refresh_exclusions(&mut self, message: Message, now: u64) -> (e: Effect)
        requires
            old(self).wf(),
            message is RefreshExclusions,
        ensures
            final(self).wf(),
            final(self)@ == step(old(self)@, message, now).0,
            e@ == step(old(self)@, message, now).1,
    {
        match message {
            Message::RefreshExclusions => exclusions_call(),
            _ => Effect::Nothing,
        }
    }

    /// `update` for `ExclusionsResult`.
    fn on_exclusions_result(&mut self, message: Message, now: u64) -> (e: Effect)
        requires
            old(self).wf(),
            message is ExclusionsResult,
        ensures
            final(self).wf(),
            final(self)@ == step(old(self)@, message, now).0,
            e@ == step(old(self)@, message, now).1,
    {
        reveal(exclusions_wf);
        match message {
            Message::ExclusionsResult(out, _err) => {
                self.exclusions = parse_exclusions(out.as_str());
                Effect::Nothing
            },
            _ => Effect::Nothing,
        }
    }

    /// `update` for `ExclDomainInput`.
    fn on_excl_domain_input(&mut self, message: Message, now: u64) -> (e: Effect)
        requires
            old(self).wf(),
            message is ExclDomainInput,
        ensures
            final(self).wf(),
            final(self)@ == step(old(self)@, message, now).0,
            e@ == step(old(self)@, message, now).1,
    {
        match message {
            Message::ExclDomainInput(v) => {
                self.excl_domain_input = v;
                Effect::Nothing
            },
            _ => Effect::Nothing,
        }
    }

    /// `update` for `SelectExclusion`.
    fn on_select_exclusion(&mut self, message: Message, now: u64) -> (e: Effect)
        requires
            old(self).wf(),
            message is SelectExclusion,
        ensures
            final(self).wf(),
            final(self)@ == step(old(self)@, message, now).0,
            e@ == step(old(self)@, message, now).1,
    {
        match message {
            Message::SelectExclusion(idx) => {
                self.excl_selected = Some(idx);
                Effect::Nothing
            },
            _ => Effect::Nothing,
        }
    }

    /// `update` for `AddExclusion`.
    fn on_add_exclusion(&mut self, message: Message, now: u64) -> (e: Effect)
        requires
            old(self).wf(),
            message is AddExclusion,
        ensures
            final(self).wf(),
            final(self)@ == step(old(self)@, message, now).0,
            e@ == step(old(self)@, message, now).1,
    {
        match message {
            Message::AddExclusion => {
                let domain = trim(self.excl_domain_input.as_str());
                if domain.as_str().is_empty() {
                    return Effect::Nothing;
                }
                self.excl_domain_input = String::new();
                run_call(args3("site-exclusions", "add", domain.as_str()), Reply::ExclAction)
            },
            _ => Effect::Nothing,
        }
    }

    /// `update` for `RemoveExclusion`.
    fn on_remove_exclusion(&mut self, message: Message, now: u64) -> (e: Effect)
        requires
            old(self).wf(),
            message is RemoveExclusion,
        ensures
            final(self).wf(),
            final(self)@ == step(old(self)@, message, now).0,
            e@ == step(old(self)@, message, now).1,
    {
        match message {
            Message::RemoveExclusion => {
                let typed = trim(self.excl_domain_input.as_str());
                let domain = if !typed.as_str().is_empty() {
                    typed
                } else {
                    match self.excl_selected {
                        Some(idx) => if idx < self.exclusions.len() {
                            self.exclusions[idx].clone()
                        } else {
                            String::new()
                        },
                        None => {
                            return Effect::Nothing;
                        },
                    }
                };
                if domain.as_str().is_empty() {
                    return Effect::Nothing;
                }
                self.excl_domain_input = String::new();
                run_call(args3("site-exclusions", "remove", domain.as_str()), Reply::ExclAction)
            },
            _ => Effect::Nothing,
        }
    }

    /// `update` for `ClearExclusions`.
    fn on_clear_exclusions(&mut self, message: Message, now: u64) -> (e: Effect)
        requires
            old(self).wf(),
            message is ClearExclusions,
        ensures
            final(self).wf(),
            final(self)@ == step(old(self)@, message, now).0,
            e@ == step(old(self)@, message, now).1,
    {
        match message {
            Message::ClearExclusions => {
                run_call(args2("site-exclusions", "clear"), Reply::ExclAction)
            },

            _ => Effect::Nothing,
        }
    }

    /// `update` for `CheckUpdate`.
    fn on_check_update(&mut self, message: Message, now: u64) -> (e: Effect)
        requires
            old(self).wf(),
            message is CheckUpdate,
        ensures
            final(self).wf(),
            final(self)@ == step(old(self)@, message, now).0,
            e@ == step(old(self)@, message, now).1,
    {
        match message {
            Message::CheckUpdate => {
                self.updates_output = String::new();
                self.status_bar_text = String::from_str("Проверка обновлений…");
                run_call(args1("check-update"), Reply::Update)
            },
            _ => Effect::Nothing,
        }
    }

    /// `update` for `DoUpdate`.
    fn on_do_update(&mut self, message: Message, now: u64) -> (e: Effect)
        requires
            old(self).wf(),
            message is DoUpdate,
        ensures
            final(self).wf(),
            final(self)@ == step(old(self)@, message, now).0,
            e@ == step(old(self)@, message, now).1,
    {
        match message {
            Message::DoUpdate => {
                self.updates_output = String::new();
                self.status_bar_text = String::from_str("Обновление…");
                run_call(args1("update"), Reply::Update)
            },
            _ => Effect::Nothing,
        }
    }

    /// `update` for `UpdateResult / ExportLogsResult`.
    fn on_update_result(&mut self, message: Message, now: u64) -> (e: Effect)
        requires
            old(self).wf(),
            message is UpdateResult || message is ExportLogsResult,
        ensures
            final(self).wf(),
            final(self)@ == step(old(self)@, message, now).0,
            e@ == step(old(self)@, message, now).1,
    {
        match message {
            Message::UpdateResult(out, err) | Message::ExportLogsResult(out, err) => {
                self.status_bar_text = String::from_str("Готово");
                append_report(&mut self.updates_output, out.as_str(), err.as_str());
                Effect::Nothing
            },
            _ => Effect::Nothing,
        }
    }

    /// `update` for `LogPathInput`.
    fn on_log_path_input(&mut self, message: Message, now: u64) -> (e: Effect)
        requires
            old(self).wf(),
            message is LogPathInput,
        ensures
            final(self).wf(),
            final(self)@ == step(old(self)@, message, now).0,
            e@ == step(old(self)@, message, now).1,
    {
        match message {
            Message::LogPathInput(v) => {
                self.log_export_path = v;
                Effect::Nothing
            },
            _ => Effect::Nothing,
        }
    }

    /// `update` for `ExportLogs`.
    fn on_export_logs(&mut self, message: Message, now: u64) -> (e: Effect)
        requires
            old(self).wf(),
            message is ExportLogs,
        ensures
            final(self).wf(),
            final(self)@ == step(old(self)@, message, now).0,
            e@ == step(old(self)@, message, now).1,
    {
        match message {
            Message::ExportLogs(home) => {
                if self.log_export_path.as_str().is_empty() {
                    return Effect::Nothing;
                }
                let expanded = expand_home(self.log_export_path.as_str(), &home);
                self.updates_output = String::new();
                self.status_bar_text = String::from_str("Экспорт логов…");
                run_call(args3("export-logs", "-o", expanded.as_str()), Reply::ExportLogs)
            },

            _ => Effect::Nothing,
        }
    }
}

} // verus!
