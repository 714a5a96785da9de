//! Properties of the application that span several messages or hold of every state.

use vstd::prelude::*;
use crate::app::{
    exclusions_wf, is_account_message, is_connection_message, is_exclusions_message,
    is_settings_message, is_updates_message, locations_wf, settings_commands, state_wf,
    status_request, step, step_account, step_connection, step_exclusions, step_settings,
    step_updates, terminal_attempt, terminal_not_found, terminal_opened, login_opening, AppView,
    Message, STATUS_REFRESH_NANOS,
};
use crate::commands::{
    connect_command, exclusions_in, exclusions_listed, lemma_trimmed_idempotent, terminal_commands,
    CallView, EffectView, Reply,
};
use crate::locations::LocationView;
use crate::options::IpVersion;
use crate::locations::{location_of_line, locations_in, locations_listed};
use crate::text::trimmed;

verus! {

broadcast use vstd::string::group_string_axioms;

/// Every location read from lines of `list-locations` has a two-letter capital code
/// that its label starts with.
pub proof fn lemma_locations_in_wf(ls: Seq<Seq<char>>)
    ensures
        locations_wf(locations_in(ls)),
    decreases ls.len(),
{
    reveal(locations_wf);
    if ls.len() > 0 {
        lemma_locations_in_wf(ls.drop_last());
        match location_of_line(ls.last()) {
            Some(l) => {
                assert(l.label.take(l.iso.len() as int) =~= l.iso);
            },
            None => {},
        }
    }
}

/// Every exclusion read from lines of `site-exclusions show` is trimmed, not empty and
/// does not start with `--`.
pub proof fn lemma_exclusions_in_wf(ls: Seq<Seq<char>>)
    ensures
        exclusions_wf(exclusions_in(ls)),
    decreases ls.len(),
{
    reveal(exclusions_wf);
    if ls.len() > 0 {
        lemma_exclusions_in_wf(ls.drop_last());
        lemma_trimmed_idempotent(ls.last());
    }
}

/// Every step keeps the state well-formed: the SOCKS port field holds only digits, the
/// listed locations and exclusions have their shape, and the pickers keep their entries.
pub proof fn lemma_step_keeps_wf(s: AppView, m: Message, now: u64)
    requires
        state_wf(s),
    ensures
        state_wf(step(s, m, now).0),
{
    if is_connection_message(m) {
        lemma_connection_keeps_wf(s, m, now);
    } else if is_account_message(m) {
        lemma_account_keeps_wf(s, m, now);
    } else if is_settings_message(m) {
        lemma_settings_keeps_wf(s, m, now);
    } else if is_exclusions_message(m) {
        lemma_exclusions_keeps_wf(s, m, now);
    } else {
        lemma_updates_keeps_wf(s, m, now);
    }
}

/// `lemma_step_keeps_wf` for messages about status, locations and connecting.
proof fn lemma_connection_keeps_wf(s: AppView, m: Message, now: u64)
    requires
        state_wf(s),
        is_connection_message(m),
    ensures
        state_wf(step_connection(s, m, now).0),
{
    if let Message::LocationsResult(out, err) = m {
        lemma_locations_in_wf(crate::text::lines(out@));
    }
}

/// `lemma_step_keeps_wf` for messages about the account.
proof fn lemma_account_keeps_wf(s: AppView, m: Message, now: u64)
    requires
        state_wf(s),
        is_account_message(m),
    ensures
        state_wf(step_account(s, m, now).0),
{
}

/// `lemma_step_keeps_wf` for messages about the settings form.
proof fn lemma_settings_keeps_wf(s: AppView, m: Message, now: u64)
    requires
        state_wf(s),
        is_settings_message(m),
    ensures
        state_wf(step_settings(s, m, now).0),
{
}

/// `lemma_step_keeps_wf` for messages about site exclusions.
proof fn lemma_exclusions_keeps_wf(s: AppView, m: Message, now: u64)
    requires
        state_wf(s),
        is_exclusions_message(m),
    ensures
        state_wf(step_exclusions(s, m, now).0),
{
    if let Message::ExclusionsResult(out, err) = m {
        lemma_exclusions_in_wf(crate::text::lines(out@));
    }
}

/// `lemma_step_keeps_wf` for messages about updates and log export.
proof fn lemma_updates_keeps_wf(s: AppView, m: Message, now: u64)
    requires
        state_wf(s),
        is_updates_message(m),
    ensures
        state_wf(step_updates(s, m, now).0),
{
}

/// The status is refreshed automatically every 15 seconds: a timer tick asks for the
/// status, and records its own time as the time of the last request, exactly when at
/// least 15 seconds have passed since the last request; otherwise it changes nothing.
pub proof fn lemma_tick_refresh(s: AppView, t: u64, now: u64)
    ensures
        (t >= s.last_status_refresh && t - s.last_status_refresh >= STATUS_REFRESH_NANOS) ==> {
            &&& step(s, Message::Tick(t), now).1 == status_request()
            &&& step(s, Message::Tick(t), now).0 == (AppView { last_status_refresh: t, ..s })
        },
        !(t >= s.last_status_refresh && t - s.last_status_refresh >= STATUS_REFRESH_NANOS) ==> {
            &&& step(s, Message::Tick(t), now).1 == EffectView::Nothing
            &&& step(s, Message::Tick(t), now).0 == s
        },
{
}

/// Two status requests made by timer ticks, one right after the other, are at least
/// 15 seconds apart.
pub proof fn lemma_tick_refreshes_spaced(s: AppView, t1: u64, t2: u64, now1: u64, now2: u64)
    requires
        step(s, Message::Tick(t1), now1).1 == status_request(),
        step(step(s, Message::Tick(t1), now1).0, Message::Tick(t2), now2).1 == status_request(),
    ensures
        t2 >= t1 + STATUS_REFRESH_NANOS,
{
}

/// Only `Connect` and `Disconnect` mark the connection as busy, only their results
/// clear the mark, and no other message changes it.
pub proof fn lemma_busy_flag(s: AppView, m: Message, now: u64)
    ensures
        (m is Connect || m is Disconnect) ==> step(s, m, now).0.conn_busy,
        (m is ConnectResult || m is DisconnectResult) ==> !step(s, m, now).0.conn_busy,
        !(m is Connect || m is Disconnect || m is ConnectResult || m is DisconnectResult)
            ==> step(s, m, now).0.conn_busy == s.conn_busy,
{
}

/// Applying the settings runs only `config` commands of one setting and one value each,
/// and always sets the mode, protocol, update channel, TUN routing mode, system DNS and
/// the four flags.
pub proof fn lemma_settings_commands_shape(s: AppView)
    ensures
        forall|i: int|
            0 <= i < settings_commands(s).len() ==> {
                &&& #[trigger] settings_commands(s)[i].len() == 3
                &&& settings_commands(s)[i][0] == "config"@
            },
        settings_commands(s).len() >= 9,
        settings_commands(s)[0][1] == "set-mode"@,
        settings_commands(s)[1][1] == "set-protocol"@,
        settings_commands(s)[2][1] == "set-update-channel"@,
        settings_commands(s)[3][1] == "set-tun-routing-mode"@,
        settings_commands(s).last()[1] == "set-show-notifications"@,
{
}

/// Adding or removing a site exclusion never asks the tool about an empty domain, and
/// a typed domain is sent trimmed; the input field is cleared exactly when a request
/// is made.
pub proof fn lemma_exclusion_requests(s: AppView, m: Message, now: u64)
    requires
        m is AddExclusion || m is RemoveExclusion,
    ensures
        step(s, m, now).1 is Nothing ==> step(s, m, now).0 == s,
        step(s, m, now).1 is Run ==> {
            let call = step(s, m, now).1->Run_0;
            &&& call.args.len() == 3
            &&& call.args[2].len() > 0
            &&& step(s, m, now).0.excl_domain_input.len() == 0
        },
        step(s, m, now).1 is Nothing || step(s, m, now).1 is Run,
        (m is AddExclusion && step(s, m, now).1 is Run) ==> step(s, m, now).1->Run_0.args[2]
            == trimmed(s.excl_domain_input),
{
}

/// Refreshing the list of site exclusions replaces it: handling the same result twice
/// gives the same state as handling it once.
pub proof fn lemma_exclusions_result_idempotent(s: AppView, out: String, err: String, now: u64)
    ensures
        ({
            let m = Message::ExclusionsResult(out, err);
            step(step(s, m, now).0, m, now) == step(s, m, now)
        }),
{
}


/// The locations of two lists of lines, one after the other, are the locations of the
/// first list followed by those of the second.
pub proof fn lemma_locations_in_concat(x: Seq<Seq<char>>, y: Seq<Seq<char>>)
    ensures
        locations_in(x + y) == locations_in(x) + locations_in(y),
    decreases y.len(),
{
    if y.len() == 0 {
        assert(x + y =~= x);
        assert(locations_in(x) + locations_in(y) =~= locations_in(x));
    } else {
        assert((x + y).drop_last() =~= x + y.drop_last());
        assert((x + y).last() == y.last());
        lemma_locations_in_concat(x, y.drop_last());
        match location_of_line(y.last()) {
            Some(l) => {
                assert(locations_in(x + y) =~= locations_in(x) + locations_in(y));
            },
            None => {},
        }
    }
}

/// An empty line describes no location.
pub proof fn lemma_empty_line_no_location()
    ensures
        location_of_line(Seq::<char>::empty()) is None,
{
    let e = Seq::<char>::empty();
    assert(trimmed(e) =~= e);
    assert(crate::text::words(e) =~= Seq::<Seq<char>>::empty());
}

/// Lines are read independently and in order: the locations listed in two texts joined
/// by a line break are those of the first text followed by those of the second.
pub proof fn lemma_locations_of_joined_texts(a: Seq<char>, b: Seq<char>)
    ensures
        locations_listed(a + "\n"@ + b) == locations_listed(a) + locations_listed(b),
{
    reveal_strlit("\n");
    assert("\n"@ =~= seq!['\n']);
    crate::text::lemma_lines_join(a, b);
    let mid: Seq<Seq<char>> = if a.len() == 0 || a.last() == '\n' {
        seq![Seq::<char>::empty()]
    } else {
        seq![]
    };
    let la = crate::text::lines(a);
    let lb = crate::text::lines(b);
    lemma_locations_in_concat(la + mid, lb);
    lemma_locations_in_concat(la, mid);
    lemma_empty_line_no_location();
    if mid.len() == 1 {
        assert(mid.drop_last() =~= Seq::<Seq<char>>::empty());
        assert(mid.last() == Seq::<char>::empty());
        assert(locations_in(mid.drop_last()) =~= Seq::<crate::locations::LocationView>::empty());
        assert(locations_in(mid) =~= Seq::<crate::locations::LocationView>::empty());
    } else {
        assert(locations_in(mid) =~= Seq::<crate::locations::LocationView>::empty());
    }
    assert(locations_in(la) + locations_in(mid) =~= locations_in(la));
}


/// The first position at or after `i` where `started` is true, or `started.len()` if
/// there is none.
pub open spec fn first_started(started: Seq<bool>, i: int) -> int
    decreases started.len() - i,
{
    if i < 0 || i >= started.len() {
        started.len() as int
    } else if started[i] {
        i
    } else {
        first_started(started, i + 1)
    }
}

/// `first_started` lies between its start and the length.
pub proof fn lemma_first_started_bounds(started: Seq<bool>, i: int)
    requires
        0 <= i <= started.len(),
    ensures
        i <= first_started(started, i) <= started.len(),
    decreases started.len() - i,
{
    if i < started.len() && !started[i] {
        lemma_first_started_bounds(started, i + 1);
    }
}

/// Carries out up to `fuel` login attempts from state `s` and effect `e`, where trying
/// command line number `i` starts exactly when `started[i]`: the final state and the
/// command lines that were tried, in order.
pub open spec fn login_attempts(
    s: AppView,
    e: EffectView,
    started: Seq<bool>,
    now: u64,
    fuel: nat,
) -> (AppView, Seq<Seq<Seq<char>>>)
    decreases fuel,
{
    if fuel == 0 {
        (s, seq![])
    } else {
        match e {
            EffectView::SpawnTerminal(cmd, i) => {
                let ok = if i < started.len() {
                    started[i as int]
                } else {
                    false
                };
                let next = step(s, Message::TerminalSpawned(i, ok), now);
                let rest = login_attempts(next.0, next.1, started, now, (fuel - 1) as nat);
                (rest.0, seq![cmd] + rest.1)
            },
            _ => (s, seq![]),
        }
    }
}

/// What the login logs once the attempts are over: the first terminal that started,
/// or that none could be found.
pub open spec fn login_outcome(started: Seq<bool>, k: int) -> Seq<char> {
    if k < started.len() {
        terminal_opened(terminal_commands()[k][0])
    } else {
        terminal_not_found()
    }
}

/// The attempts from command line number `i` on.
proof fn lemma_login_attempts_from(s: AppView, i: int, started: Seq<bool>, now: u64)
    requires
        0 <= i < terminal_commands().len(),
        started.len() == terminal_commands().len(),
    ensures
        ({
            let k = first_started(started, i);
            let end = if k < started.len() {
                k + 1
            } else {
                started.len() as int
            };
            login_attempts(
                s,
                terminal_attempt(i as usize),
                started,
                now,
                (started.len() - i) as nat,
            ) == (
                AppView { account_output: s.account_output + login_outcome(started, k), ..s },
                terminal_commands().subrange(i, end),
            )
        }),
    decreases started.len() - i,
{
    let n = started.len() as int;
    let k = first_started(started, i);
    let fuel = (n - i) as nat;
    let e = terminal_attempt(i as usize);
    let next = step(s, Message::TerminalSpawned(i as usize, started[i]), now);
    let rest = login_attempts(next.0, next.1, started, now, (fuel - 1) as nat);
    assert(login_attempts(s, e, started, now, fuel) == (
        rest.0,
        seq![terminal_commands()[i]] + rest.1,
    ));
    if started[i] {
        assert(k == i);
        assert(next.1 == EffectView::Nothing);
        assert(rest == (next.0, Seq::<Seq<Seq<char>>>::empty()));
        assert(seq![terminal_commands()[i]] + rest.1 =~= terminal_commands().subrange(i, i + 1));
    } else if i + 1 < n {
        assert(k == first_started(started, i + 1));
        assert(next == (s, terminal_attempt((i + 1) as usize)));
        lemma_login_attempts_from(s, i + 1, started, now);
        lemma_first_started_bounds(started, i + 1);
        let end = if k < n {
            k + 1
        } else {
            n
        };
        assert(seq![terminal_commands()[i]] + terminal_commands().subrange(i + 1, end)
            =~= terminal_commands().subrange(i, end));
    } else {
        assert(first_started(started, i + 1) == n);
        assert(k == n);
        assert(next.1 == EffectView::Nothing);
        assert(rest == (next.0, Seq::<Seq<Seq<char>>>::empty()));
        assert(seq![terminal_commands()[i]] + rest.1 =~= terminal_commands().subrange(i, n));
    }
}

/// Login tries the terminal command lines in their order and stops at the first that
/// starts: it logs the opening line, then that terminal's program, or that no terminal
/// was found; the command lines tried are those up to that first success (all of them
/// when none starts); nothing else in the state changes.
pub proof fn lemma_login(s: AppView, started: Seq<bool>, now: u64)
    requires
        started.len() == terminal_commands().len(),
    ensures
        ({
            let first = step(s, Message::Login, now);
            let k = first_started(started, 0);
            let end = if k < started.len() {
                k + 1
            } else {
                started.len() as int
            };
            login_attempts(first.0, first.1, started, now, started.len()) == (
                AppView {
                    account_output: s.account_output + login_opening() + login_outcome(
                        started,
                        k,
                    ),
                    ..s
                },
                terminal_commands().take(end),
            )
        }),
{
    let first = step(s, Message::Login, now);
    assert(first.1 == terminal_attempt(0));
    lemma_login_attempts_from(first.0, 0, started, now);
    let k = first_started(started, 0);
    let end = if k < started.len() {
        k + 1
    } else {
        started.len() as int
    };
    assert(terminal_commands().subrange(0, end) =~= terminal_commands().take(end));
    assert(first.0.account_output + login_outcome(started, k) =~= s.account_output
        + login_opening() + login_outcome(started, k));
}


/// 1 when the text `v` is given (not empty), else 0.
pub open spec fn given(v: Seq<char>) -> int {
    if v.len() > 0 {
        1
    } else {
        0
    }
}

/// `on` when `b` holds, else `off`.
pub open spec fn switch_word(b: bool) -> Seq<char> {
    if b {
        "on"@
    } else {
        "off"@
    }
}

/// What applying the settings sends, position by position. The four pickers come first
/// with their chosen entries (`TUN`, `auto`, `release`, `AUTO` when none is chosen);
/// then the DNS server only when one is typed; system DNS; each SOCKS field only when
/// it is filled in, each with its own text; and last the four flags, each with the
/// value of its own check box.
pub proof fn lemma_settings_values(s: AppView)
    ensures
        ({
            let c = settings_commands(s);
            let n = c.len() as int;
            let d = given(s.dns_input);
            let p = 5 + d;
            let h = p + given(s.socks_port);
            let u = h + given(s.socks_host);
            let w = u + given(s.socks_user);
            &&& n == 9 + d + given(s.socks_port) + given(s.socks_host) + given(s.socks_user)
                + given(s.socks_pass)
            &&& c[0] == seq![
                "config"@,
                "set-mode"@,
                match s.selected_mode {
                    Some(v) => v,
                    None => "TUN"@,
                },
            ]
            &&& c[1] == seq![
                "config"@,
                "set-protocol"@,
                match s.selected_proto {
                    Some(v) => v,
                    None => "auto"@,
                },
            ]
            &&& c[2] == seq![
                "config"@,
                "set-update-channel"@,
                match s.selected_channel {
                    Some(v) => v,
                    None => "release"@,
                },
            ]
            &&& c[3] == seq![
                "config"@,
                "set-tun-routing-mode"@,
                match s.selected_tun_route {
                    Some(v) => v,
                    None => "AUTO"@,
                },
            ]
            &&& (d == 1 ==> c[4] == seq!["config"@, "set-dns"@, s.dns_input])
            &&& c[4 + d] == seq!["config"@, "set-system-dns"@, switch_word(s.system_dns)]
            &&& (given(s.socks_port) == 1 ==> c[p] == seq![
                "config"@,
                "set-socks-port"@,
                s.socks_port,
            ])
            &&& (given(s.socks_host) == 1 ==> c[h] == seq![
                "config"@,
                "set-socks-host"@,
                s.socks_host,
            ])
            &&& (given(s.socks_user) == 1 ==> c[u] == seq![
                "config"@,
                "set-socks-username"@,
                s.socks_user,
            ])
            &&& (given(s.socks_pass) == 1 ==> c[w] == seq![
                "config"@,
                "set-socks-password"@,
                s.socks_pass,
            ])
            &&& c[n - 4] == seq!["config"@, "send-reports"@, switch_word(s.flag_reports)]
            &&& c[n - 3] == seq!["config"@, "set-show-hints"@, switch_word(s.flag_hints)]
            &&& c[n - 2] == seq!["config"@, "set-debug-logging"@, switch_word(s.flag_debug)]
            &&& c[n - 1] == seq![
                "config"@,
                "set-show-notifications"@,
                switch_word(s.flag_notif),
            ]
        }),
{
}

/// The `connect` command line: it starts with `connect`; then `-f` when the fastest
/// location is asked for, else `-l` and the chosen location's code when one is chosen,
/// whatever the IP version; the IP version only adds a last `-4` or `-6`.
pub proof fn lemma_connect_arguments(fastest: bool, selected: Option<LocationView>, ip: IpVersion)
    ensures
        ({
            let c = connect_command(fastest, selected, ip);
            let chosen = if fastest {
                1int
            } else if selected is Some {
                2int
            } else {
                0int
            };
            let version = if ip is Default {
                0int
            } else {
                1int
            };
            &&& c.len() == 1 + chosen + version
            &&& c[0] == "connect"@
            &&& (fastest ==> c[1] == "-f"@)
            &&& (!fastest && selected is Some ==> c[1] == "-l"@ && c[2] == selected->0.iso)
            &&& (ip is IPv4 ==> c.last() == "-4"@)
            &&& (ip is IPv6 ==> c.last() == "-6"@)
        }),
{
}

/// The result of `site-exclusions show` replaces the list: the new list is the entries
/// of the output, whatever the list was before, so an empty output empties the list.
pub proof fn lemma_exclusions_result_replaces(
    s1: AppView,
    s2: AppView,
    out: String,
    err: String,
    now: u64,
)
    ensures
        ({
            let m = Message::ExclusionsResult(out, err);
            &&& step(s1, m, now).0.exclusions == exclusions_listed(out@)
            &&& step(s1, m, now).0.exclusions == step(s2, m, now).0.exclusions
            &&& out@.len() == 0 ==> step(s1, m, now).0.exclusions.len() == 0
        }),
{
}

/// Removing an exclusion: a typed domain wins over the selected entry and is sent
/// trimmed; with nothing typed, the selected entry of the list is sent; with nothing
/// typed and nothing selected, nothing happens.
pub proof fn lemma_remove_exclusion_choice(s: AppView, now: u64)
    ensures
        ({
            let r = step(s, Message::RemoveExclusion, now);
            let typed = trimmed(s.excl_domain_input);
            &&& typed.len() > 0 ==> r.1 == EffectView::Run(
                CallView { args: seq!["site-exclusions"@, "remove"@, typed], reply: Reply::ExclAction },
            )
            &&& (typed.len() == 0 && s.excl_selected is Some && s.excl_selected->0
                < s.exclusions.len() && s.exclusions[s.excl_selected->0 as int].len() > 0) ==> r.1
                == EffectView::Run(
                CallView {
                    args: seq![
                        "site-exclusions"@,
                        "remove"@,
                        s.exclusions[s.excl_selected->0 as int],
                    ],
                    reply: Reply::ExclAction,
                },
            )
            &&& (typed.len() == 0 && s.excl_selected is None) ==> r.1 == EffectView::Nothing
                && r.0 == s
        }),
{
}

/// Loading the locations: when the output is not empty, the list becomes the locations
/// it lists and the first of them is selected (none when it lists none); an empty
/// output leaves list and selection as they were.
pub proof fn lemma_locations_result_selects_first(s: AppView, out: String, err: String, now: u64)
    ensures
        ({
            let r = step(s, Message::LocationsResult(out, err), now).0;
            let listed = locations_listed(out@);
            &&& out@.len() > 0 ==> r.locations == listed
            &&& (out@.len() > 0 && listed.len() > 0) ==> r.selected_location == Some(listed[0])
            &&& (out@.len() > 0 && listed.len() == 0) ==> r.selected_location is None
            &&& out@.len() == 0 ==> r.locations == s.locations && r.selected_location
                == s.selected_location
        }),
{
}

} // verus!
