//! The tabs of the window and the small choices the user makes: IP version, exclusion
//! mode, and the entries of the settings pickers.

use vstd::prelude::*;

verus! {

broadcast use vstd::string::group_string_axioms;

/// The tabs of the window.
#[derive(Debug, Clone, Copy, PartialEq, Eq, Structural)]
pub enum Tab {
    Connection,
    Account,
    Settings,
    Exclusions,
    UpdatesLogs,
}

/// The caption of each tab.
pub open spec fn tab_caption(t: Tab) -> Seq<char> {
    match t {
        Tab::Connection => "🌐 Подключение"@,
        Tab::Account => "👤 Аккаунт"@,
        Tab::Settings => "⚙ Настройки"@,
        Tab::Exclusions => "🚫 Исключения"@,
        Tab::UpdatesLogs => "🔄 Обновления"@,
    }
}

/// The tabs in the order of the tab bar.
pub open spec fn tab_order() -> Seq<Tab> {
    seq![Tab::Connection, Tab::Account, Tab::Settings, Tab::Exclusions, Tab::UpdatesLogs]
}

impl Tab {
    /// The caption of this tab.
    pub fn label(&self) -> (r: &'static str)
        ensures
            r@ == tab_caption(*self),
    {
        match self {
            Tab::Connection => "🌐 Подключение",
            Tab::Account => "👤 Аккаунт",
            Tab::Settings => "⚙ Настройки",
            Tab::Exclusions => "🚫 Исключения",
            Tab::UpdatesLogs => "🔄 Обновления",
        }
    }

    /// All tabs, in the order of the tab bar.
    pub fn all() -> (r: Vec<Tab>)
        ensures
            r@ == tab_order(),
    {
        let mut r = Vec::new();
        r.push(Tab::Connection);
        r.push(Tab::Account);
        r.push(Tab::Settings);
        r.push(Tab::Exclusions);
        r.push(Tab::UpdatesLogs);
        assert(r@ =~= tab_order());
        r
    }
}

/// Which IP version `connect` is restricted to.
#[derive(Debug, Clone, Copy, PartialEq, Eq, Structural)]
pub enum IpVersion {
    Default,
    IPv4,
    IPv6,
}

/// How site exclusions apply: to all sites but the listed ones, or only to them.
#[derive(Debug, Clone, Copy, PartialEq, Eq, Structural)]
pub enum ExclMode {
    General,
    Selective,
}

/// The word that `site-exclusions mode` takes for each mode.
pub open spec fn excl_mode_word(m: ExclMode) -> Seq<char> {
    match m {
        ExclMode::General => "general"@,
        ExclMode::Selective => "selective"@,
    }
}

impl ExclMode {
    /// The word that `site-exclusions mode` takes for this mode.
    pub fn word(&self) -> (r: &'static str)
        ensures
            r@ == excl_mode_word(*self),
    {
        match self {
            ExclMode::General => "general",
            ExclMode::Selective => "selective",
        }
    }
}

/// One entry of a settings picker: the value that is passed to the tool.
#[derive(Debug, PartialEq, Eq)]
pub struct PickOption(pub String);

impl View for PickOption {
    type V = Seq<char>;

    open spec fn view(&self) -> Seq<char> {
        self.0@
    }
}

impl DeepView for PickOption {
    type V = Seq<char>;

    open spec fn deep_view(&self) -> Seq<char> {
        self.0@
    }
}

impl Clone for PickOption {
    fn clone(&self) -> (r: PickOption)
        ensures
            r@ == self@,
    {
        PickOption(self.0.clone())
    }
}

/// The picker entries for `items`, in order.
pub fn pick_options(items: &[&str]) -> (r: Vec<PickOption>)
    ensures
        r.deep_view() == items@.map_values(|s: &str| s@),
{
    let mut r: Vec<PickOption> = Vec::new();
    let mut i: usize = 0;
    while i < items.len()
        invariant
            i <= items@.len(),
            r.deep_view() == items@.take(i as int).map_values(|s: &str| s@),
        decreases items@.len() - i,
    {
        let ghost before = r.deep_view();
        r.push(PickOption(String::from_str(items[i])));
        assert(r.deep_view() =~= before.push(items@[i as int]@));
        assert(items@.take(i + 1).map_values(|s: &str| s@) =~= items@.take(i as int).map_values(
            |s: &str| s@,
        ).push(items@[i as int]@));
        i = i + 1;
    }
    assert(items@.take(items@.len() as int) =~= items@);
    r
}

} // verus!
