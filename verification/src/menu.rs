//! The context menu, as entries to append in order.
use crate::settings::{POLL_15_MIN, POLL_1_HOUR, POLL_1_MIN, POLL_5_MIN};
use crate::state::{model_of, InstallChannel, Model, State, UpdateStatus};
use crate::strings::Strings;
use crate::updates::{action_text, version_action_label};
use crate::window::{
    interval_of, step, Message, IDM_APPEARANCE, IDM_EXIT, IDM_FREQ_15MIN, IDM_FREQ_1HOUR,
    IDM_FREQ_1MIN, IDM_FREQ_5MIN, IDM_MODEL_ANTIGRAVITY, IDM_MODEL_CLAUDE_CODE, IDM_MODEL_CODEX,
    IDM_REFRESH, IDM_RESET_POSITION, IDM_START_WITH_WINDOWS, IDM_TOGGLE_WIDGET,
    IDM_VERSION_ACTION,
};
use vstd::prelude::*;
use vstd::string::*;

verus! {

/// The menu itself and its submenus.
#[derive(Clone, Copy, Debug, PartialEq, Eq, Structural)]
pub enum MenuPart {
    Main,
    Frequency,
    Models,
    Settings,
}

/// How an entry is marked.
#[derive(Clone, Copy, Debug, PartialEq, Eq, Structural)]
pub enum Mark {
    Plain,
    Checked,
    Grayed,
}

/// One entry to append to a menu.
#[verifier::ext_equal]
#[derive(Debug)]
pub enum MenuEntry<T> {
    Item { part: MenuPart, id: u16, label: T, mark: Mark },
    Separator(MenuPart),
    /// Attach a submenu to the main menu.
    Submenu { part: MenuPart, label: T },
}

pub type Entry = MenuEntry<Seq<char>>;

impl View for MenuEntry<String> {
    type V = MenuEntry<Seq<char>>;

    open spec fn view(&self) -> MenuEntry<Seq<char>> {
        match self {
            MenuEntry::Item { part, id, label, mark } => MenuEntry::Item {
                part: *part,
                id: *id,
                label: label@,
                mark: *mark,
            },
            MenuEntry::Separator(part) => MenuEntry::Separator(*part),
            MenuEntry::Submenu { part, label } => MenuEntry::Submenu {
                part: *part,
                label: label@,
            },
        }
    }
}

/// A menu in the making.
#[derive(Debug)]
pub struct Menu {
    pub entries: Vec<MenuEntry<String>>,
}

impl View for Menu {
    type V = Seq<MenuEntry<Seq<char>>>;

    open spec fn view(&self) -> Seq<MenuEntry<Seq<char>>> {
        self.entries@.map_values(|e: MenuEntry<String>| e@)
    }
}

/// What the menu reflects.
#[verifier::ext_equal]
pub struct Choices {
    pub interval_ms: u32,
    pub channel: InstallChannel,
    pub status: UpdateStatus<Seq<char>>,
    pub visible: bool,
    pub claude: bool,
    pub codex: bool,
    pub antigravity: bool,
}

/// What the menu reflects; before there is a state, the defaults with the
/// first provider alone.
pub open spec fn choices_of(m: Option<Model>) -> Choices {
    match m {
        Some(s) => Choices {
            interval_ms: s.polling.interval_ms,
            channel: s.install_channel,
            status: s.update_status,
            visible: s.widget_visible,
            claude: s.claude.shown,
            codex: s.codex.shown,
            antigravity: s.antigravity.shown,
        },
        None => Choices {
            interval_ms: POLL_15_MIN,
            channel: InstallChannel::Portable,
            status: UpdateStatus::Idle,
            visible: true,
            claude: true,
            codex: false,
            antigravity: false,
        },
    }
}

pub open spec fn checked(on: bool) -> Mark {
    if on {
        Mark::Checked
    } else {
        Mark::Plain
    }
}

pub open spec fn item(part: MenuPart, id: u16, label: Seq<char>, mark: Mark) -> Entry {
    MenuEntry::Item { part, id, label, mark }
}

/// The update frequencies, the one in force checked.
pub open spec fn frequency_entries(c: Choices, s: Strings) -> Seq<Entry> {
    let p = MenuPart::Frequency;
    seq![
        item(p, IDM_FREQ_1MIN, s.one_minute@, checked(c.interval_ms == POLL_1_MIN)),
        item(p, IDM_FREQ_5MIN, s.five_minutes@, checked(c.interval_ms == POLL_5_MIN)),
        item(p, IDM_FREQ_15MIN, s.fifteen_minutes@, checked(c.interval_ms == POLL_15_MIN)),
        item(p, IDM_FREQ_1HOUR, s.one_hour@, checked(c.interval_ms == POLL_1_HOUR)),
        MenuEntry::Submenu { part: p, label: s.update_frequency@ },
    ]
}

/// The providers, the shown ones checked.
pub open spec fn model_entries(c: Choices, s: Strings) -> Seq<Entry> {
    let p = MenuPart::Models;
    seq![
        item(p, IDM_MODEL_CLAUDE_CODE, s.claude_code_model@, checked(c.claude)),
        item(p, IDM_MODEL_CODEX, s.codex_model@, checked(c.codex)),
        item(p, IDM_MODEL_ANTIGRAVITY, s.antigravity_model@, checked(c.antigravity)),
        MenuEntry::Submenu { part: p, label: s.models@ },
    ]
}

/// The settings; the version entry is grayed while an update is under way.
pub open spec fn setting_entries(c: Choices, s: Strings, current: Seq<char>, startup: bool) -> Seq<
    Entry,
> {
    let p = MenuPart::Settings;
    seq![
        item(p, IDM_START_WITH_WINDOWS, s.start_with_windows@, checked(startup)),
        item(p, IDM_RESET_POSITION, s.reset_position@, Mark::Plain),
        MenuEntry::Separator(p),
        item(
            p,
            IDM_VERSION_ACTION,
            action_text(s, current, c.channel, c.status),
            if c.status is Checking || c.status is Applying {
                Mark::Grayed
            } else {
                Mark::Plain
            },
        ),
        MenuEntry::Submenu { part: p, label: s.settings@ },
    ]
}

/// The whole context menu.
pub open spec fn menu_entries(c: Choices, s: Strings, current: Seq<char>, startup: bool) -> Seq<
    Entry,
> {
    seq![
        item(MenuPart::Main, IDM_APPEARANCE, "Appearance..."@, Mark::Plain),
        MenuEntry::Separator(MenuPart::Main),
        item(MenuPart::Main, IDM_REFRESH, s.refresh@, Mark::Plain),
    ] + frequency_entries(c, s) + model_entries(c, s) + setting_entries(c, s, current, startup)
        + seq![
        item(MenuPart::Main, IDM_TOGGLE_WIDGET, s.show_widget@, checked(c.visible)),
        MenuEntry::Separator(MenuPart::Main),
        item(MenuPart::Main, IDM_EXIT, s.exit@, Mark::Plain),
    ]
}

fn mark_if(on: bool) -> (mark: Mark)
    ensures
        mark == checked(on),
{
    if on {
        Mark::Checked
    } else {
        Mark::Plain
    }
}

impl Menu {
    fn append(&mut self, entry: MenuEntry<String>)
        ensures
            final(self)@ == old(self)@.push(entry@),
    {
        self.entries.push(entry);
        assert(self@ =~= old(self)@.push(entry@));
    }

    fn item(&mut self, part: MenuPart, id: u16, label: &str, mark: Mark)
        ensures
            final(self)@ == old(self)@.push(item(part, id, label@, mark)),
    {
        self.append(MenuEntry::Item { part, id, label: label.to_owned(), mark });
    }

    fn submenu(&mut self, part: MenuPart, label: &str)
        ensures
            final(self)@ == old(self)@.push(MenuEntry::Submenu { part, label: label@ }),
    {
        self.append(MenuEntry::Submenu { part, label: label.to_owned() });
    }

    fn frequencies(&mut self, interval_ms: u32, s: &Strings, Ghost(c): Ghost<Choices>)
        requires
            c.interval_ms == interval_ms,
        ensures
            final(self)@ == old(self)@ + frequency_entries(c, *s),
    {
        let p = MenuPart::Frequency;
        self.item(p, IDM_FREQ_1MIN, s.one_minute, mark_if(interval_ms == POLL_1_MIN));
        self.item(p, IDM_FREQ_5MIN, s.five_minutes, mark_if(interval_ms == POLL_5_MIN));
        self.item(p, IDM_FREQ_15MIN, s.fifteen_minutes, mark_if(interval_ms == POLL_15_MIN));
        self.item(p, IDM_FREQ_1HOUR, s.one_hour, mark_if(interval_ms == POLL_1_HOUR));
        self.submenu(p, s.update_frequency);
        assert(self@ =~= old(self)@ + frequency_entries(c, *s));
    }

    fn models(
        &mut self,
        claude: bool,
        codex: bool,
        antigravity: bool,
        s: &Strings,
        Ghost(c): Ghost<Choices>,
    )
        requires
            c.claude == claude,
            c.codex == codex,
            c.antigravity == antigravity,
        ensures
            final(self)@ == old(self)@ + model_entries(c, *s),
    {
        let p = MenuPart::Models;
        self.item(p, IDM_MODEL_CLAUDE_CODE, s.claude_code_model, mark_if(claude));
        self.item(p, IDM_MODEL_CODEX, s.codex_model, mark_if(codex));
        self.item(p, IDM_MODEL_ANTIGRAVITY, s.antigravity_model, mark_if(antigravity));
        self.submenu(p, s.models);
        assert(self@ =~= old(self)@ + model_entries(c, *s));
    }

    fn settings(
        &mut self,
        channel: InstallChannel,
        status: &UpdateStatus<String>,
        s: &Strings,
        current: &str,
        startup: bool,
        Ghost(c): Ghost<Choices>,
    )
        requires
            c.channel == channel,
            c.status == status@,
        ensures
            final(self)@ == old(self)@ + setting_entries(c, *s, current@, startup),
    {
        let p = MenuPart::Settings;
        self.item(p, IDM_START_WITH_WINDOWS, s.start_with_windows, mark_if(startup));
        self.item(p, IDM_RESET_POSITION, s.reset_position, Mark::Plain);
        self.append(MenuEntry::Separator(p));
        let label = version_action_label(s, current, channel, status);
        let mark = if status.in_progress() {
            Mark::Grayed
        } else {
            Mark::Plain
        };
        self.item(p, IDM_VERSION_ACTION, label.as_str(), mark);
        self.submenu(p, s.settings);
        assert(self@ =~= old(self)@ + setting_entries(c, *s, current@, startup));
    }
}

/// The context menu for a state. `current` is this build's version, and
/// `startup` tells whether the monitor starts with the system.
pub fn show_context_menu(state: &Option<State>, strings: &Strings, current: &str, startup: bool) -> (menu:
    Menu)
    ensures
        menu@ == menu_entries(choices_of(model_of(*state)), *strings, current@, startup),
{
    let ghost c = choices_of(model_of(*state));
    let mut menu = Menu { entries: Vec::new() };
    let main = MenuPart::Main;
    menu.item(main, IDM_APPEARANCE, "Appearance...", Mark::Plain);
    menu.append(MenuEntry::Separator(main));
    menu.item(main, IDM_REFRESH, strings.refresh, Mark::Plain);
    let visible: bool = match state {
        Some(s) => {
            menu.frequencies(s.polling.interval_ms, strings, Ghost(c));
            menu.models(s.claude.shown, s.codex.shown, s.antigravity.shown, strings, Ghost(c));
            menu.settings(
                s.install_channel,
                &s.update_status,
                strings,
                current,
                startup,
                Ghost(c),
            );
            s.widget_visible
        },
        None => {
            menu.frequencies(POLL_15_MIN, strings, Ghost(c));
            menu.models(true, false, false, strings, Ghost(c));
            menu.settings(
                InstallChannel::Portable,
                &UpdateStatus::Idle,
                strings,
                current,
                startup,
                Ghost(c),
            );
            true
        },
    };
    menu.item(main, IDM_TOGGLE_WIDGET, strings.show_widget, mark_if(visible));
    menu.append(MenuEntry::Separator(main));
    menu.item(main, IDM_EXIT, strings.exit, Mark::Plain);
    assert(menu@ =~= menu_entries(c, *strings, current@, startup));
    menu
}

/// At most one update frequency is checked, and it is the one in force.
pub proof fn law_one_frequency_is_checked(c: Choices, s: Strings, i: int, j: int)
    requires
        0 <= i < 4,
        0 <= j < 4,
        frequency_entries(c, s)[i]->Item_mark == Mark::Checked,
        frequency_entries(c, s)[j]->Item_mark == Mark::Checked,
    ensures
        i == j,
        c.interval_ms == interval_of(frequency_entries(c, s)[i]->Item_id),
{
}

/// Every entry stands in the menu under its own label, with its mark: the
/// frequency in force, the shown providers, the shown widget and the startup
/// entry are checked, and no other entry is.
pub proof fn law_the_menu_shows_the_choices(
    m: Model,
    s: Strings,
    current: Seq<char>,
    startup: bool,
)
    ensures
        ({
            let e = menu_entries(choices_of(Some(m)), s, current, startup);
            let (main, freq) = (MenuPart::Main, MenuPart::Frequency);
            let (models, sets) = (MenuPart::Models, MenuPart::Settings);
            let mark = |on: bool|
                if on {
                    Mark::Checked
                } else {
                    Mark::Plain
                };
            let ms = m.polling.interval_ms;
            &&& e.contains(item(main, IDM_APPEARANCE, "Appearance..."@, Mark::Plain))
            &&& e.contains(item(main, IDM_REFRESH, s.refresh@, Mark::Plain))
            &&& e.contains(item(freq, IDM_FREQ_1MIN, s.one_minute@, mark(ms == 60_000)))
            &&& e.contains(item(freq, IDM_FREQ_5MIN, s.five_minutes@, mark(ms == 300_000)))
            &&& e.contains(item(freq, IDM_FREQ_15MIN, s.fifteen_minutes@, mark(ms == 900_000)))
            &&& e.contains(item(freq, IDM_FREQ_1HOUR, s.one_hour@, mark(ms == 3_600_000)))
            &&& e.contains(
                item(models, IDM_MODEL_CLAUDE_CODE, s.claude_code_model@, mark(m.claude.shown)),
            )
            &&& e.contains(item(models, IDM_MODEL_CODEX, s.codex_model@, mark(m.codex.shown)))
            &&& e.contains(
                item(
                    models,
                    IDM_MODEL_ANTIGRAVITY,
                    s.antigravity_model@,
                    mark(m.antigravity.shown),
                ),
            )
            &&& e.contains(
                item(sets, IDM_START_WITH_WINDOWS, s.start_with_windows@, mark(startup)),
            )
            &&& e.contains(item(sets, IDM_RESET_POSITION, s.reset_position@, Mark::Plain))
            &&& e.contains(item(main, IDM_TOGGLE_WIDGET, s.show_widget@, mark(m.widget_visible)))
            &&& e.contains(item(main, IDM_EXIT, s.exit@, Mark::Plain))
            &&& e.contains(
                item(
                    sets,
                    IDM_VERSION_ACTION,
                    action_text(s, current, m.install_channel, m.update_status),
                    if m.update_status is Checking || m.update_status is Applying {
                        Mark::Grayed
                    } else {
                        Mark::Plain
                    },
                ),
            )
            &&& e.contains(MenuEntry::Submenu { part: freq, label: s.update_frequency@ })
            &&& e.contains(MenuEntry::Submenu { part: models, label: s.models@ })
            &&& e.contains(MenuEntry::Submenu { part: sets, label: s.settings@ })
            &&& e.len() == 20
        }),
{
    let c = choices_of(Some(m));
    let e = menu_entries(c, s, current, startup);
    assert(e[0]->Item_id == IDM_APPEARANCE);
    assert(e[2]->Item_id == IDM_REFRESH);
    assert(e[3] == frequency_entries(c, s)[0]);
    assert(e[4] == frequency_entries(c, s)[1]);
    assert(e[5] == frequency_entries(c, s)[2]);
    assert(e[6] == frequency_entries(c, s)[3]);
    assert(e[7] == frequency_entries(c, s)[4]);
    assert(e[8] == model_entries(c, s)[0]);
    assert(e[9] == model_entries(c, s)[1]);
    assert(e[10] == model_entries(c, s)[2]);
    assert(e[11] == model_entries(c, s)[3]);
    assert(e[12] == setting_entries(c, s, current, startup)[0]);
    assert(e[13] == setting_entries(c, s, current, startup)[1]);
    assert(e[15] == setting_entries(c, s, current, startup)[3]);
    assert(e[16] == setting_entries(c, s, current, startup)[4]);
    assert(e[17]->Item_id == IDM_TOGGLE_WIDGET);
    assert(e[19]->Item_id == IDM_EXIT);
}

/// An update frequency that was chosen is the checked one when the menu is
/// opened again.
pub proof fn law_a_chosen_frequency_is_checked(
    m: Model,
    s: Strings,
    k: int,
    dpi: u32,
)
    requires
        0 <= k < 4,
    ensures
        ({
            let id = frequency_entries(choices_of(Some(m)), s)[k]->Item_id;
            let after = step(Some(m), Message::Command(id), dpi).state;
            frequency_entries(choices_of(after), s)[k]->Item_mark == Mark::Checked
        }),
{
}

/// A provider's entry is checked exactly while the provider is shown, so
/// choosing an unchecked one checks it.
pub proof fn law_a_chosen_provider_is_checked(m: Model, s: Strings, k: int, dpi: u32)
    requires
        0 <= k < 3,
        model_entries(choices_of(Some(m)), s)[k]->Item_mark == Mark::Plain,
    ensures
        ({
            let id = model_entries(choices_of(Some(m)), s)[k]->Item_id;
            let after = step(Some(m), Message::Command(id), dpi).state;
            model_entries(choices_of(after), s)[k]->Item_mark == Mark::Checked
        }),
{
}

/// Before there is a state the menu shows the first provider alone, polled
/// every fifteen minutes, in a shown widget.
pub proof fn law_the_menu_has_defaults()
    ensures
        ({
            let c = choices_of(None);
            &&& c.claude && !c.codex && !c.antigravity && c.visible
            &&& c.interval_ms == 900_000
            &&& c.channel == InstallChannel::Portable && c.status is Idle
        }),
{
}

} // verus!
