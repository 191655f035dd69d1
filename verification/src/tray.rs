//! The tray presence: the menu's items, the two texts of its toggle item, and
//! the clicks on the tray icon that bring the main window back.

use vstd::prelude::*;
use vstd::string::StrSliceExecFns;

verus! {

/// The identifier under which the host registers the tray icon.
pub const TRAY_ID: &'static str = "main-tray";

/// The tooltip of the tray icon.
pub const TRAY_TOOLTIP: &'static str = "PauseTime";

/// The name of the notification that tells the frontend that the user asked
/// for a toggle. It carries no payload.
pub const TOGGLE_EVENT: &'static str = "tray-toggle";

/// Whether two strings hold the same characters.
pub fn same_text(a: &str, b: &str) -> (r: bool)
    ensures
        r == (a@ == b@),
{
    let n = a.unicode_len();
    if n != b.unicode_len() {
        return false;
    }
    let mut i: usize = 0;
    while i < n
        invariant
            n == a@.len(),
            n == b@.len(),
            i <= n,
            forall|j: int| 0 <= j < i ==> a@[j] == b@[j],
        decreases n - i,
    {
        if a.get_char(i) != b.get_char(i) {
            return false;
        }
        i += 1;
    }
    assert(a@ =~= b@);
    true
}

/// The two texts that the toggle item shows. The text names what a click will
/// do: while the reminders are enabled it offers to disable them, and while
/// they are disabled it offers to activate them.
#[derive(Clone, Copy, Debug, PartialEq, Eq, Structural)]
pub enum ToggleLabel {
    /// "Devre Dışı Bırak": the reminders are enabled.
    Disable,
    /// "Aktif Et": the reminders are disabled.
    Activate,
}

impl ToggleLabel {
    /// The label for the frontend's state.
    pub open spec fn spec_for_state(is_disabled: bool) -> ToggleLabel {
        if is_disabled {
            ToggleLabel::Activate
        } else {
            ToggleLabel::Disable
        }
    }

    /// The label for the frontend's state: "activate" while the reminders are
    /// disabled, "disable" otherwise.
    pub fn for_state(is_disabled: bool) -> (r: ToggleLabel)
        ensures
            r == Self::spec_for_state(is_disabled),
    {
        if is_disabled {
            ToggleLabel::Activate
        } else {
            ToggleLabel::Disable
        }
    }

    /// The displayed text of the label.
    pub open spec fn spec_text(self) -> Seq<char> {
        match self {
            ToggleLabel::Disable => "Devre Dışı Bırak"@,
            ToggleLabel::Activate => "Aktif Et"@,
        }
    }

    /// The displayed text of the label.
    pub fn text(self) -> (r: &'static str)
        ensures
            r@ == self.spec_text(),
    {
        match self {
            ToggleLabel::Disable => "Devre Dışı Bırak",
            ToggleLabel::Activate => "Aktif Et",
        }
    }
}

/// The items of the tray menu, in the order in which the menu shows them.
#[derive(Clone, Copy, Debug, PartialEq, Eq, Structural)]
pub enum MenuItemId {
    /// Brings the main window back.
    Show,
    /// Asks the frontend to enable or disable the reminders.
    Toggle,
    /// Ends the application.
    Quit,
}

impl MenuItemId {
    /// The identifier under which the item is registered with the menu.
    pub open spec fn spec_id(self) -> Seq<char> {
        match self {
            MenuItemId::Show => "show"@,
            MenuItemId::Toggle => "toggle"@,
            MenuItemId::Quit => "quit"@,
        }
    }

    /// The identifier under which the item is registered with the menu.
    pub fn id(self) -> (r: &'static str)
        ensures
            r@ == self.spec_id(),
    {
        match self {
            MenuItemId::Show => "show",
            MenuItemId::Toggle => "toggle",
            MenuItemId::Quit => "quit",
        }
    }

    /// The item that an identifier names, if it names one.
    pub open spec fn spec_parse(id: Seq<char>) -> Option<MenuItemId> {
        if id == "show"@ {
            Some(MenuItemId::Show)
        } else if id == "toggle"@ {
            Some(MenuItemId::Toggle)
        } else if id == "quit"@ {
            Some(MenuItemId::Quit)
        } else {
            None
        }
    }

    /// The item that the identifier of a menu click names. An identifier of no
    /// item of the tray menu gives `None`.
    pub fn parse(id: &str) -> (r: Option<MenuItemId>)
        ensures
            r == Self::spec_parse(id@),
    {
        if same_text(id, "show") {
            Some(MenuItemId::Show)
        } else if same_text(id, "toggle") {
            Some(MenuItemId::Toggle)
        } else if same_text(id, "quit") {
            Some(MenuItemId::Quit)
        } else {
            None
        }
    }

    /// The text that the item shows when the menu is built.
    pub open spec fn spec_initial_text(self) -> Seq<char> {
        match self {
            MenuItemId::Show => "Aç"@,
            MenuItemId::Toggle => ToggleLabel::Disable.spec_text(),
            MenuItemId::Quit => "Çıkış"@,
        }
    }

    /// The text that the item shows when the menu is built. Only the toggle
    /// item's text changes afterwards.
    pub fn initial_text(self) -> (r: &'static str)
        ensures
            r@ == self.spec_initial_text(),
    {
        match self {
            MenuItemId::Show => "Aç",
            MenuItemId::Toggle => ToggleLabel::Disable.text(),
            MenuItemId::Quit => "Çıkış",
        }
    }
}

/// What the host needs to create one item of the tray menu.
#[derive(Clone, Copy, Debug, PartialEq, Eq)]
pub struct MenuEntry {
    pub item: MenuItemId,
    pub id: &'static str,
    pub text: &'static str,
    pub enabled: bool,
}

impl MenuEntry {
    /// Whether the entry describes `item` as the menu first shows it.
    pub open spec fn describes(self, item: MenuItemId) -> bool {
        &&& self.item == item
        &&& self.id@ == item.spec_id()
        &&& self.text@ == item.spec_initial_text()
        &&& self.enabled
    }

    /// The entry of `item` as the menu first shows it.
    pub fn of(item: MenuItemId) -> (r: MenuEntry)
        ensures
            r.describes(item),
    {
        MenuEntry { item, id: item.id(), text: item.initial_text(), enabled: true }
    }
}

/// The tray menu as it is built at startup: the three items, all enabled, in
/// the order show, toggle, quit.
pub fn tray_menu() -> (r: Vec<MenuEntry>)
    ensures
        r@.len() == 3,
        r@[0].describes(MenuItemId::Show),
        r@[1].describes(MenuItemId::Toggle),
        r@[2].describes(MenuItemId::Quit),
{
    let mut menu: Vec<MenuEntry> = Vec::new();
    menu.push(MenuEntry::of(MenuItemId::Show));
    menu.push(MenuEntry::of(MenuItemId::Toggle));
    menu.push(MenuEntry::of(MenuItemId::Quit));
    menu
}

/// A button of the pointing device.
#[derive(Clone, Copy, Debug, PartialEq, Eq, Structural)]
pub enum MouseButton {
    Left,
    Right,
    Middle,
}

/// Whether a button went down or came up.
#[derive(Clone, Copy, Debug, PartialEq, Eq, Structural)]
pub enum MouseButtonState {
    Up,
    Down,
}

/// What happened to the tray icon itself, as far as the shell tells events
/// apart. Clicks on the menu are not among them.
#[derive(Clone, Copy, Debug, PartialEq, Eq, Structural)]
pub enum TrayIconEvent {
    /// A button was pressed or released over the icon.
    Click { button: MouseButton, button_state: MouseButtonState },
    /// Anything else: a double click, the pointer entering, moving or leaving.
    Other,
}

impl TrayIconEvent {
    /// Whether the event brings the main window back: only the release of the
    /// left button does.
    pub open spec fn reopens_window(self) -> bool {
        self == (TrayIconEvent::Click {
            button: MouseButton::Left,
            button_state: MouseButtonState::Up,
        })
    }

    /// Whether the event brings the main window back: only the release of the
    /// left button does.
    pub fn opens_window(self) -> (r: bool)
        ensures
            r == self.reopens_window(),
    {
        match self {
            TrayIconEvent::Click { button: MouseButton::Left, button_state: MouseButtonState::Up } => true,
            _ => false,
        }
    }
}

/// The two texts of the toggle item differ, so the text tells which state the
/// frontend last reported.
pub proof fn lemma_toggle_texts_differ()
    ensures
        ToggleLabel::Disable.spec_text() != ToggleLabel::Activate.spec_text(),
{
    reveal_strlit("Devre Dışı Bırak");
    reveal_strlit("Aktif Et");
    assert(ToggleLabel::Disable.spec_text().len() == 16);
    assert(ToggleLabel::Activate.spec_text().len() == 8);
}

/// Every item is found again by its identifier: the identifiers are stable
/// and no two items share one.
pub proof fn lemma_parse_finds_item(item: MenuItemId)
    ensures
        MenuItemId::spec_parse(item.spec_id()) == Some(item),
{
    reveal_strlit("show");
    reveal_strlit("toggle");
    reveal_strlit("quit");
    assert("show"@.len() == 4);
    assert("toggle"@.len() == 6);
    assert("quit"@[0] == 'q');
    assert("show"@[0] == 's');
}

} // verus!
