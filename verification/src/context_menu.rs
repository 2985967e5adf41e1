//! The menu of a right click: which items it has, in what order, and what clicking
//! one of them does.

use vstd::prelude::*;

verus! {

/// What an item does.
#[derive(Debug, PartialEq, Eq)]
pub enum ContextMenuAction {
    /// Copy the selection.
    Copy,
    /// Paste.
    Paste,
    /// Select everything in the pane.
    SelectAll,
    /// Open an address that was found in the text.
    OpenUrl(String),
    /// Open an address that the program attached to the text.
    OpenOsc8Url(String),
    /// Open a file.
    OpenFile(String),
    /// Run a command.
    RunCommand(String),
    /// Run a command in the background.
    RunCoprocess(String),
    /// Type a text.
    SendText(String),
    /// Run a command in a tab of its own.
    RunCommandInWindow(String),
    /// Copy a text.
    CopyText(String),
    /// Copy the address that the program attached to the text.
    CopyHyperlinkAddress(String),
}

impl ContextMenuAction {
    /// Whether the action is not one of the three at the head of the menu.
    pub open spec fn opens(self) -> bool {
        !(self is Copy || self is Paste || self is SelectAll)
    }

    /// Whether the action is not one of the three at the head of the menu.
    fn is_open_group(&self) -> (r: bool)
        ensures
            r == self.opens(),
    {
        match self {
            ContextMenuAction::Copy => false,
            ContextMenuAction::Paste => false,
            ContextMenuAction::SelectAll => false,
            _ => true,
        }
    }

    /// The same action again.
    pub fn same(&self) -> (r: Self)
        ensures
            r == *self,
    {
        match self {
            ContextMenuAction::Copy => ContextMenuAction::Copy,
            ContextMenuAction::Paste => ContextMenuAction::Paste,
            ContextMenuAction::SelectAll => ContextMenuAction::SelectAll,
            ContextMenuAction::OpenUrl(text) => ContextMenuAction::OpenUrl(text.clone()),
            ContextMenuAction::OpenOsc8Url(text) => ContextMenuAction::OpenOsc8Url(text.clone()),
            ContextMenuAction::OpenFile(text) => ContextMenuAction::OpenFile(text.clone()),
            ContextMenuAction::RunCommand(text) => ContextMenuAction::RunCommand(text.clone()),
            ContextMenuAction::RunCoprocess(text) => ContextMenuAction::RunCoprocess(text.clone()),
            ContextMenuAction::SendText(text) => ContextMenuAction::SendText(text.clone()),
            ContextMenuAction::RunCommandInWindow(text) => {
                ContextMenuAction::RunCommandInWindow(text.clone())
            },
            ContextMenuAction::CopyText(text) => ContextMenuAction::CopyText(text.clone()),
            ContextMenuAction::CopyHyperlinkAddress(text) => {
                ContextMenuAction::CopyHyperlinkAddress(text.clone())
            },
        }
    }
}

/// An item: its name, what it does, and whether it can be clicked.
#[derive(Debug, PartialEq, Eq)]
pub struct MenuItem {
    pub label: String,
    pub action: ContextMenuAction,
    pub enabled: bool,
}

/// What was under a right click.
#[derive(Debug, PartialEq, Eq)]
pub struct ContextMenuRequest {
    /// Whether something is selected.
    pub has_selection: bool,
    /// An address that was found in the text.
    pub url: Option<String>,
    /// A file that was found in the text.
    pub file_path: Option<String>,
    /// Items for what was found by rules of the user's own.
    pub smart_actions: Vec<MenuItem>,
    /// An address that the program attached to the text. It goes before one that was
    /// found in the text.
    pub osc8_uri: Option<String>,
}

impl Default for ContextMenuRequest {
    /// A right click on nothing.
    fn default() -> (r: Self)
        ensures
            !r.has_selection,
            r.url is None,
            r.file_path is None,
            r.smart_actions@ == Seq::<MenuItem>::empty(),
            r.osc8_uri is None,
    {
        ContextMenuRequest {
            has_selection: false,
            url: None,
            file_path: None,
            smart_actions: Vec::new(),
            osc8_uri: None,
        }
    }
}

/// What an item amounts to.
pub open spec fn row(item: MenuItem) -> (Seq<char>, ContextMenuAction, bool) {
    (item.label@, item.action, item.enabled)
}

/// What items amount to.
pub open spec fn rows(items: Seq<MenuItem>) -> Seq<(Seq<char>, ContextMenuAction, bool)> {
    Seq::new(items.len(), |i: int| row(items[i]))
}

/// The items at the head of every menu.
pub open spec fn head_rows(has_selection: bool) -> Seq<(Seq<char>, ContextMenuAction, bool)> {
    seq![
        ("Copy"@, ContextMenuAction::Copy, has_selection),
        ("Paste"@, ContextMenuAction::Paste, true),
        ("Select All"@, ContextMenuAction::SelectAll, true),
    ]
}

/// The item that opens an address: the one that the program attached, or else one
/// that was found in the text.
pub open spec fn url_rows(request: ContextMenuRequest) -> Seq<
    (Seq<char>, ContextMenuAction, bool),
> {
    match (request.osc8_uri, request.url) {
        (Some(uri), _) => seq![("Open URL"@, ContextMenuAction::OpenOsc8Url(uri), true)],
        (None, Some(url)) => seq![("Open URL"@, ContextMenuAction::OpenUrl(url), true)],
        (None, None) => Seq::empty(),
    }
}

/// The item that opens a file.
pub open spec fn file_rows(request: ContextMenuRequest) -> Seq<
    (Seq<char>, ContextMenuAction, bool),
> {
    match request.file_path {
        Some(path) => seq![("Open File"@, ContextMenuAction::OpenFile(path), true)],
        None => Seq::empty(),
    }
}

/// The item that copies the address that the program attached.
pub open spec fn address_rows(request: ContextMenuRequest) -> Seq<
    (Seq<char>, ContextMenuAction, bool),
> {
    match request.osc8_uri {
        Some(uri) => seq![
            ("Copy hyperlink address"@, ContextMenuAction::CopyHyperlinkAddress(uri), true),
        ],
        None => Seq::empty(),
    }
}

/// The items of a menu.
pub open spec fn menu_rows(request: ContextMenuRequest) -> Seq<
    (Seq<char>, ContextMenuAction, bool),
> {
    head_rows(request.has_selection) + url_rows(request) + file_rows(request) + address_rows(
        request,
    ) + rows(request.smart_actions@)
}

fn add_item(items: &mut Vec<MenuItem>, label: &str, action: ContextMenuAction, enabled: bool)
    ensures
        rows(final(items)@) == rows(old(items)@).push((label@, action, enabled)),
{
    items.push(MenuItem { label: label.to_owned(), action, enabled });
    proof {
        assert(rows(items@) =~= rows(old(items)@).push((label@, action, enabled)));
    }
}

/// The items of a menu.
pub fn build_menu_items(request: ContextMenuRequest) -> (r: Vec<MenuItem>)
    ensures
        rows(r@) == menu_rows(request),
{
    let ghost asked = request;
    let ContextMenuRequest { has_selection, url, file_path, mut smart_actions, osc8_uri } =
        request;
    let mut items: Vec<MenuItem> = Vec::new();
    add_item(&mut items, "Copy", ContextMenuAction::Copy, has_selection);
    add_item(&mut items, "Paste", ContextMenuAction::Paste, true);
    add_item(&mut items, "Select All", ContextMenuAction::SelectAll, true);
    proof {
        assert(rows(items@) =~= head_rows(has_selection));
    }
    if let Some(uri) = &osc8_uri {
        add_item(&mut items, "Open URL", ContextMenuAction::OpenOsc8Url(uri.clone()), true);
    } else if let Some(address) = url {
        add_item(&mut items, "Open URL", ContextMenuAction::OpenUrl(address), true);
    }
    proof {
        assert(rows(items@) =~= head_rows(has_selection) + url_rows(asked));
    }
    if let Some(path) = file_path {
        add_item(&mut items, "Open File", ContextMenuAction::OpenFile(path), true);
    }
    proof {
        assert(rows(items@) =~= head_rows(has_selection) + url_rows(asked) + file_rows(asked));
    }
    if let Some(uri) = osc8_uri {
        add_item(
            &mut items,
            "Copy hyperlink address",
            ContextMenuAction::CopyHyperlinkAddress(uri),
            true,
        );
    }
    let ghost before = rows(items@);
    let ghost more = smart_actions@;
    items.append(&mut smart_actions);
    proof {
        assert(rows(items@) =~= before + rows(more));
        assert(rows(items@) =~= menu_rows(asked));
    }
    items
}

/// What a rule of the user's own does with what it found.
#[derive(Debug, Clone, Copy, PartialEq, Eq, Structural)]
pub enum SmartSelectionActionKind {
    OpenFile,
    OpenUrl,
    RunCommand,
    RunCoprocess,
    SendText,
    RunCommandInWindow,
    Copy,
}

/// A rule of the user's own, with what it found put into it.
#[derive(Debug, PartialEq, Eq)]
pub struct ResolvedSmartSelectionAction {
    pub label: String,
    pub kind: SmartSelectionActionKind,
    pub parameter: String,
}

/// The action for a rule of the user's own.
pub open spec fn smart_action(
    kind: SmartSelectionActionKind,
    parameter: String,
) -> ContextMenuAction {
    match kind {
        SmartSelectionActionKind::OpenFile => ContextMenuAction::OpenFile(parameter),
        SmartSelectionActionKind::OpenUrl => ContextMenuAction::OpenUrl(parameter),
        SmartSelectionActionKind::RunCommand => ContextMenuAction::RunCommand(parameter),
        SmartSelectionActionKind::RunCoprocess => ContextMenuAction::RunCoprocess(parameter),
        SmartSelectionActionKind::SendText => ContextMenuAction::SendText(parameter),
        SmartSelectionActionKind::RunCommandInWindow => {
            ContextMenuAction::RunCommandInWindow(parameter)
        },
        SmartSelectionActionKind::Copy => ContextMenuAction::CopyText(parameter),
    }
}

/// The action for a rule of the user's own.
pub fn smart_selection_context_action(kind: SmartSelectionActionKind, parameter: String) -> (r:
    ContextMenuAction)
    ensures
        r == smart_action(kind, parameter),
{
    match kind {
        SmartSelectionActionKind::OpenFile => ContextMenuAction::OpenFile(parameter),
        SmartSelectionActionKind::OpenUrl => ContextMenuAction::OpenUrl(parameter),
        SmartSelectionActionKind::RunCommand => ContextMenuAction::RunCommand(parameter),
        SmartSelectionActionKind::RunCoprocess => ContextMenuAction::RunCoprocess(parameter),
        SmartSelectionActionKind::SendText => ContextMenuAction::SendText(parameter),
        SmartSelectionActionKind::RunCommandInWindow => {
            ContextMenuAction::RunCommandInWindow(parameter)
        },
        SmartSelectionActionKind::Copy => ContextMenuAction::CopyText(parameter),
    }
}

/// The item for a rule of the user's own; there is none where its parameter is
/// empty.
pub fn smart_selection_menu_item(action: ResolvedSmartSelectionAction) -> (r: Option<MenuItem>)
    ensures
        r == if action.parameter@.len() == 0 {
            None
        } else {
            Some(
                MenuItem {
                    label: action.label,
                    action: smart_action(action.kind, action.parameter),
                    enabled: true,
                },
            )
        },
{
    if action.parameter.as_str().is_empty() {
        return None;
    }
    Some(
        MenuItem {
            label: action.label,
            action: smart_selection_context_action(action.kind, action.parameter),
            enabled: true,
        },
    )
}

/// What the menu tells its window.
#[derive(Debug, PartialEq, Eq)]
pub enum ContextMenuEvent {
    /// An item was clicked.
    Selected(ContextMenuAction),
    /// The menu was closed without a choice.
    Dismissed,
}

/// The menu.
#[derive(Debug)]
pub struct ContextMenuView {
    pub items: Vec<MenuItem>,
}

/// A row of the menu as it is seen.
#[derive(Debug, Clone, Copy, PartialEq, Eq, Structural)]
pub enum MenuRow {
    /// A line between the head and the rest.
    Divider,
    /// The item at a place.
    Item { index: usize, enabled: bool },
}

/// The rows of the first items: an item each, and a divider before the first that is
/// not one of the head's.
pub open spec fn seen_rows(items: Seq<MenuItem>) -> Seq<MenuRow>
    decreases items.len(),
{
    if items.len() == 0 {
        Seq::empty()
    } else {
        let rest = seen_rows(items.drop_last());
        let item = MenuRow::Item {
            index: (items.len() - 1) as usize,
            enabled: items.last().enabled,
        };
        if items.last().action.opens() && !any_opens(items.drop_last()) {
            rest.push(MenuRow::Divider).push(item)
        } else {
            rest.push(item)
        }
    }
}

/// Whether one of the items is not one of the head's.
pub open spec fn any_opens(items: Seq<MenuItem>) -> bool {
    exists|i: int| 0 <= i < items.len() && (#[trigger] items[i]).action.opens()
}

impl ContextMenuView {
    /// The menu for a right click.
    pub fn new(request: ContextMenuRequest) -> (r: Self)
        ensures
            rows(r.items@) == menu_rows(request),
    {
        ContextMenuView { items: build_menu_items(request) }
    }

    /// The items.
    pub fn items(&self) -> (r: &[MenuItem])
        ensures
            r@ == self.items@,
    {
        self.items.as_slice()
    }

    /// The item at a place is clicked. Where there is none, or it cannot be clicked,
    /// nothing happens.
    pub fn activate(&self, index: usize) -> (r: Option<ContextMenuEvent>)
        ensures
            r == if index < self.items@.len() && self.items@[index as int].enabled {
                Some(ContextMenuEvent::Selected(self.items@[index as int].action))
            } else {
                None
            },
    {
        if index < self.items.len() && self.items[index].enabled {
            Some(ContextMenuEvent::Selected(self.items[index].action.same()))
        } else {
            None
        }
    }

    /// The menu is closed without a choice.
    pub fn dismiss(&mut self) -> (r: ContextMenuEvent)
        ensures
            r == ContextMenuEvent::Dismissed,
            final(self).items@ == Seq::<MenuItem>::empty(),
    {
        self.items = Vec::new();
        ContextMenuEvent::Dismissed
    }

    /// The rows of the menu as they are seen.
    pub fn render(&self) -> (r: Vec<MenuRow>)
        ensures
            r@ == seen_rows(self.items@),
    {
        let mut out: Vec<MenuRow> = Vec::new();
        let mut opened = false;
        let mut i: usize = 0;
        proof {
            assert(out@ =~= seen_rows(self.items@.take(0)));
        }
        while i < self.items.len()
            invariant
                i <= self.items@.len(),
                out@ == seen_rows(self.items@.take(i as int)),
                opened == any_opens(self.items@.take(i as int)),
            decreases self.items@.len() - i,
        {
            let ghost before = self.items@.take(i as int);
            let ghost after = self.items@.take(i + 1);
            proof {
                assert(after.drop_last() =~= before);
                assert(after.last() == self.items@[i as int]);
            }
            if self.items[i].action.is_open_group() {
                if !opened {
                    out.push(MenuRow::Divider);
                    opened = true;
                }
                proof {
                    assert(after[i as int].action.opens());
                    assert(any_opens(after));
                }
            } else {
                proof {
                    if opened {
                        let k = choose|k: int|
                            0 <= k < before.len() && (#[trigger] before[k]).action.opens();
                        assert(after[k].action.opens());
                    } else {
                        assert forall|k: int| 0 <= k < after.len() implies !(
                        #[trigger] after[k]).action.opens() by {
                            if k < i {
                                assert(after[k] == before[k]);
                            }
                        }
                    }
                }
            }
            out.push(MenuRow::Item { index: i, enabled: self.items[i].enabled });
            i += 1;
        }
        proof {
            assert(self.items@.take(self.items@.len() as int) =~= self.items@);
        }
        out
    }
}

/// An address that the program attached always goes before one that was found in the
/// text, and brings an item of its own.
pub proof fn attached_addresses_go_first(request: ContextMenuRequest)
    requires
        request.osc8_uri is Some,
    ensures
        menu_rows(request)[3] == ("Open URL"@, ContextMenuAction::OpenOsc8Url(
            request.osc8_uri->0,
        ), true),
        menu_rows(request).contains(
            (
                "Copy hyperlink address"@,
                ContextMenuAction::CopyHyperlinkAddress(request.osc8_uri->0),
                true,
            ),
        ),
        forall|url: Option<String>|
            menu_rows(#[trigger] with_url(request, url)) == menu_rows(request),
{
    let n = 4 + file_rows(request).len();
    assert(menu_rows(request)[n as int] == (
        "Copy hyperlink address"@,
        ContextMenuAction::CopyHyperlinkAddress(request.osc8_uri->0),
        true,
    ));
}

/// A right click with another address found in the text.
pub open spec fn with_url(
    request: ContextMenuRequest,
    url: Option<String>,
) -> ContextMenuRequest {
    ContextMenuRequest { url, ..request }
}

/// Every menu begins with Copy, Paste and Select All; of these, only Copy can be out
/// of use, and it is where nothing is selected.
pub proof fn every_menu_has_its_head(request: ContextMenuRequest)
    ensures
        menu_rows(request).len() >= 3,
        menu_rows(request).take(3) == head_rows(request.has_selection),
{
    assert(menu_rows(request).take(3) =~= head_rows(request.has_selection));
}

/// A menu has one divider where it has more than its head, and none otherwise.
pub proof fn one_divider_at_most(items: Seq<MenuItem>)
    ensures
        seen_rows(items).len() == items.len() + (if any_opens(items) {
            1int
        } else {
            0
        }),
    decreases items.len(),
{
    if items.len() > 0 {
        let rest = items.drop_last();
        one_divider_at_most(rest);
        if any_opens(rest) {
            let k = choose|k: int| 0 <= k < rest.len() && (#[trigger] rest[k]).action.opens();
            assert(items[k].action.opens());
        } else if items.last().action.opens() {
            assert(items[items.len() - 1].action.opens());
        } else {
            assert forall|k: int| 0 <= k < items.len() implies !(
            #[trigger] items[k]).action.opens() by {
                if k < rest.len() {
                    assert(items[k] == rest[k]);
                }
            }
        }
    }
}

/// The head of a menu: copying needs a selection, pasting and selecting all do not.
pub proof fn copying_needs_a_selection(request: ContextMenuRequest)
    ensures
        menu_rows(request)[0] == ("Copy"@, ContextMenuAction::Copy, request.has_selection),
        menu_rows(request)[1] == ("Paste"@, ContextMenuAction::Paste, true),
        menu_rows(request)[2] == ("Select All"@, ContextMenuAction::SelectAll, true),
{
}

/// After the head come the address, the file and the attached address, as far as there is
/// any, and then what the user's own rules found, in order; and nothing else does.
pub proof fn menus_offer_what_was_found(request: ContextMenuRequest, i: int)
    ensures
        ({
            let all = menu_rows(request);
            let some = |b: bool|
                if b {
                    1int
                } else {
                    0
                };
            let url = some(request.osc8_uri is Some || request.url is Some);
            let file = some(request.file_path is Some);
            let address = some(request.osc8_uri is Some);
            let smart = 3 + url + file + address;
            &&& all.len() == smart + request.smart_actions@.len()
            &&& request.osc8_uri is None && request.url is Some ==> all[3] == (
                "Open URL"@,
                ContextMenuAction::OpenUrl(request.url->0),
                true,
            )
            &&& request.osc8_uri is Some ==> all[3] == (
                "Open URL"@,
                ContextMenuAction::OpenOsc8Url(request.osc8_uri->0),
                true,
            )
            &&& request.file_path is Some ==> all[3 + url] == (
                "Open File"@,
                ContextMenuAction::OpenFile(request.file_path->0),
                true,
            )
            &&& request.osc8_uri is Some ==> all[3 + url + file] == (
                "Copy hyperlink address"@,
                ContextMenuAction::CopyHyperlinkAddress(request.osc8_uri->0),
                true,
            )
            &&& 0 <= i < request.smart_actions@.len() ==> all[smart + i] == (
                request.smart_actions@[i].label@,
                request.smart_actions@[i].action,
                request.smart_actions@[i].enabled,
            )
        }),
{
}

/// What an item of the user's own rules does is what the rule says, with the text that was
/// found.
pub proof fn rules_do_what_they_say(kind: SmartSelectionActionKind, parameter: String)
    ensures
        match smart_action(kind, parameter) {
            ContextMenuAction::OpenFile(p) => kind == SmartSelectionActionKind::OpenFile && p
                == parameter,
            ContextMenuAction::OpenUrl(p) => kind == SmartSelectionActionKind::OpenUrl && p
                == parameter,
            ContextMenuAction::RunCommand(p) => kind == SmartSelectionActionKind::RunCommand && p
                == parameter,
            ContextMenuAction::RunCoprocess(p) => kind == SmartSelectionActionKind::RunCoprocess
                && p == parameter,
            ContextMenuAction::SendText(p) => kind == SmartSelectionActionKind::SendText && p
                == parameter,
            ContextMenuAction::RunCommandInWindow(p) => kind
                == SmartSelectionActionKind::RunCommandInWindow && p == parameter,
            ContextMenuAction::CopyText(p) => kind == SmartSelectionActionKind::Copy && p
                == parameter,
            _ => false,
        },
{
}

/// The items are seen in order, each as enabled as it is. The one divider stands right
/// before the first that opens something.
pub proof fn the_divider_parts_head_and_rest(items: Seq<MenuItem>, item: MenuItem)
    requires
        items.len() < usize::MAX,
    ensures
        ({
            let seen = MenuRow::Item { index: items.len() as usize, enabled: item.enabled };
            let opens = |i: MenuItem|
                !(i.action is Copy) && !(i.action is Paste) && !(i.action is SelectAll);
            seen_rows(items.push(item)) == if opens(item) && (forall|k: int|
                0 <= k < items.len() ==> !opens(#[trigger] items[k])) {
                seen_rows(items).push(MenuRow::Divider).push(seen)
            } else {
                seen_rows(items).push(seen)
            }
        }),
{
    assert(items.push(item).drop_last() =~= items);
    if any_opens(items) {
        let k = choose|k: int| 0 <= k < items.len() && (#[trigger] items[k]).action.opens();
        assert(items[k].action.opens());
    }
}

/// A row does what it says where it can be chosen, and nothing where it cannot.
pub proof fn rows_do_what_they_say(
    menu: &ContextMenuView,
    index: usize,
    r: Option<ContextMenuEvent>,
)
    requires
        call_ensures(ContextMenuView::activate, (menu, index), r),
    ensures
        index >= menu.items@.len() ==> r is None,
        index < menu.items@.len() ==> (r is Some <==> menu.items@[index as int].enabled),
        r matches Some(event) ==> event == ContextMenuEvent::Selected(
            menu.items@[index as int].action,
        ),
{
}

/// What was found is offered under its own label where it says what to do with it.
pub proof fn findings_are_offered(action: ResolvedSmartSelectionAction, r: Option<MenuItem>)
    requires
        call_ensures(smart_selection_menu_item, (action,), r),
    ensures
        r is Some <==> action.parameter@.len() > 0,
        r matches Some(item) ==> item.enabled && item.label == action.label && item.action
            == smart_action(action.kind, action.parameter),
{
}

} // verus!
