//! The commands of the tray menu and their identifiers.

use crate::text::str_eq;
use std::str::FromStr;
use vstd::prelude::*;

verus! {

/// The error of `strum` for a string that names no variant. It has a single
/// value, `VariantNotFound`.
#[verifier::external_type_specification]
#[verifier::external_body]
pub struct ExParseError(strum::ParseError);

/// A command that the user can pick from the tray menu.
#[derive(Debug, Clone, Copy, PartialEq, Eq, Structural)]
pub enum TrayMessage {
    /// Stop the wrapped command.
    Kill,
    /// Show the directory that holds the logs.
    ShowLogs,
}

/// The label under which a command is shown. It is also the identifier that
/// the menu hands back when the command is picked.
pub open spec fn label_of(msg: TrayMessage) -> Seq<char> {
    match msg {
        TrayMessage::Kill => "Kill"@,
        TrayMessage::ShowLogs => "Show Logs"@,
    }
}

/// The command that an identifier stands for, if any.
pub open spec fn decoded(id: Seq<char>) -> Option<TrayMessage> {
    if id == label_of(TrayMessage::Kill) {
        Some(TrayMessage::Kill)
    } else if id == label_of(TrayMessage::ShowLogs) {
        Some(TrayMessage::ShowLogs)
    } else {
        None
    }
}

/// All commands, in the order of the menu.
pub open spec fn all_messages() -> Seq<TrayMessage> {
    seq![TrayMessage::Kill, TrayMessage::ShowLogs]
}

/// What `strum::ParseError` says of itself when it is displayed.
pub open spec fn variant_not_found_text() -> Seq<char> {
    "Matching variant not found"@
}

/// Builds `strum::ParseError::VariantNotFound`, the one value of the type.
/// Nothing is claimed of it.
#[verifier::external_body]
fn variant_not_found() -> strum::ParseError {
    strum::ParseError::VariantNotFound
}

/// The text that `strum::ParseError` displays, taken through `to_string`.
/// The type has one value, and its `Display` writes the same words for it
/// each time: the contract claims that these words come back.
#[verifier::external_body]
pub(crate) fn parse_error_text(err: &strum::ParseError) -> (text: String)
    ensures
        text@ == variant_not_found_text(),
{
    err.to_string()
}

impl TrayMessage {
    /// The display label of the command.
    pub fn label(&self) -> (text: &'static str)
        ensures
            text@ == label_of(*self),
    {
        match self {
            TrayMessage::Kill => "Kill",
            TrayMessage::ShowLogs => "Show Logs",
        }
    }

    /// All commands, in the order of the menu.
    pub fn variants() -> (all: Vec<TrayMessage>)
        ensures
            all@ == all_messages(),
    {
        let mut all: Vec<TrayMessage> = Vec::new();
        all.push(TrayMessage::Kill);
        all.push(TrayMessage::ShowLogs);
        assert(all@ =~= all_messages());
        all
    }
}

impl FromStr for TrayMessage {
    type Err = strum::ParseError;

    /// Decodes a menu identifier. Only the two labels are known; any other
    /// identifier is an error, never a default command.
    fn from_str(id: &str) -> (found: Result<Self, Self::Err>)
        ensures
            found is Ok <==> decoded(id@) is Some,
            found matches Ok(msg) ==> decoded(id@) == Some(msg),
    {
        if str_eq(id, TrayMessage::Kill.label()) {
            Ok(TrayMessage::Kill)
        } else if str_eq(id, TrayMessage::ShowLogs.label()) {
            Ok(TrayMessage::ShowLogs)
        } else {
            Err(variant_not_found())
        }
    }
}

/// An item of the tray menu.
#[derive(Debug, Clone, Copy, PartialEq, Eq)]
pub struct MenuEntry {
    /// The command that the item stands for.
    pub message: TrayMessage,
    /// The text shown to the user.
    pub text: &'static str,
    /// The identifier that the menu hands back when the item is picked.
    pub id: &'static str,
    /// Whether the item can be picked.
    pub enabled: bool,
}

/// The mathematical content of a [`MenuEntry`].
pub struct MenuEntryView {
    pub message: TrayMessage,
    pub text: Seq<char>,
    pub id: Seq<char>,
    pub enabled: bool,
}

impl View for MenuEntry {
    type V = MenuEntryView;

    open spec fn view(&self) -> MenuEntryView {
        MenuEntryView {
            message: self.message,
            text: self.text@,
            id: self.id@,
            enabled: self.enabled,
        }
    }
}

/// The menu item of a command: shown under its label, identified by its
/// label, and enabled.
pub open spec fn entry_of(msg: TrayMessage) -> MenuEntryView {
    MenuEntryView { message: msg, text: label_of(msg), id: label_of(msg), enabled: true }
}

/// The items of the tray menu: one for each command, in the order of
/// [`all_messages`].
pub fn menu_entries() -> (entries: Vec<MenuEntry>)
    ensures
        entries@.len() == all_messages().len(),
        forall|i: int|
            0 <= i < entries@.len() ==> (#[trigger] entries@[i])@ == entry_of(all_messages()[i]),
{
    let all = TrayMessage::variants();
    let mut entries: Vec<MenuEntry> = Vec::new();
    let mut i: usize = 0;
    while i < all.len()
        invariant
            all@ == all_messages(),
            i <= all@.len(),
            entries@.len() == i,
            forall|k: int| 0 <= k < i ==> (#[trigger] entries@[k])@ == entry_of(all_messages()[k]),
        decreases all@.len() - i,
    {
        let msg = all[i];
        entries.push(MenuEntry { message: msg, text: msg.label(), id: msg.label(), enabled: true });
        i += 1;
    }
    entries
}

/// The two labels, character by character.
pub proof fn labels_spelled_out()
    ensures
        label_of(TrayMessage::Kill) == seq!['K', 'i', 'l', 'l'],
        label_of(TrayMessage::ShowLogs) == seq!['S', 'h', 'o', 'w', ' ', 'L', 'o', 'g', 's'],
{
    reveal_strlit("Kill");
    reveal_strlit("Show Logs");
    assert(label_of(TrayMessage::Kill) =~= seq!['K', 'i', 'l', 'l']);
    assert(label_of(TrayMessage::ShowLogs) =~= seq!['S', 'h', 'o', 'w', ' ', 'L', 'o', 'g', 's']);
}

/// No two commands share a label.
pub proof fn labels_are_distinct(a: TrayMessage, b: TrayMessage)
    ensures
        label_of(a) == label_of(b) <==> a == b,
{
    labels_spelled_out();
    assert(label_of(TrayMessage::Kill).len() == 4);
    assert(label_of(TrayMessage::ShowLogs).len() == 9);
}

/// An identifier decodes to a command exactly if it is the label of that
/// command. So an identifier that is no command's label decodes to nothing:
/// there is no default command.
pub proof fn decoded_is_the_inverse_of_label(id: Seq<char>, msg: TrayMessage)
    ensures
        decoded(id) == Some(msg) <==> id == label_of(msg),
        decoded(id) is None <==> forall|other: TrayMessage| id != #[trigger] label_of(other),
{
    labels_are_distinct(TrayMessage::Kill, TrayMessage::ShowLogs);
    if decoded(id) is None {
        assert forall|other: TrayMessage| id != #[trigger] label_of(other) by {
            match other {
                TrayMessage::Kill => {},
                TrayMessage::ShowLogs => {},
            }
        }
    } else {
        assert(id == label_of(decoded(id)->Some_0));
    }
}

/// Going from a command to its label and back through the decoder gives the
/// command again, and with it the label.
pub proof fn label_round_trip(msg: TrayMessage)
    ensures
        decoded(label_of(msg)) == Some(msg),
        label_of(decoded(label_of(msg))->Some_0) == label_of(msg),
{
    decoded_is_the_inverse_of_label(label_of(msg), msg);
}

/// Every command stands in [`all_messages`], and exactly once.
pub proof fn all_messages_is_complete(msg: TrayMessage)
    ensures
        all_messages().contains(msg),
        all_messages().no_duplicates(),
{
    match msg {
        TrayMessage::Kill => {
            assert(all_messages()[0] == msg);
        },
        TrayMessage::ShowLogs => {
            assert(all_messages()[1] == msg);
        },
    }
}

/// Every item of the menu carries an identifier that decodes to the command
/// of that item.
pub proof fn menu_identifiers_decode(msg: TrayMessage)
    ensures
        decoded(entry_of(msg).id) == Some(entry_of(msg).message),
{
    label_round_trip(msg);
}

} // verus!
