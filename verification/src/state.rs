//! The states of a session, the keys it consumes, and the actions it asks
//! its surroundings to perform.

use vstd::prelude::*;
use crate::encryption::CryptoError;
use crate::input::{InputView, TextInput};
use crate::listing::{ListModel, ListView};
use crate::vault::{entry_views, EntryView, VaultEntry};

verus! {

/// A key press, as the presentation layer hands it in. `Char('#')` on the
/// password step of a wizard is the hot-key that generates a password.
#[derive(Debug, Clone, Copy, PartialEq, Eq)]
pub enum Key {
    Char(char),
    Backspace,
    Left,
    Right,
    Up,
    Down,
    Enter,
    Esc,
}

/// The selection in the list of actions of the start screen and the menu.
#[derive(Debug, PartialEq, Eq)]
pub struct MenuState {
    pub selected: usize,
}

/// The selection after a step down in a list of `max` items.
pub open spec fn menu_next(selected: usize, max: usize) -> usize {
    if selected < max - 1 {
        (selected + 1) as usize
    } else {
        selected
    }
}

/// The selection after a step up.
pub open spec fn menu_previous(selected: usize) -> usize {
    if selected > 0 {
        (selected - 1) as usize
    } else {
        selected
    }
}

impl MenuState {
    /// The selection on the first item.
    pub fn new() -> (r: Self)
        ensures
            r.selected == 0,
    {
        Self { selected: 0 }
    }

    /// Moves the selection one item down, unless it is on the last of the
    /// `max` items or behind it.
    pub fn next(&mut self, max: usize)
        requires
            max >= 1,
        ensures
            final(self).selected == menu_next(old(self).selected, max),
    {
        if self.selected < max - 1 {
            self.selected += 1;
        }
    }

    /// Moves the selection one item up, unless it is on the first.
    pub fn previous(&mut self)
        ensures
            final(self).selected == menu_previous(old(self).selected),
    {
        if self.selected > 0 {
            self.selected -= 1;
        }
    }
}

/// The number of actions on the start screen: login, register, exit.
pub const START_ITEMS: usize = 3;

/// The number of actions in the menu: create a vault, search, show all
/// vaults, log out.
pub const MENU_ITEMS: usize = 4;

/// A message shown for a while, with the time at which it was set, in
/// milliseconds.
#[derive(Debug, PartialEq, Eq)]
pub struct Notice {
    pub text: String,
    pub at_ms: u64,
}

pub struct NoticeView {
    pub text: Seq<char>,
    pub at_ms: u64,
}

impl View for Notice {
    type V = NoticeView;

    open spec fn view(&self) -> NoticeView {
        NoticeView { text: self.text@, at_ms: self.at_ms }
    }
}

/// A decrypted secret as the detail view holds it. Where decryption failed,
/// `failure` says why and the text is `ERR`.
#[derive(Debug, PartialEq, Eq)]
pub struct Secret {
    pub text: String,
    pub failure: Option<CryptoError>,
}

pub struct SecretView {
    pub text: Seq<char>,
    pub failure: Option<CryptoError>,
}

impl View for Secret {
    type V = SecretView;

    open spec fn view(&self) -> SecretView {
        SecretView { text: self.text@, failure: self.failure }
    }
}

impl Clone for Secret {
    fn clone(&self) -> (r: Self)
        ensures
            r@ == self@,
    {
        Secret { text: self.text.clone(), failure: self.failure }
    }
}

/// What the session is in the middle of.
#[allow(inconsistent_fields)]
#[derive(Debug, PartialEq, Eq)]
pub enum AppState {
    Start,
    Menu,
    /// Steps: 0 username, 1 password, 2 password again.
    Register { step: usize, username: String, password: String, input: TextInput, error: Option<Notice> },
    /// Steps: 0 account, 1 username, 2 password.
    CreateAccount { step: usize, account: String, username: String, input: TextInput },
    ShowAllVaults { list: ListView, show_password: bool },
    /// `snapshot` is the list the entry was opened from.
    ViewVaultDetail {
        account: String,
        username: String,
        password: Secret,
        snapshot: ListView,
        scroll: usize,
        copy_message: Option<Notice>,
        obscure_password: bool,
    },
    /// Steps: 0 account, 1 username, 2 password. `old_account`,
    /// `old_username` and `old_password` are the entry as it was opened;
    /// `account` and `username` are the values confirmed so far.
    EditVault {
        step: usize,
        old_account: String,
        old_username: String,
        old_password: Secret,
        account: String,
        username: String,
        snapshot: ListView,
        input: TextInput,
    },
    SearchVault { input: TextInput },
}

#[allow(inconsistent_fields)]
pub enum StateView {
    Start,
    Menu,
    Register {
        step: usize,
        username: Seq<char>,
        password: Seq<char>,
        input: InputView,
        error: Option<NoticeView>,
    },
    CreateAccount { step: usize, account: Seq<char>, username: Seq<char>, input: InputView },
    ShowAllVaults { list: ListModel, show_password: bool },
    ViewVaultDetail {
        account: Seq<char>,
        username: Seq<char>,
        password: SecretView,
        snapshot: ListModel,
        scroll: usize,
        copy_message: Option<NoticeView>,
        obscure_password: bool,
    },
    EditVault {
        step: usize,
        old_account: Seq<char>,
        old_username: Seq<char>,
        old_password: SecretView,
        account: Seq<char>,
        username: Seq<char>,
        snapshot: ListModel,
        input: InputView,
    },
    SearchVault { input: InputView },
}

/// A notice, if any, as contracts see it.
pub open spec fn notice_view(n: Option<Notice>) -> Option<NoticeView> {
    match n {
        Some(notice) => Some(notice@),
        None => None,
    }
}

impl View for AppState {
    type V = StateView;

    open spec fn view(&self) -> StateView {
        match *self {
            AppState::Start => StateView::Start,
            AppState::Menu => StateView::Menu,
            AppState::Register { step, username, password, input, error } => StateView::Register {
                step,
                username: username@,
                password: password@,
                input: input@,
                error: notice_view(error),
            },
            AppState::CreateAccount { step, account, username, input } => StateView::CreateAccount {
                step,
                account: account@,
                username: username@,
                input: input@,
            },
            AppState::ShowAllVaults { list, show_password } => StateView::ShowAllVaults {
                list: list@,
                show_password,
            },
            AppState::ViewVaultDetail {
                account,
                username,
                password,
                snapshot,
                scroll,
                copy_message,
                obscure_password,
            } => StateView::ViewVaultDetail {
                account: account@,
                username: username@,
                password: password@,
                snapshot: snapshot@,
                scroll,
                copy_message: notice_view(copy_message),
                obscure_password,
            },
            AppState::EditVault {
                step,
                old_account,
                old_username,
                old_password,
                account,
                username,
                snapshot,
                input,
            } => StateView::EditVault {
                step,
                old_account: old_account@,
                old_username: old_username@,
                old_password: old_password@,
                account: account@,
                username: username@,
                snapshot: snapshot@,
                input: input@,
            },
            AppState::SearchVault { input } => StateView::SearchVault { input: input@ },
        }
    }
}

/// What the session asks its surroundings to do after a step. Where an
/// action has a reply, the session waits for it.
#[derive(Debug, PartialEq, Eq)]
pub enum Action {
    /// Nothing.
    Idle,
    /// End the session.
    Quit,
    /// Look up whether a user of this name exists; reply with the answer.
    CheckUsername { username: String },
    /// Persist a new user; reply with the failure, if any.
    StoreUser { username: String, password_hash: String },
    /// Fetch all vault entries; reply with them.
    FetchVaults,
    /// Persist a new vault entry.
    InsertVault { account: String, username: String, secret: Vec<u8> },
    /// Replace the entry stored under the old pair of names by the new
    /// values, then fetch all vault entries; reply with them.
    UpdateVault {
        old_account: String,
        old_username: String,
        account: String,
        username: String,
        secret: Vec<u8>,
    },
    /// Delete the entries stored under the pair of names.
    DeleteVault { account: String, username: String },
    /// Put a text on the clipboard.
    CopyText { text: String },
}

pub enum ActionView {
    Idle,
    Quit,
    CheckUsername { username: Seq<char> },
    StoreUser { username: Seq<char>, password_hash: Seq<char> },
    FetchVaults,
    InsertVault { account: Seq<char>, username: Seq<char>, secret: Seq<u8> },
    UpdateVault {
        old_account: Seq<char>,
        old_username: Seq<char>,
        account: Seq<char>,
        username: Seq<char>,
        secret: Seq<u8>,
    },
    DeleteVault { account: Seq<char>, username: Seq<char> },
    CopyText { text: Seq<char> },
}

impl View for Action {
    type V = ActionView;

    open spec fn view(&self) -> ActionView {
        match *self {
            Action::Idle => ActionView::Idle,
            Action::Quit => ActionView::Quit,
            Action::CheckUsername { username } => ActionView::CheckUsername { username: username@ },
            Action::StoreUser { username, password_hash } => ActionView::StoreUser {
                username: username@,
                password_hash: password_hash@,
            },
            Action::FetchVaults => ActionView::FetchVaults,
            Action::InsertVault { account, username, secret } => ActionView::InsertVault {
                account: account@,
                username: username@,
                secret: secret@,
            },
            Action::UpdateVault { old_account, old_username, account, username, secret } => {
                ActionView::UpdateVault {
                    old_account: old_account@,
                    old_username: old_username@,
                    account: account@,
                    username: username@,
                    secret: secret@,
                }
            },
            Action::DeleteVault { account, username } => ActionView::DeleteVault {
                account: account@,
                username: username@,
            },
            Action::CopyText { text } => ActionView::CopyText { text: text@ },
        }
    }
}

/// What a session consumes: a key press, or the reply to an action.
#[derive(Debug, PartialEq, Eq)]
pub enum Event {
    Key { key: Key },
    /// Reply to `Action::CheckUsername`.
    UsernameChecked { taken: bool },
    /// Reply to `Action::StoreUser`: the failure, if any.
    UserStored { failure: Option<String> },
    /// Reply to `Action::FetchVaults` and `Action::UpdateVault`.
    Vaults { entries: Vec<VaultEntry> },
}

pub enum EventView {
    Key { key: Key },
    UsernameChecked { taken: bool },
    UserStored { failure: Option<Seq<char>> },
    Vaults { entries: Seq<EntryView> },
}

impl View for Event {
    type V = EventView;

    open spec fn view(&self) -> EventView {
        match *self {
            Event::Key { key } => EventView::Key { key },
            Event::UsernameChecked { taken } => EventView::UsernameChecked { taken },
            Event::UserStored { failure } => EventView::UserStored {
                failure: match failure {
                    Some(reason) => Some(reason@),
                    None => None,
                },
            },
            Event::Vaults { entries } => EventView::Vaults { entries: entry_views(entries@) },
        }
    }
}

/// The reply the session waits for.
#[derive(Debug, Clone, Copy, PartialEq, Eq, Structural)]
pub enum Pending {
    Nothing,
    /// Whether the username of the register wizard is taken.
    UsernameCheck,
    /// Whether the new user was persisted.
    Registration,
    /// The entries to show in full.
    AllVaults,
    /// The entries to search.
    SearchResults,
    /// The entries after an edit.
    EditedVaults,
}

} // verus!
