//! The session: the current state, the selection of the action list, the
//! key that secrets are encrypted under, and the reply that is awaited. Its
//! steps take a key press or a reply and give the action to perform.

use vstd::prelude::*;
use vstd::string::StringExecFns;
use crate::database::{register_user, AuthError};
use crate::crypto::MAX_PASSWORD_LEN;
use crate::encryption::{decrypt, encrypt, KEY_LEN, MAX_PLAINTEXT_LEN};
use crate::input::TextInput;
use crate::listing::{ListView, MAX_ROWS};
use crate::state::{
    Action, AppState, Event, Key, MenuState, Notice, Pending, Secret, StateView, MENU_ITEMS,
    START_ITEMS,
};
use crate::text::{chars_of, same_text};
use crate::transition::{
    after_registration, after_username_check, after_vaults, create_step, detail_step, edit_step,
    edited, event_step, key_step, list_step, menu_step, register_step, revealed, search_step, session_wf,
    start_step, SessionView, DETAIL_LINES,
};
use crate::utils::generate_strong_password;
use crate::view::{screen, screen_of, Screen};
use crate::vault::{
    decode_secret, entry_views, position_of, remove_named, search, show_all, VaultEntry,
};

verus! {

/// A session of the vault. Its fields are reached through its methods.
pub struct Session {
    state: AppState,
    menu: MenuState,
    key: Vec<u8>,
    pending: Pending,
}

impl View for Session {
    type V = SessionView;

    closed spec fn view(&self) -> SessionView {
        SessionView {
            state: self.state@,
            menu_selected: self.menu.selected,
            key: self.key@,
            pending: self.pending,
        }
    }
}

/// What a step leaves behind.
struct Step {
    state: AppState,
    action: Action,
    pending: Pending,
    selected: usize,
}

impl Step {
    spec fn after(self, pre: SessionView) -> SessionView {
        SessionView {
            state: self.state@,
            menu_selected: self.selected,
            key: pre.key,
            pending: self.pending,
        }
    }
}

fn edit_line(input: &mut TextInput, key: Key)
    ensures
        final(input)@ == edited(old(input)@, key),
{
    match key {
        Key::Char(c) => input.type_char(c),
        Key::Backspace => input.backspace(),
        Key::Left => input.move_left(),
        Key::Right => input.move_right(),
        _ => {},
    }
}

/// Decrypts a listed secret for the detail view.
fn open_secret(secret: &str, key: &Vec<u8>) -> (r: Secret)
    requires
        key@.len() == KEY_LEN,
    ensures
        r@ == revealed(secret@, key@),
{
    let blob: Vec<u8> = match decode_secret(secret) {
        Some(bytes) => bytes,
        None => Vec::new(),
    };
    match decrypt(blob.as_slice(), key.as_slice()) {
        Ok(text) => Secret { text, failure: None },
        Err(e) => Secret { text: "ERR".to_owned(), failure: Some(e) },
    }
}

fn start_key(selected: usize, key: Key, Ghost(pre): Ghost<SessionView>) -> (r: Step)
    requires
        session_wf(pre),
        pre.state is Start,
        pre.pending == Pending::Nothing,
        pre.menu_selected == selected,
    ensures
        start_step(pre, key, r.after(pre), r.action@),
        session_wf(r.after(pre)),
{
    let mut menu = MenuState { selected };
    let mut state = AppState::Start;
    let mut action = Action::Idle;
    match key {
        Key::Down => menu.next(START_ITEMS),
        Key::Up => menu.previous(),
        Key::Enter => {
            if selected == 0 {
                state = AppState::Menu;
            } else if selected == 1 {
                state =
                AppState::Register {
                    step: 0,
                    username: String::new(),
                    password: String::new(),
                    input: TextInput::new(),
                    error: None,
                };
            } else if selected == 2 {
                action = Action::Quit;
            }
        },
        Key::Char(c) => {
            if c == 'q' {
                action = Action::Quit;
            }
        },
        _ => {},
    }
    Step { state, action, pending: Pending::Nothing, selected: menu.selected }
}

fn menu_key(selected: usize, key: Key, Ghost(pre): Ghost<SessionView>) -> (r: Step)
    requires
        session_wf(pre),
        pre.state is Menu,
        pre.pending == Pending::Nothing,
        pre.menu_selected == selected,
    ensures
        menu_step(pre, key, r.after(pre), r.action@),
        session_wf(r.after(pre)),
{
    let mut menu = MenuState { selected };
    let mut state = AppState::Menu;
    let mut action = Action::Idle;
    let mut pending = Pending::Nothing;
    match key {
        Key::Down => menu.next(MENU_ITEMS),
        Key::Up => menu.previous(),
        Key::Enter => {
            if selected == 0 {
                state =
                AppState::CreateAccount {
                    step: 0,
                    account: String::new(),
                    username: String::new(),
                    input: TextInput::new(),
                };
            } else if selected == 1 {
                state = AppState::SearchVault { input: TextInput::new() };
            } else if selected == 2 {
                action = Action::FetchVaults;
                pending = Pending::AllVaults;
            } else if selected == 3 {
                action = Action::Quit;
            }
        },
        Key::Char(c) => {
            if c == 'q' {
                action = Action::Quit;
            }
        },
        _ => {},
    }
    Step { state, action, pending, selected: menu.selected }
}

fn register_key(
    step: usize,
    username: String,
    password: String,
    input: TextInput,
    error: Option<Notice>,
    key: Key,
    now_ms: u64,
    selected: usize,
    Ghost(pre): Ghost<SessionView>,
) -> (r: Step)
    requires
        session_wf(pre),
        pre.pending == Pending::Nothing,
        pre.menu_selected == selected,
        pre.state == (AppState::Register { step, username, password, input, error })@,
    ensures
        register_step(pre, key, now_ms, r.after(pre), r.action@),
        session_wf(r.after(pre)),
{
    let mut input = input;
    match key {
        Key::Enter => {
            if step == 0 {
                let asked = input.text();
                Step {
                    state: AppState::Register { step, username, password, input, error },
                    action: Action::CheckUsername { username: asked },
                    pending: Pending::UsernameCheck,
                    selected,
                }
            } else if step == 1 {
                let password = input.text();
                Step {
                    state: AppState::Register {
                        step: 2,
                        username,
                        password,
                        input: TextInput::new(),
                        error,
                    },
                    action: Action::Idle,
                    pending: Pending::Nothing,
                    selected,
                }
            } else {
                let first = chars_of(password.as_str());
                if !same_text(&input.chars, &first) {
                    let notice = Notice { text: AuthError::PasswordMismatch.message(), at_ms: now_ms };
                    Step {
                        state: AppState::Register {
                            step: 1,
                            username,
                            password,
                            input,
                            error: Some(notice),
                        },
                        action: Action::Idle,
                        pending: Pending::Nothing,
                        selected,
                    }
                } else if password.as_str().as_bytes().len() > MAX_PASSWORD_LEN {
                    Step {
                        state: AppState::Register { step, username, password, input, error },
                        action: Action::Idle,
                        pending: Pending::Nothing,
                        selected,
                    }
                } else {
                    match register_user(None, username.as_str(), password.as_str()) {
                        Ok(user) => Step {
                            state: AppState::Register { step, username, password, input, error },
                            action: Action::StoreUser {
                                username: user.username,
                                password_hash: user.password_hash,
                            },
                            pending: Pending::Registration,
                            selected,
                        },
                        Err(_) => Step {
                            state: AppState::Register { step, username, password, input, error },
                            action: Action::Idle,
                            pending: Pending::Nothing,
                            selected,
                        },
                    }
                }
            }
        },
        Key::Esc => Step {
            state: AppState::Start,
            action: Action::Idle,
            pending: Pending::Nothing,
            selected,
        },
        _ => {
            edit_line(&mut input, key);
            Step {
                state: AppState::Register { step, username, password, input, error },
                action: Action::Idle,
                pending: Pending::Nothing,
                selected,
            }
        },
    }
}

fn create_key(
    step: usize,
    account: String,
    username: String,
    input: TextInput,
    key: Key,
    secret_key: &Vec<u8>,
    selected: usize,
    Ghost(pre): Ghost<SessionView>,
) -> (r: Step)
    requires
        session_wf(pre),
        pre.pending == Pending::Nothing,
        pre.menu_selected == selected,
        pre.key == secret_key@,
        pre.state == (AppState::CreateAccount { step, account, username, input })@,
    ensures
        create_step(pre, key, r.after(pre), r.action@),
        session_wf(r.after(pre)),
{
    let mut input = input;
    match key {
        Key::Enter => {
            if step == 0 {
                let account = input.text();
                Step {
                    state: AppState::CreateAccount {
                        step: 1,
                        account,
                        username,
                        input: TextInput::new(),
                    },
                    action: Action::Idle,
                    pending: Pending::Nothing,
                    selected,
                }
            } else if step == 1 {
                let username = input.text();
                Step {
                    state: AppState::CreateAccount {
                        step: 2,
                        account,
                        username,
                        input: TextInput::new(),
                    },
                    action: Action::Idle,
                    pending: Pending::Nothing,
                    selected,
                }
            } else {
                let password = input.text();
                if password.as_str().as_bytes().len() as u64 > MAX_PLAINTEXT_LEN {
                    Step {
                        state: AppState::CreateAccount { step, account, username, input },
                        action: Action::Idle,
                        pending: Pending::Nothing,
                        selected,
                    }
                } else {
                    let secret = encrypt(password.as_str(), secret_key.as_slice());
                    Step {
                        state: AppState::Menu,
                        action: Action::InsertVault { account, username, secret },
                        pending: Pending::Nothing,
                        selected,
                    }
                }
            }
        },
        Key::Esc => Step {
            state: AppState::Menu,
            action: Action::Idle,
            pending: Pending::Nothing,
            selected,
        },
        Key::Char(c) => {
            if step == 2 && c == '#' {
                let generated = generate_strong_password(16);
                input = TextInput::holding(generated.as_str());
            } else {
                input.type_char(c);
            }
            Step {
                state: AppState::CreateAccount { step, account, username, input },
                action: Action::Idle,
                pending: Pending::Nothing,
                selected,
            }
        },
        _ => {
            edit_line(&mut input, key);
            Step {
                state: AppState::CreateAccount { step, account, username, input },
                action: Action::Idle,
                pending: Pending::Nothing,
                selected,
            }
        },
    }
}

fn list_key(
    list: ListView,
    show_password: bool,
    key: Key,
    height: usize,
    secret_key: &Vec<u8>,
    selected: usize,
    Ghost(pre): Ghost<SessionView>,
) -> (r: Step)
    requires
        session_wf(pre),
        pre.pending == Pending::Nothing,
        pre.menu_selected == selected,
        pre.key == secret_key@,
        pre.state == (AppState::ShowAllVaults { list, show_password })@,
    ensures
        list_step(pre, key, height, r.after(pre), r.action@),
        session_wf(r.after(pre)),
{
    let mut list = list;
    match key {
        Key::Down => {
            list.move_down(height);
            Step {
                state: AppState::ShowAllVaults { list, show_password },
                action: Action::Idle,
                pending: Pending::Nothing,
                selected,
            }
        },
        Key::Up => {
            list.move_up(height);
            Step {
                state: AppState::ShowAllVaults { list, show_password },
                action: Action::Idle,
                pending: Pending::Nothing,
                selected,
            }
        },
        Key::Enter => {
            if list.entries[list.selected].placeholder {
                Step {
                    state: AppState::ShowAllVaults { list, show_password },
                    action: Action::Idle,
                    pending: Pending::Nothing,
                    selected,
                }
            } else {
                let account = list.entries[list.selected].account.clone();
                let username = list.entries[list.selected].username.clone();
                let password = open_secret(list.entries[list.selected].secret.as_str(), secret_key);
                Step {
                    state: AppState::ViewVaultDetail {
                        account,
                        username,
                        password,
                        snapshot: list,
                        scroll: 0,
                        copy_message: None,
                        obscure_password: true,
                    },
                    action: Action::Idle,
                    pending: Pending::Nothing,
                    selected,
                }
            }
        },
        Key::Esc => Step {
            state: AppState::Menu,
            action: Action::Idle,
            pending: Pending::Nothing,
            selected,
        },
        _ => Step {
            state: AppState::ShowAllVaults { list, show_password },
            action: Action::Idle,
            pending: Pending::Nothing,
            selected,
        },
    }
}

fn detail_key(
    account: String,
    username: String,
    password: Secret,
    snapshot: ListView,
    scroll: usize,
    copy_message: Option<Notice>,
    obscure_password: bool,
    key: Key,
    now_ms: u64,
    height: usize,
    selected: usize,
    Ghost(pre): Ghost<SessionView>,
) -> (r: Step)
    requires
        session_wf(pre),
        pre.pending == Pending::Nothing,
        pre.menu_selected == selected,
        pre.state == (AppState::ViewVaultDetail {
            account,
            username,
            password,
            snapshot,
            scroll,
            copy_message,
            obscure_password,
        })@,
    ensures
        detail_step(pre, key, now_ms, height, r.after(pre), r.action@),
        session_wf(r.after(pre)),
{
    let mut scroll = scroll;
    let mut copy_message = copy_message;
    let mut obscure_password = obscure_password;
    let mut action = Action::Idle;
    match key {
        Key::Esc => {
            return Step {
                state: AppState::ShowAllVaults { list: snapshot, show_password: false },
                action: Action::Idle,
                pending: Pending::Nothing,
                selected,
            };
        },
        Key::Down => {
            let max_scroll: usize = if height < DETAIL_LINES {
                DETAIL_LINES - height
            } else {
                0
            };
            if scroll < max_scroll {
                scroll = scroll + 1;
            }
        },
        Key::Up => {
            if scroll > 0 {
                scroll = scroll - 1;
            }
        },
        Key::Char(c) => {
            if c == 'd' {
                let rows = remove_named(&snapshot.entries, account.as_str(), username.as_str());
                let list = ListView::new(rows, snapshot.show_headers);
                return Step {
                    state: AppState::ShowAllVaults { list, show_password: false },
                    action: Action::DeleteVault { account, username },
                    pending: Pending::Nothing,
                    selected,
                };
            } else if c == 'e' {
                let input = TextInput::holding(account.as_str());
                return Step {
                    state: AppState::EditVault {
                        step: 0,
                        old_account: account.clone(),
                        old_username: username.clone(),
                        old_password: password,
                        account,
                        username,
                        snapshot,
                        input,
                    },
                    action: Action::Idle,
                    pending: Pending::Nothing,
                    selected,
                };
            } else if c == 'u' {
                action = Action::CopyText { text: username.clone() };
                copy_message =
                Some(Notice { text: "Email/Username copied!".to_owned(), at_ms: now_ms });
            } else if c == 'p' {
                action = Action::CopyText { text: password.text.clone() };
                copy_message = Some(Notice { text: "Password copied!".to_owned(), at_ms: now_ms });
            } else if c == 's' {
                copy_message = None;
                obscure_password = !obscure_password;
            }
        },
        _ => {},
    }
    Step {
        state: AppState::ViewVaultDetail {
            account,
            username,
            password,
            snapshot,
            scroll,
            copy_message,
            obscure_password,
        },
        action,
        pending: Pending::Nothing,
        selected,
    }
}

fn edit_key(
    step: usize,
    old_account: String,
    old_username: String,
    old_password: Secret,
    account: String,
    username: String,
    snapshot: ListView,
    input: TextInput,
    key: Key,
    secret_key: &Vec<u8>,
    selected: usize,
    Ghost(pre): Ghost<SessionView>,
) -> (r: Step)
    requires
        session_wf(pre),
        pre.pending == Pending::Nothing,
        pre.menu_selected == selected,
        pre.key == secret_key@,
        pre.state == (AppState::EditVault {
            step,
            old_account,
            old_username,
            old_password,
            account,
            username,
            snapshot,
            input,
        })@,
    ensures
        edit_step(pre, key, r.after(pre), r.action@),
        session_wf(r.after(pre)),
{
    let mut step = step;
    let mut account = account;
    let mut username = username;
    let mut input = input;
    let mut action = Action::Idle;
    let mut pending = Pending::Nothing;
    match key {
        Key::Enter => {
            if step == 0 {
                account = input.text();
                input = TextInput::holding(old_username.as_str());
                step = 1;
            } else if step == 1 {
                username = input.text();
                input = TextInput::holding(old_password.text.as_str());
                step = 2;
            } else {
                let password = input.text();
                if password.as_str().as_bytes().len() as u64 <= MAX_PLAINTEXT_LEN {
                    let secret = encrypt(password.as_str(), secret_key.as_slice());
                    action =
                    Action::UpdateVault {
                        old_account: old_account.clone(),
                        old_username: old_username.clone(),
                        account: account.clone(),
                        username: username.clone(),
                        secret,
                    };
                    pending = Pending::EditedVaults;
                }
            }
        },
        Key::Esc => {
            return Step {
                state: AppState::ViewVaultDetail {
                    account: old_account,
                    username: old_username,
                    password: old_password,
                    snapshot,
                    scroll: 0,
                    copy_message: None,
                    obscure_password: true,
                },
                action: Action::Idle,
                pending: Pending::Nothing,
                selected,
            };
        },
        Key::Char(c) => {
            if step == 2 && c == '#' {
                let generated = generate_strong_password(16);
                input = TextInput::holding(generated.as_str());
            } else {
                input.type_char(c);
            }
        },
        _ => {
            edit_line(&mut input, key);
        },
    }
    Step {
        state: AppState::EditVault {
            step,
            old_account,
            old_username,
            old_password,
            account,
            username,
            snapshot,
            input,
        },
        action,
        pending,
        selected,
    }
}

fn search_key(input: TextInput, key: Key, selected: usize, Ghost(pre): Ghost<SessionView>) -> (r:
    Step)
    requires
        session_wf(pre),
        pre.pending == Pending::Nothing,
        pre.menu_selected == selected,
        pre.state == (AppState::SearchVault { input })@,
    ensures
        search_step(pre, key, r.after(pre), r.action@),
        session_wf(r.after(pre)),
{
    let mut input = input;
    let mut action = Action::Idle;
    let mut pending = Pending::Nothing;
    match key {
        Key::Char(c) => {
            input.chars.push(c);
            input.cursor = input.chars.len();
        },
        Key::Backspace => {
            if input.chars.len() > 0 {
                input.chars.pop();
                input.cursor = input.chars.len();
            }
        },
        Key::Enter => {
            if !input.blank() {
                action = Action::FetchVaults;
                pending = Pending::SearchResults;
            }
        },
        Key::Esc => {
            return Step {
                state: AppState::Menu,
                action: Action::Idle,
                pending: Pending::Nothing,
                selected,
            };
        },
        _ => {},
    }
    Step { state: AppState::SearchVault { input }, action, pending, selected }
}

impl Session {
    /// The invariant of a session; see `session_wf`.
    pub open spec fn wf(&self) -> bool {
        session_wf(self@)
    }

    /// A session on the start screen, with the key that secrets are
    /// encrypted under.
    pub fn new(key: Vec<u8>) -> (r: Self)
        requires
            key@.len() == KEY_LEN,
        ensures
            r.wf(),
            r@ == (SessionView {
                state: StateView::Start,
                menu_selected: 0,
                key: key@,
                pending: Pending::Nothing,
            }),
    {
        Session {
            state: AppState::Start,
            menu: MenuState::new(),
            key,
            pending: Pending::Nothing,
        }
    }

    /// The current state.
    pub fn state(&self) -> (r: &AppState)
        ensures
            r@ == self@.state,
    {
        &self.state
    }

    /// The selected item of the start screen or the menu.
    pub fn menu_selected(&self) -> (r: usize)
        ensures
            r == self@.menu_selected,
    {
        self.menu.selected
    }

    /// The reply that is awaited.
    pub fn pending(&self) -> (r: Pending)
        ensures
            r == self@.pending,
    {
        self.pending
    }

    /// What is drawn of the session at time `now_ms`, with `height` lines
    /// for a list.
    pub fn screen(&self, now_ms: u64, height: usize) -> (r: Screen)
        requires
            self.wf(),
        ensures
            r@ == screen_of(self@.state, now_ms, height),
    {
        screen(&self.state, now_ms, height)
    }

    /// Takes an event at time `now_ms`, with `height` lines to draw a list
    /// or an entry in. Gives the action to perform; the reply to an action
    /// that has one is the next event.
    pub fn handle(&mut self, event: Event, now_ms: u64, height: usize) -> (action: Action)
        requires
            old(self).wf(),
            event matches Event::Vaults { entries } ==> entries@.len() <= MAX_ROWS,
        ensures
            final(self).wf(),
            event_step(old(self)@, event@, now_ms, height, final(self)@, action@),
    {
        match event {
            Event::Key { key } => self.on_key(key, now_ms, height),
            Event::UsernameChecked { taken } => {
                self.on_username_checked(taken, now_ms);
                Action::Idle
            },
            Event::UserStored { failure } => {
                self.on_user_stored(failure, now_ms);
                Action::Idle
            },
            Event::Vaults { entries } => {
                self.on_vaults(entries, height);
                Action::Idle
            },
        }
    }

    /// Takes a key press, at time `now_ms`, with `height` lines to draw a
    /// list or an entry in. Gives the action to perform.
    pub fn on_key(&mut self, key: Key, now_ms: u64, height: usize) -> (action: Action)
        requires
            old(self).wf(),
        ensures
            final(self).wf(),
            key_step(old(self)@, key, now_ms, height, final(self)@, action@),
    {
        match self.pending {
            Pending::Nothing => {},
            _ => {
                return Action::Idle;
            },
        }
        let ghost pre = self@;
        let selected = self.menu.selected;
        let mut state = AppState::Start;
        core::mem::swap(&mut self.state, &mut state);
        let step = match state {
            AppState::Start => start_key(selected, key, Ghost(pre)),
            AppState::Menu => menu_key(selected, key, Ghost(pre)),
            AppState::Register { step, username, password, input, error } => register_key(
                step,
                username,
                password,
                input,
                error,
                key,
                now_ms,
                selected,
                Ghost(pre),
            ),
            AppState::CreateAccount { step, account, username, input } => create_key(
                step,
                account,
                username,
                input,
                key,
                &self.key,
                selected,
                Ghost(pre),
            ),
            AppState::ShowAllVaults { list, show_password } => list_key(
                list,
                show_password,
                key,
                height,
                &self.key,
                selected,
                Ghost(pre),
            ),
            AppState::ViewVaultDetail {
                account,
                username,
                password,
                snapshot,
                scroll,
                copy_message,
                obscure_password,
            } => detail_key(
                account,
                username,
                password,
                snapshot,
                scroll,
                copy_message,
                obscure_password,
                key,
                now_ms,
                height,
                selected,
                Ghost(pre),
            ),
            AppState::EditVault {
                step,
                old_account,
                old_username,
                old_password,
                account,
                username,
                snapshot,
                input,
            } => edit_key(
                step,
                old_account,
                old_username,
                old_password,
                account,
                username,
                snapshot,
                input,
                key,
                &self.key,
                selected,
                Ghost(pre),
            ),
            AppState::SearchVault { input } => search_key(input, key, selected, Ghost(pre)),
        };
        self.state = step.state;
        self.menu.selected = step.selected;
        self.pending = step.pending;
        step.action
    }

    /// Takes the reply to `Action::CheckUsername`: whether the name is
    /// taken.
    pub fn on_username_checked(&mut self, taken: bool, now_ms: u64)
        requires
            old(self).wf(),
        ensures
            final(self).wf(),
            final(self)@ == after_username_check(old(self)@, taken, now_ms),
    {
        match self.pending {
            Pending::UsernameCheck => {},
            _ => {
                return ;
            },
        }
        let mut state = AppState::Start;
        core::mem::swap(&mut self.state, &mut state);
        match state {
            AppState::Register { step, username, password, input, error } => {
                if taken {
                    let notice = Notice { text: AuthError::UsernameTaken.message(), at_ms: now_ms };
                    self.state =
                    AppState::Register {
                        step: 0,
                        username,
                        password,
                        input: TextInput::new(),
                        error: Some(notice),
                    };
                } else {
                    let username = input.text();
                    self.state =
                    AppState::Register {
                        step: 1,
                        username,
                        password,
                        input: TextInput::new(),
                        error,
                    };
                }
                self.pending = Pending::Nothing;
            },
            other => {
                self.state = other;
            },
        }
    }

    /// Takes the reply to `Action::StoreUser`: the failure, if any.
    pub fn on_user_stored(&mut self, failure: Option<String>, now_ms: u64)
        requires
            old(self).wf(),
        ensures
            final(self).wf(),
            final(self)@ == after_registration(
                old(self)@,
                match failure {
                    Some(reason) => Some(reason@),
                    None => None,
                },
                now_ms,
            ),
    {
        match self.pending {
            Pending::Registration => {},
            _ => {
                return ;
            },
        }
        let mut state = AppState::Start;
        core::mem::swap(&mut self.state, &mut state);
        match state {
            AppState::Register { step, username, password, input, error } => {
                match failure {
                    None => {
                        self.state = AppState::Menu;
                    },
                    Some(reason) => {
                        let text = "Failed to register: ".to_owned().concat(reason.as_str());
                        self.state =
                        AppState::Register {
                            step: 0,
                            username,
                            password,
                            input: TextInput::new(),
                            error: Some(Notice { text, at_ms: now_ms }),
                        };
                    },
                }
                self.pending = Pending::Nothing;
            },
            other => {
                self.state = other;
            },
        }
    }

    /// Takes the reply to `Action::FetchVaults` or `Action::UpdateVault`:
    /// the stored entries.
    pub fn on_vaults(&mut self, entries: Vec<VaultEntry>, height: usize)
        requires
            old(self).wf(),
            entries@.len() <= MAX_ROWS,
        ensures
            final(self).wf(),
            final(self)@ == after_vaults(old(self)@, entry_views(entries@), height),
    {
        match self.pending {
            Pending::AllVaults => {
                let (rows, show_headers) = show_all(&entries);
                self.state =
                AppState::ShowAllVaults {
                    list: ListView::new(rows, show_headers),
                    show_password: false,
                };
                self.pending = Pending::Nothing;
            },
            Pending::SearchResults => {
                let mut state = AppState::Start;
                core::mem::swap(&mut self.state, &mut state);
                match state {
                    AppState::SearchVault { input } => {
                        let query = input.text();
                        let rows = search(&entries, query.as_str());
                        self.state =
                        AppState::ShowAllVaults {
                            list: ListView::new(rows, false),
                            show_password: false,
                        };
                        self.pending = Pending::Nothing;
                    },
                    other => {
                        self.state = other;
                    },
                }
            },
            Pending::EditedVaults => {
                let mut state = AppState::Start;
                core::mem::swap(&mut self.state, &mut state);
                match state {
                    AppState::EditVault { account, username, input, .. } => {
                        let (rows, show_headers) = show_all(&entries);
                        let at = position_of(&rows, account.as_str(), username.as_str());
                        let mut snapshot = ListView::new(rows, show_headers);
                        snapshot.selected = at;
                        snapshot.settle(height);
                        self.state =
                        AppState::ViewVaultDetail {
                            account,
                            username,
                            password: Secret { text: input.text(), failure: None },
                            snapshot,
                            scroll: 0,
                            copy_message: None,
                            obscure_password: true,
                        };
                        self.pending = Pending::Nothing;
                    },
                    other => {
                        self.state = other;
                    },
                }
            },
            _ => {},
        }
    }
}

} // verus!
