//! What each step of a session does, stated over the views of its states:
//! the state and the action that follow a key press or a reply.

use vstd::prelude::*;
use vstd::utf8::encode_utf8;
use crate::crypto::{password_matches, MAX_PASSWORD_LEN};
use crate::database::AuthError;
use crate::encryption::{decrypted, is_encryption_of, KEY_LEN, MAX_PLAINTEXT_LEN};
use crate::input::{
    blank_input, erased, input_holding, is_blank, moved_left, moved_right, typed, InputView,
};
use crate::listing::{lemma_settled_shows_selection, ListModel};
use crate::state::{
    menu_next, menu_previous, ActionView, EventView, Key, NoticeView, Pending, SecretView,
    StateView, MENU_ITEMS, START_ITEMS,
};
use crate::utils::is_generated_password;
use crate::vault::{
    base64_bytes, position_in, rows_after_delete, search_rows, show_all_rows, EntryView,
};

verus! {

/// A session as its contracts see it.
pub struct SessionView {
    pub state: StateView,
    pub menu_selected: usize,
    pub key: Seq<u8>,
    pub pending: Pending,
}

/// The number of lines of the detail view: a label, a value and an empty
/// line for each of account, username and password.
pub const DETAIL_LINES: usize = 9;

/// How long a copy confirmation is shown, in milliseconds.
pub const COPY_NOTICE_MS: u64 = 1400;

/// The key is of the right length, the selections are in range, the steps
/// of the wizards are steps, and a reply is awaited only in the state that
/// asked for it.
pub open spec fn session_wf(v: SessionView) -> bool {
    &&& v.key.len() == KEY_LEN
    &&& v.menu_selected < MENU_ITEMS
    &&& match v.state {
        StateView::Register { step, .. } => step <= 2,
        StateView::CreateAccount { step, .. } => step <= 2,
        StateView::EditVault { step, snapshot, .. } => step <= 2 && snapshot.wf(),
        StateView::ShowAllVaults { list, .. } => list.wf(),
        StateView::ViewVaultDetail { snapshot, .. } => snapshot.wf(),
        _ => true,
    }
    &&& match v.pending {
        Pending::Nothing => true,
        Pending::UsernameCheck => v.state matches StateView::Register { step, .. } && step == 0,
        Pending::Registration => v.state matches StateView::Register { step, .. } && step == 2,
        Pending::AllVaults => v.state is Menu,
        Pending::SearchResults => v.state is SearchVault,
        Pending::EditedVaults => v.state matches StateView::EditVault { step, .. } && step == 2,
    }
}

/// Nothing changes and nothing is asked.
pub open spec fn stays(pre: SessionView, post: SessionView, action: ActionView) -> bool {
    post == pre && action == ActionView::Idle
}

/// The session enters `state`; nothing is asked.
pub open spec fn goes(
    pre: SessionView,
    post: SessionView,
    action: ActionView,
    state: StateView,
) -> bool {
    post == (SessionView { state, ..pre }) && action == ActionView::Idle
}

/// The session enters `state` and asks for `request`, which has no reply.
pub open spec fn acts(
    pre: SessionView,
    post: SessionView,
    action: ActionView,
    state: StateView,
    request: ActionView,
) -> bool {
    post == (SessionView { state, ..pre }) && action == request
}

/// The session asks for `request` and waits for its reply.
pub open spec fn asks(
    pre: SessionView,
    post: SessionView,
    action: ActionView,
    pending: Pending,
    request: ActionView,
) -> bool {
    post == (SessionView { pending, ..pre }) && action == request
}

/// The selection of the action list moves.
pub open spec fn selects(
    pre: SessionView,
    post: SessionView,
    action: ActionView,
    selected: usize,
) -> bool {
    post == (SessionView { menu_selected: selected, ..pre }) && action == ActionView::Idle
}

/// The session ends.
pub open spec fn quits(pre: SessionView, post: SessionView, action: ActionView) -> bool {
    post == pre && action == ActionView::Quit
}

/// A line after a key: a character is typed at the cursor, backspace erases
/// before it, left and right move it; other keys leave the line alone.
pub open spec fn edited(input: InputView, key: Key) -> InputView {
    match key {
        Key::Char(c) => typed(input, c),
        Key::Backspace => erased(input),
        Key::Left => moved_left(input),
        Key::Right => moved_right(input),
        _ => input,
    }
}

/// The register wizard at its first step.
pub open spec fn register_start() -> StateView {
    StateView::Register {
        step: 0,
        username: Seq::empty(),
        password: Seq::empty(),
        input: blank_input(),
        error: None,
    }
}

/// The create wizard at its first step.
pub open spec fn create_start() -> StateView {
    StateView::CreateAccount {
        step: 0,
        account: Seq::empty(),
        username: Seq::empty(),
        input: blank_input(),
    }
}

/// The search prompt, empty.
pub open spec fn search_start() -> StateView {
    StateView::SearchVault { input: blank_input() }
}

/// A list on its first row, not scrolled.
pub open spec fn list_showing(rows: Seq<crate::vault::RowView>, show_headers: bool) -> ListModel {
    ListModel { rows, scroll: 0, selected: 0, show_headers }
}

/// The detail view as it opens on an entry.
pub open spec fn detail_of(
    account: Seq<char>,
    username: Seq<char>,
    password: SecretView,
    snapshot: ListModel,
) -> StateView {
    StateView::ViewVaultDetail {
        account,
        username,
        password,
        snapshot,
        scroll: 0,
        copy_message: None,
        obscure_password: true,
    }
}

/// What the detail view holds for a listed secret: the text it decrypts to
/// under the key, or `ERR` with the reason where it does not. A secret that
/// is no base64 counts as an empty blob.
pub open spec fn revealed(secret: Seq<char>, key: Seq<u8>) -> SecretView {
    let blob = match base64_bytes(secret) {
        Some(bytes) => bytes,
        None => Seq::empty(),
    };
    match decrypted(blob, key) {
        Ok(text) => SecretView { text, failure: None },
        Err(e) => SecretView { text: "ERR"@, failure: Some(e) },
    }
}

/// Start screen. Up and down move the selection among login, register and
/// exit. Enter on login opens the menu, on register the register wizard, on
/// exit it ends the session; `q` ends it too.
pub open spec fn start_step(
    pre: SessionView,
    key: Key,
    post: SessionView,
    action: ActionView,
) -> bool {
    match key {
        Key::Down => selects(pre, post, action, menu_next(pre.menu_selected, START_ITEMS)),
        Key::Up => selects(pre, post, action, menu_previous(pre.menu_selected)),
        Key::Enter => if pre.menu_selected == 0 {
            goes(pre, post, action, StateView::Menu)
        } else if pre.menu_selected == 1 {
            goes(pre, post, action, register_start())
        } else if pre.menu_selected == 2 {
            quits(pre, post, action)
        } else {
            stays(pre, post, action)
        },
        Key::Char(c) => if c == 'q' {
            quits(pre, post, action)
        } else {
            stays(pre, post, action)
        },
        _ => stays(pre, post, action),
    }
}

/// Menu. Up and down move the selection among create, search, show all and
/// log out. Enter on create opens the create wizard, on search the search
/// prompt; on show all it asks for the stored entries; on log out it ends
/// the session; `q` ends it too.
pub open spec fn menu_step(
    pre: SessionView,
    key: Key,
    post: SessionView,
    action: ActionView,
) -> bool {
    match key {
        Key::Down => selects(pre, post, action, menu_next(pre.menu_selected, MENU_ITEMS)),
        Key::Up => selects(pre, post, action, menu_previous(pre.menu_selected)),
        Key::Enter => if pre.menu_selected == 0 {
            goes(pre, post, action, create_start())
        } else if pre.menu_selected == 1 {
            goes(pre, post, action, search_start())
        } else if pre.menu_selected == 2 {
            asks(pre, post, action, Pending::AllVaults, ActionView::FetchVaults)
        } else if pre.menu_selected == 3 {
            quits(pre, post, action)
        } else {
            stays(pre, post, action)
        },
        Key::Char(c) => if c == 'q' {
            quits(pre, post, action)
        } else {
            stays(pre, post, action)
        },
        _ => stays(pre, post, action),
    }
}

/// Register wizard. Enter on the username asks whether it is taken. Enter
/// on the password keeps it and asks for it again. Enter on the second
/// password: where the two differ, an error is set and the wizard returns
/// to the password step; where they are the same, a salted hash is made and
/// the session asks to persist the user. Escape returns to the start
/// screen. Other keys edit the line.
pub open spec fn register_step(
    pre: SessionView,
    key: Key,
    now_ms: u64,
    post: SessionView,
    action: ActionView,
) -> bool {
    match pre.state {
        StateView::Register { step, username, password, input, error } => match key {
            Key::Enter => if step == 0 {
                asks(
                    pre,
                    post,
                    action,
                    Pending::UsernameCheck,
                    ActionView::CheckUsername { username: input.chars },
                )
            } else if step == 1 {
                goes(
                    pre,
                    post,
                    action,
                    StateView::Register {
                        step: 2,
                        username,
                        password: input.chars,
                        input: blank_input(),
                        error,
                    },
                )
            } else if step == 2 {
                if input.chars != password {
                    goes(
                        pre,
                        post,
                        action,
                        StateView::Register {
                            step: 1,
                            username,
                            password,
                            input,
                            error: Some(
                                NoticeView {
                                    text: AuthError::PasswordMismatch.message_spec(),
                                    at_ms: now_ms,
                                },
                            ),
                        },
                    )
                } else if encode_utf8(password).len() > MAX_PASSWORD_LEN {
                    stays(pre, post, action)
                } else {
                    &&& post == (SessionView { pending: Pending::Registration, ..pre })
                    &&& action matches ActionView::StoreUser { username: name, password_hash }
                    &&& name == username
                    &&& password_matches(password_hash, password)
                }
            } else {
                stays(pre, post, action)
            },
            Key::Esc => goes(pre, post, action, StateView::Start),
            _ => goes(
                pre,
                post,
                action,
                StateView::Register { step, username, password, input: edited(input, key), error },
            ),
        },
        _ => false,
    }
}

/// Create wizard. Enter on the account and on the username keeps the line
/// and moves on. On the password step `#` replaces the line by a generated
/// strong password, and Enter encrypts the line under the session key, asks
/// to persist the new entry, and returns to the menu; a password longer
/// than the cipher takes is not submitted. Escape returns to the menu.
/// Other keys edit the line.
pub open spec fn create_step(
    pre: SessionView,
    key: Key,
    post: SessionView,
    action: ActionView,
) -> bool {
    match pre.state {
        StateView::CreateAccount { step, account, username, input } => match key {
            Key::Enter => if step == 0 {
                goes(
                    pre,
                    post,
                    action,
                    StateView::CreateAccount {
                        step: 1,
                        account: input.chars,
                        username,
                        input: blank_input(),
                    },
                )
            } else if step == 1 {
                goes(
                    pre,
                    post,
                    action,
                    StateView::CreateAccount {
                        step: 2,
                        account,
                        username: input.chars,
                        input: blank_input(),
                    },
                )
            } else if step == 2 {
                if encode_utf8(input.chars).len() > MAX_PLAINTEXT_LEN {
                    stays(pre, post, action)
                } else {
                    &&& post == (SessionView { state: StateView::Menu, ..pre })
                    &&& action matches ActionView::InsertVault {
                        account: new_account,
                        username: new_username,
                        secret,
                    }
                    &&& new_account == account
                    &&& new_username == username
                    &&& is_encryption_of(secret, input.chars, pre.key)
                }
            } else {
                stays(pre, post, action)
            },
            Key::Esc => goes(pre, post, action, StateView::Menu),
            Key::Char(c) => if step == 2 && c == '#' {
                &&& action == ActionView::Idle
                &&& post.state matches StateView::CreateAccount {
                    step: new_step,
                    account: new_account,
                    username: new_username,
                    input: generated,
                }
                &&& post == (SessionView { state: post.state, ..pre })
                &&& new_step == 2
                &&& new_account == account
                &&& new_username == username
                &&& is_generated_password(generated.chars)
                &&& generated.cursor == generated.chars.len()
            } else {
                goes(
                    pre,
                    post,
                    action,
                    StateView::CreateAccount { step, account, username, input: typed(input, c) },
                )
            },
            _ => goes(
                pre,
                post,
                action,
                StateView::CreateAccount { step, account, username, input: edited(input, key) },
            ),
        },
        _ => false,
    }
}

/// List of vaults. Up and down move the selection and settle the scroll
/// offset for a window of `height` lines. Enter on a row that is no
/// placeholder decrypts its secret and opens the detail view, which keeps
/// the list as it is; on a placeholder it does nothing. Escape returns to
/// the menu.
pub open spec fn list_step(
    pre: SessionView,
    key: Key,
    height: usize,
    post: SessionView,
    action: ActionView,
) -> bool {
    match pre.state {
        StateView::ShowAllVaults { list, show_password } => match key {
            Key::Down => goes(
                pre,
                post,
                action,
                StateView::ShowAllVaults { list: list.moved_down(height), show_password },
            ),
            Key::Up => goes(
                pre,
                post,
                action,
                StateView::ShowAllVaults { list: list.moved_up(height), show_password },
            ),
            Key::Enter => {
                let row = list.rows[list.selected as int];
                if row.placeholder {
                    stays(pre, post, action)
                } else {
                    goes(
                        pre,
                        post,
                        action,
                        detail_of(row.account, row.username, revealed(row.secret, pre.key), list),
                    )
                }
            },
            Key::Esc => goes(pre, post, action, StateView::Menu),
            _ => stays(pre, post, action),
        },
        _ => false,
    }
}

/// The furthest the detail view scrolls in a window of `height` lines.
pub open spec fn detail_max_scroll(height: usize) -> usize {
    if height < DETAIL_LINES {
        (DETAIL_LINES - height) as usize
    } else {
        0
    }
}

/// Detail view. Escape restores the list exactly as it was when the entry
/// was opened. Up and down scroll. `d` asks to delete the entry and returns
/// to the list without the rows that carry its names, on the first row.
/// `e` opens the edit wizard on the entry. `u` and `p` ask to copy the
/// username or the password and set a confirmation; `s` shows or hides the
/// password.
pub open spec fn detail_step(
    pre: SessionView,
    key: Key,
    now_ms: u64,
    height: usize,
    post: SessionView,
    action: ActionView,
) -> bool {
    match pre.state {
        StateView::ViewVaultDetail {
            account,
            username,
            password,
            snapshot,
            scroll,
            copy_message,
            obscure_password,
        } => match key {
            Key::Esc => goes(
                pre,
                post,
                action,
                StateView::ShowAllVaults { list: snapshot, show_password: false },
            ),
            Key::Down => goes(
                pre,
                post,
                action,
                StateView::ViewVaultDetail {
                    account,
                    username,
                    password,
                    snapshot,
                    scroll: if scroll < detail_max_scroll(height) {
                        (scroll + 1) as usize
                    } else {
                        scroll
                    },
                    copy_message,
                    obscure_password,
                },
            ),
            Key::Up => goes(
                pre,
                post,
                action,
                StateView::ViewVaultDetail {
                    account,
                    username,
                    password,
                    snapshot,
                    scroll: if scroll > 0 {
                        (scroll - 1) as usize
                    } else {
                        scroll
                    },
                    copy_message,
                    obscure_password,
                },
            ),
            Key::Char(c) => if c == 'd' {
                acts(
                    pre,
                    post,
                    action,
                    StateView::ShowAllVaults {
                        list: list_showing(
                            rows_after_delete(snapshot.rows, account, username),
                            snapshot.show_headers,
                        ),
                        show_password: false,
                    },
                    ActionView::DeleteVault { account, username },
                )
            } else if c == 'e' {
                goes(
                    pre,
                    post,
                    action,
                    StateView::EditVault {
                        step: 0,
                        old_account: account,
                        old_username: username,
                        old_password: password,
                        account,
                        username,
                        snapshot,
                        input: input_holding(account),
                    },
                )
            } else if c == 'u' {
                acts(
                    pre,
                    post,
                    action,
                    StateView::ViewVaultDetail {
                        account,
                        username,
                        password,
                        snapshot,
                        scroll,
                        copy_message: Some(
                            NoticeView { text: "Email/Username copied!"@, at_ms: now_ms },
                        ),
                        obscure_password,
                    },
                    ActionView::CopyText { text: username },
                )
            } else if c == 'p' {
                acts(
                    pre,
                    post,
                    action,
                    StateView::ViewVaultDetail {
                        account,
                        username,
                        password,
                        snapshot,
                        scroll,
                        copy_message: Some(NoticeView { text: "Password copied!"@, at_ms: now_ms }),
                        obscure_password,
                    },
                    ActionView::CopyText { text: password.text },
                )
            } else if c == 's' {
                goes(
                    pre,
                    post,
                    action,
                    StateView::ViewVaultDetail {
                        account,
                        username,
                        password,
                        snapshot,
                        scroll,
                        copy_message: None,
                        obscure_password: !obscure_password,
                    },
                )
            } else {
                stays(pre, post, action)
            },
            _ => stays(pre, post, action),
        },
        _ => false,
    }
}

/// Edit wizard. Enter on the account and on the username keeps the line and
/// moves on, with the next line holding the entry's value as it was opened.
/// On the password step `#` replaces the line by a generated strong
/// password, and Enter encrypts the line under the session key and asks to
/// replace the entry stored under the names it was opened with; a password
/// longer than the cipher takes is not submitted. Escape returns to the
/// detail view of the entry as it was opened. Other keys edit the line.
pub open spec fn edit_step(
    pre: SessionView,
    key: Key,
    post: SessionView,
    action: ActionView,
) -> bool {
    match pre.state {
        StateView::EditVault {
            step,
            old_account,
            old_username,
            old_password,
            account,
            username,
            snapshot,
            input,
        } => match key {
            Key::Enter => if step == 0 {
                goes(
                    pre,
                    post,
                    action,
                    StateView::EditVault {
                        step: 1,
                        old_account,
                        old_username,
                        old_password,
                        account: input.chars,
                        username,
                        snapshot,
                        input: input_holding(old_username),
                    },
                )
            } else if step == 1 {
                goes(
                    pre,
                    post,
                    action,
                    StateView::EditVault {
                        step: 2,
                        old_account,
                        old_username,
                        old_password,
                        account,
                        username: input.chars,
                        snapshot,
                        input: input_holding(old_password.text),
                    },
                )
            } else if step == 2 {
                if encode_utf8(input.chars).len() > MAX_PLAINTEXT_LEN {
                    stays(pre, post, action)
                } else {
                    &&& post == (SessionView { pending: Pending::EditedVaults, ..pre })
                    &&& action matches ActionView::UpdateVault {
                        old_account: key_account,
                        old_username: key_username,
                        account: new_account,
                        username: new_username,
                        secret,
                    }
                    &&& key_account == old_account
                    &&& key_username == old_username
                    &&& new_account == account
                    &&& new_username == username
                    &&& is_encryption_of(secret, input.chars, pre.key)
                }
            } else {
                stays(pre, post, action)
            },
            Key::Esc => goes(
                pre,
                post,
                action,
                detail_of(old_account, old_username, old_password, snapshot),
            ),
            Key::Char(c) => if step == 2 && c == '#' {
                &&& action == ActionView::Idle
                &&& post.state matches StateView::EditVault { input: generated, .. }
                &&& post == (SessionView {
                    state: StateView::EditVault {
                        step,
                        old_account,
                        old_username,
                        old_password,
                        account,
                        username,
                        snapshot,
                        input: generated,
                    },
                    ..pre
                })
                &&& is_generated_password(generated.chars)
                &&& generated.cursor == generated.chars.len()
            } else {
                goes(
                    pre,
                    post,
                    action,
                    StateView::EditVault {
                        step,
                        old_account,
                        old_username,
                        old_password,
                        account,
                        username,
                        snapshot,
                        input: typed(input, c),
                    },
                )
            },
            _ => goes(
                pre,
                post,
                action,
                StateView::EditVault {
                    step,
                    old_account,
                    old_username,
                    old_password,
                    account,
                    username,
                    snapshot,
                    input: edited(input, key),
                },
            ),
        },
        _ => false,
    }
}

/// Search prompt. A character is added at the end of the query and
/// backspace takes the last one away. Enter on a query that is not blank
/// asks for the stored entries; on a blank one it does nothing. Escape
/// returns to the menu.
pub open spec fn search_step(
    pre: SessionView,
    key: Key,
    post: SessionView,
    action: ActionView,
) -> bool {
    match pre.state {
        StateView::SearchVault { input } => match key {
            Key::Char(c) => goes(
                pre,
                post,
                action,
                StateView::SearchVault { input: input_holding(input.chars.push(c)) },
            ),
            Key::Backspace => goes(
                pre,
                post,
                action,
                StateView::SearchVault {
                    input: if input.chars.len() > 0 {
                        input_holding(input.chars.drop_last())
                    } else {
                        input
                    },
                },
            ),
            Key::Enter => if is_blank(input.chars) {
                stays(pre, post, action)
            } else {
                asks(pre, post, action, Pending::SearchResults, ActionView::FetchVaults)
            },
            Key::Esc => goes(pre, post, action, StateView::Menu),
            _ => stays(pre, post, action),
        },
        _ => false,
    }
}

/// What a key press does: nothing while a reply is awaited, else what the
/// current state makes of it.
pub open spec fn key_step(
    pre: SessionView,
    key: Key,
    now_ms: u64,
    height: usize,
    post: SessionView,
    action: ActionView,
) -> bool {
    if pre.pending != Pending::Nothing {
        stays(pre, post, action)
    } else {
        match pre.state {
            StateView::Start => start_step(pre, key, post, action),
            StateView::Menu => menu_step(pre, key, post, action),
            StateView::Register { .. } => register_step(pre, key, now_ms, post, action),
            StateView::CreateAccount { .. } => create_step(pre, key, post, action),
            StateView::ShowAllVaults { .. } => list_step(pre, key, height, post, action),
            StateView::ViewVaultDetail { .. } => detail_step(
                pre,
                key,
                now_ms,
                height,
                post,
                action,
            ),
            StateView::EditVault { .. } => edit_step(pre, key, post, action),
            StateView::SearchVault { .. } => search_step(pre, key, post, action),
        }
    }
}

/// The session after the reply to a username check: a taken name sets an
/// error and asks for another; a free one is kept and the wizard moves on
/// to the password. A reply that is not awaited changes nothing.
pub open spec fn after_username_check(pre: SessionView, taken: bool, now_ms: u64) -> SessionView {
    match pre.state {
        StateView::Register { step, username, password, input, error } => if pre.pending
            == Pending::UsernameCheck {
            SessionView {
                pending: Pending::Nothing,
                state: if taken {
                    StateView::Register {
                        step: 0,
                        username,
                        password,
                        input: blank_input(),
                        error: Some(
                            NoticeView {
                                text: AuthError::UsernameTaken.message_spec(),
                                at_ms: now_ms,
                            },
                        ),
                    }
                } else {
                    StateView::Register {
                        step: 1,
                        username: input.chars,
                        password,
                        input: blank_input(),
                        error,
                    }
                },
                ..pre
            }
        } else {
            pre
        },
        _ => pre,
    }
}

/// The session after the reply to a registration: the menu where the user
/// was persisted; else the first step of the wizard, with the failure as
/// its error. A reply that is not awaited changes nothing.
pub open spec fn after_registration(
    pre: SessionView,
    failure: Option<Seq<char>>,
    now_ms: u64,
) -> SessionView {
    match pre.state {
        StateView::Register { step, username, password, input, error } => if pre.pending
            == Pending::Registration {
            SessionView {
                pending: Pending::Nothing,
                state: match failure {
                    None => StateView::Menu,
                    Some(reason) => StateView::Register {
                        step: 0,
                        username,
                        password,
                        input: blank_input(),
                        error: Some(
                            NoticeView { text: "Failed to register: "@ + reason, at_ms: now_ms },
                        ),
                    },
                },
                ..pre
            }
        } else {
            pre
        },
        _ => pre,
    }
}

/// The session after the stored entries have come in. Awaited for "show
/// all": the list of all entries, with headers unless it is empty. Awaited
/// for a search: the list of the entries that answer the query, without
/// headers. Awaited after an edit: the detail view of the edited entry, on
/// a list of all entries with the first row that carries the entry's new
/// names selected. Not awaited: nothing changes.
pub open spec fn after_vaults(pre: SessionView, entries: Seq<EntryView>, height: usize) -> SessionView {
    match pre.pending {
        Pending::AllVaults => SessionView {
            pending: Pending::Nothing,
            state: StateView::ShowAllVaults {
                list: list_showing(show_all_rows(entries), entries.len() > 0),
                show_password: false,
            },
            ..pre
        },
        Pending::SearchResults => match pre.state {
            StateView::SearchVault { input } => SessionView {
                pending: Pending::Nothing,
                state: StateView::ShowAllVaults {
                    list: list_showing(search_rows(entries, input.chars), false),
                    show_password: false,
                },
                ..pre
            },
            _ => pre,
        },
        Pending::EditedVaults => match pre.state {
            StateView::EditVault { account, username, input, .. } => {
                let rows = show_all_rows(entries);
                SessionView {
                    pending: Pending::Nothing,
                    state: detail_of(
                        account,
                        username,
                        SecretView { text: input.chars, failure: None },
                        ListModel {
                            rows,
                            scroll: 0,
                            selected: position_in(rows, account, username) as usize,
                            show_headers: entries.len() > 0,
                        }.settled(height),
                    ),
                    ..pre
                }
            },
            _ => pre,
        },
        _ => pre,
    }
}

/// What an event does: a key press steps the state machine; a reply is
/// taken where it is awaited and asks for nothing.
pub open spec fn event_step(
    pre: SessionView,
    event: EventView,
    now_ms: u64,
    height: usize,
    post: SessionView,
    action: ActionView,
) -> bool {
    match event {
        EventView::Key { key } => key_step(pre, key, now_ms, height, post, action),
        EventView::UsernameChecked { taken } => post == after_username_check(pre, taken, now_ms)
            && action == ActionView::Idle,
        EventView::UserStored { failure } => post == after_registration(pre, failure, now_ms)
            && action == ActionView::Idle,
        EventView::Vaults { entries } => post == after_vaults(pre, entries, height) && action
            == ActionView::Idle,
    }
}

/// After Up or Down on a list, the selected row lies in the window of
/// `height` lines at the scroll offset. The one exception is a window of a
/// single line with headers shown and the first row selected.
pub proof fn lemma_moves_show_selection(
    pre: SessionView,
    key: Key,
    now_ms: u64,
    height: usize,
    post: SessionView,
    action: ActionView,
)
    requires
        session_wf(pre),
        pre.state is ShowAllVaults,
        pre.pending == Pending::Nothing,
        key == Key::Up || key == Key::Down,
        key_step(pre, key, now_ms, height, post, action),
        height >= 1,
        !(post.state matches StateView::ShowAllVaults { list, .. } && height == 1
            && list.show_headers && list.selected == 0),
    ensures
        post.state matches StateView::ShowAllVaults { list, .. } && list.wf()
            && list.selection_visible(height as int),
{
    match pre.state {
        StateView::ShowAllVaults { list, .. } => {
            let moved = if key == Key::Down {
                if list.selected + 1 < list.rows.len() {
                    ListModel { selected: (list.selected + 1) as usize, ..list }
                } else {
                    list
                }
            } else {
                if list.selected > 0 {
                    ListModel { selected: (list.selected - 1) as usize, ..list }
                } else {
                    list
                }
            };
            lemma_settled_shows_selection(moved, height);
        },
        _ => {},
    }
}

/// Enter on a placeholder row changes nothing and asks for nothing.
pub proof fn lemma_placeholder_is_inert(
    pre: SessionView,
    now_ms: u64,
    height: usize,
    post: SessionView,
    action: ActionView,
)
    requires
        pre.pending == Pending::Nothing,
        pre.state matches StateView::ShowAllVaults { list, .. } && list.rows[list.selected as int].placeholder,
        key_step(pre, Key::Enter, now_ms, height, post, action),
    ensures
        post == pre,
        action == ActionView::Idle,
{
}

/// A search that no entry answers shows the single placeholder for "no
/// results", on which Enter does nothing.
pub proof fn lemma_empty_search(pre: SessionView, entries: Seq<EntryView>, height: usize)
    requires
        pre.pending == Pending::SearchResults,
        pre.state matches StateView::SearchVault { input } && crate::vault::answering(
            entries,
            input.chars,
        ).len() == 0,
    ensures
        after_vaults(pre, entries, height).state == (StateView::ShowAllVaults {
            list: list_showing(seq![crate::vault::no_results_row()], false),
            show_password: false,
        }),
        forall|now_ms: u64, h: usize, post: SessionView, action: ActionView|
            key_step(after_vaults(pre, entries, height), Key::Enter, now_ms, h, post, action)
                ==> post == after_vaults(pre, entries, height) && action == ActionView::Idle,
{
}

/// Whatever is done in the detail view short of deleting or editing, the
/// list it was opened from is kept, and Escape restores it as it was.
pub proof fn lemma_detail_keeps_snapshot(
    pre: SessionView,
    key: Key,
    now_ms: u64,
    height: usize,
    post: SessionView,
    action: ActionView,
)
    requires
        pre.pending == Pending::Nothing,
        pre.state is ViewVaultDetail,
        key_step(pre, key, now_ms, height, post, action),
    ensures
        key == Key::Esc ==> post.state == (StateView::ShowAllVaults {
            list: pre.state->ViewVaultDetail_snapshot,
            show_password: false,
        }),
        post.state is ViewVaultDetail ==> post.state->ViewVaultDetail_snapshot
            == pre.state->ViewVaultDetail_snapshot,
{
}

/// The edit wizard keeps the names the entry was opened with through all
/// its steps, and the update it asks for is keyed by them.
pub proof fn lemma_edit_keeps_original_names(
    pre: SessionView,
    key: Key,
    now_ms: u64,
    height: usize,
    post: SessionView,
    action: ActionView,
)
    requires
        pre.pending == Pending::Nothing,
        pre.state is EditVault,
        key_step(pre, key, now_ms, height, post, action),
    ensures
        post.state is EditVault ==> post.state->EditVault_old_account
            == pre.state->EditVault_old_account && post.state->EditVault_old_username
            == pre.state->EditVault_old_username,
        action matches ActionView::UpdateVault { old_account, old_username, .. } ==> old_account
            == pre.state->EditVault_old_account && old_username
            == pre.state->EditVault_old_username,
        !(action is UpdateVault) ==> action == ActionView::Idle,
{
}

} // verus!
