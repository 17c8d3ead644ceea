use password_manager_lib::crypto::verify_password;
use password_manager_lib::encryption::{decrypt, encrypt, CryptoError};
use password_manager_lib::input::TextInput;
use password_manager_lib::listing::ListLine;
use password_manager_lib::session::Session;
use password_manager_lib::state::{Action, AppState, Event, Key, MenuState, Notice, Pending, Secret};
use password_manager_lib::vault::{empty_vault_placeholder, no_results_placeholder, VaultEntry};
use password_manager_lib::view::{Body, DetailField};
use rusqlite::Connection;

const KEY: [u8; 32] = [42u8; 32];
const OWNER: i64 = 1;

fn session() -> Session {
    Session::new(KEY.to_vec())
}

fn press(s: &mut Session, key: Key) -> Action {
    s.on_key(key, 1000, 10)
}

fn type_text(s: &mut Session, text: &str) {
    for c in text.chars() {
        assert_eq!(press(s, Key::Char(c)), Action::Idle);
    }
}

fn whole(s: &Session) -> String {
    format!("{:?} {:?} {}", s.state(), s.pending(), s.menu_selected())
}

fn in_menu() -> Session {
    let mut s = session();
    assert_eq!(press(&mut s, Key::Enter), Action::Idle);
    assert_eq!(*s.state(), AppState::Menu);
    s
}

fn entry(account: &str, username: &str, password: &str) -> VaultEntry {
    VaultEntry {
        account: account.to_string(),
        username: username.to_string(),
        secret: encrypt(password, &KEY),
    }
}

fn open_store() -> Connection {
    let conn = Connection::open_in_memory().unwrap();
    conn.execute(
        "CREATE TABLE IF NOT EXISTS passwords (
            id INTEGER PRIMARY KEY AUTOINCREMENT,
            user_id INTEGER NOT NULL,
            account TEXT NOT NULL,
            username TEXT NOT NULL,
            password_encrypted BLOB NOT NULL
        )",
        (),
    )
    .unwrap();
    conn
}

fn stored(conn: &Connection) -> Vec<VaultEntry> {
    let mut stmt = conn
        .prepare("SELECT account, username, password_encrypted FROM passwords WHERE user_id = ?1")
        .unwrap();
    let rows = stmt
        .query_map((OWNER,), |row| {
            Ok(VaultEntry { account: row.get(0)?, username: row.get(1)?, secret: row.get(2)? })
        })
        .unwrap();
    rows.map(|r| r.unwrap()).collect()
}

fn perform(conn: &Connection, s: &mut Session, action: Action) {
    match action {
        Action::FetchVaults => s.on_vaults(stored(conn), 10),
        Action::InsertVault { account, username, secret } => {
            conn.execute(
                "INSERT INTO passwords (user_id, account, username, password_encrypted) VALUES (?1, ?2, ?3, ?4)",
                (OWNER, account, username, secret),
            )
            .unwrap();
        }
        Action::UpdateVault { old_account, old_username, account, username, secret } => {
            conn.execute(
                "UPDATE passwords SET account = ?1, username = ?2, password_encrypted = ?3 WHERE account = ?4 AND username = ?5 AND user_id = ?6",
                (account, username, secret, old_account, old_username, OWNER),
            )
            .unwrap();
            s.on_vaults(stored(conn), 10);
        }
        Action::DeleteVault { account, username } => {
            conn.execute(
                "DELETE FROM passwords WHERE account = ?1 AND username = ?2 AND user_id = ?3",
                (account, username, OWNER),
            )
            .unwrap();
        }
        Action::Idle | Action::CopyText { .. } => {}
        other => panic!("unexpected action {:?}", other),
    }
}

fn drive(conn: &Connection, s: &mut Session, key: Key) {
    let action = press(s, key);
    perform(conn, s, action);
}

fn drive_text(conn: &Connection, s: &mut Session, text: &str) {
    for c in text.chars() {
        drive(conn, s, Key::Char(c));
    }
}

fn names_of(s: &Session) -> Vec<(String, String)> {
    match s.state() {
        AppState::ShowAllVaults { list, .. } => {
            list.entries.iter().map(|r| (r.account.clone(), r.username.clone())).collect()
        }
        other => panic!("not a list: {:?}", other),
    }
}

fn pairs(list: &[(&str, &str)]) -> Vec<(String, String)> {
    list.iter().map(|(a, u)| (a.to_string(), u.to_string())).collect()
}

#[test]
fn menu_state_moves_within_its_items() {
    let mut menu = MenuState::new();
    assert_eq!(menu.selected, 0);
    menu.previous();
    assert_eq!(menu.selected, 0);
    menu.next(3);
    menu.next(3);
    assert_eq!(menu.selected, 2);
    menu.next(3);
    assert_eq!(menu.selected, 2);
    menu.next(1);
    assert_eq!(menu.selected, 2);
    menu.next(4);
    assert_eq!(menu.selected, 3);
    menu.previous();
    assert_eq!(menu.selected, 2);
}

#[test]
fn a_session_starts_on_the_start_screen() {
    let s = session();
    assert_eq!(*s.state(), AppState::Start);
    assert_eq!(s.menu_selected(), 0);
    assert_eq!(s.pending(), Pending::Nothing);
}

#[test]
fn start_screen_navigation() {
    let mut s = session();
    press(&mut s, Key::Down);
    press(&mut s, Key::Down);
    press(&mut s, Key::Down);
    assert_eq!(s.menu_selected(), 2);
    assert_eq!(press(&mut s, Key::Enter), Action::Quit);
    assert_eq!(*s.state(), AppState::Start);
    press(&mut s, Key::Up);
    assert_eq!(s.menu_selected(), 1);
    assert_eq!(press(&mut s, Key::Char('x')), Action::Idle);
    assert_eq!(press(&mut s, Key::Char('q')), Action::Quit);
    assert_eq!(press(&mut s, Key::Enter), Action::Idle);
    assert_eq!(
        *s.state(),
        AppState::Register {
            step: 0,
            username: String::new(),
            password: String::new(),
            input: TextInput::new(),
            error: None,
        }
    );
}

#[test]
fn login_enters_the_menu() {
    let mut s = session();
    assert_eq!(press(&mut s, Key::Enter), Action::Idle);
    assert_eq!(*s.state(), AppState::Menu);
}

#[test]
fn menu_navigation_and_choices() {
    let mut s = in_menu();
    assert_eq!(press(&mut s, Key::Char('q')), Action::Quit);
    assert_eq!(press(&mut s, Key::Enter), Action::Idle);
    assert!(matches!(s.state(), AppState::CreateAccount { step: 0, .. }));
    press(&mut s, Key::Esc);
    assert_eq!(*s.state(), AppState::Menu);
    press(&mut s, Key::Down);
    assert_eq!(press(&mut s, Key::Enter), Action::Idle);
    assert_eq!(*s.state(), AppState::SearchVault { input: TextInput::new() });
    press(&mut s, Key::Esc);
    press(&mut s, Key::Down);
    assert_eq!(press(&mut s, Key::Enter), Action::FetchVaults);
    assert_eq!(s.pending(), Pending::AllVaults);
    s.on_vaults(Vec::new(), 10);
    assert!(matches!(s.state(), AppState::ShowAllVaults { .. }));
    press(&mut s, Key::Esc);
    press(&mut s, Key::Down);
    press(&mut s, Key::Down);
    assert_eq!(s.menu_selected(), 3);
    assert_eq!(press(&mut s, Key::Enter), Action::Quit);
}

#[test]
fn keys_wait_for_the_reply() {
    let mut s = in_menu();
    press(&mut s, Key::Down);
    press(&mut s, Key::Down);
    assert_eq!(press(&mut s, Key::Enter), Action::FetchVaults);
    assert_eq!(press(&mut s, Key::Enter), Action::Idle);
    assert_eq!(press(&mut s, Key::Up), Action::Idle);
    assert_eq!(s.menu_selected(), 2);
    assert_eq!(*s.state(), AppState::Menu);
}

#[test]
fn replies_that_are_not_awaited_change_nothing() {
    let mut s = in_menu();
    s.on_vaults(vec![entry("a", "b", "c")], 10);
    s.on_username_checked(true, 5);
    s.on_user_stored(None, 5);
    assert_eq!(*s.state(), AppState::Menu);
    assert_eq!(s.pending(), Pending::Nothing);
}

#[test]
fn create_wizard_persists_one_entry() {
    let conn = open_store();
    let mut s = in_menu();
    drive(&conn, &mut s, Key::Enter);
    drive_text(&conn, &mut s, "site.com");
    drive(&conn, &mut s, Key::Enter);
    drive_text(&conn, &mut s, "me@x.com");
    drive(&conn, &mut s, Key::Enter);
    drive_text(&conn, &mut s, "pw123");
    assert!(stored(&conn).is_empty());
    drive(&conn, &mut s, Key::Enter);
    assert_eq!(*s.state(), AppState::Menu);
    let rows = stored(&conn);
    assert_eq!(rows.len(), 1);
    assert_eq!(rows[0].account, "site.com");
    assert_eq!(rows[0].username, "me@x.com");
    assert_eq!(decrypt(&rows[0].secret, &KEY), Ok("pw123".to_string()));
}

#[test]
fn create_wizard_steps_and_editing() {
    let mut s = in_menu();
    press(&mut s, Key::Enter);
    type_text(&mut s, "sie");
    press(&mut s, Key::Left);
    press(&mut s, Key::Char('t'));
    press(&mut s, Key::Right);
    press(&mut s, Key::Right);
    press(&mut s, Key::Char('x'));
    press(&mut s, Key::Backspace);
    press(&mut s, Key::Up);
    press(&mut s, Key::Down);
    assert_eq!(
        *s.state(),
        AppState::CreateAccount {
            step: 0,
            account: String::new(),
            username: String::new(),
            input: TextInput { chars: "site".chars().collect(), cursor: 4 },
        }
    );
    press(&mut s, Key::Char('#'));
    press(&mut s, Key::Enter);
    assert_eq!(
        *s.state(),
        AppState::CreateAccount {
            step: 1,
            account: "site#".to_string(),
            username: String::new(),
            input: TextInput::new(),
        }
    );
    type_text(&mut s, "me");
    press(&mut s, Key::Enter);
    assert_eq!(
        *s.state(),
        AppState::CreateAccount {
            step: 2,
            account: "site#".to_string(),
            username: "me".to_string(),
            input: TextInput::new(),
        }
    );
    match press(&mut s, Key::Enter) {
        Action::InsertVault { account, username, secret } => {
            assert_eq!(account, "site#");
            assert_eq!(username, "me");
            assert_eq!(decrypt(&secret, &KEY), Ok(String::new()));
        }
        other => panic!("{:?}", other),
    }
    assert_eq!(*s.state(), AppState::Menu);
}

#[test]
fn create_wizard_escape_discards_everything() {
    let conn = open_store();
    let mut s = in_menu();
    drive(&conn, &mut s, Key::Enter);
    drive_text(&conn, &mut s, "site.com");
    drive(&conn, &mut s, Key::Enter);
    drive_text(&conn, &mut s, "me");
    drive(&conn, &mut s, Key::Esc);
    assert_eq!(*s.state(), AppState::Menu);
    assert!(stored(&conn).is_empty());
    drive(&conn, &mut s, Key::Enter);
    assert!(matches!(s.state(), AppState::CreateAccount { step: 0, account, .. } if account.is_empty()));
}

#[test]
fn hot_key_generates_a_password_on_the_password_step() {
    let mut s = in_menu();
    press(&mut s, Key::Enter);
    press(&mut s, Key::Enter);
    press(&mut s, Key::Enter);
    type_text(&mut s, "typed");
    assert_eq!(press(&mut s, Key::Char('#')), Action::Idle);
    let generated: String = match s.state() {
        AppState::CreateAccount { step: 2, input, .. } => {
            assert_eq!(input.cursor, 20);
            input.chars.iter().collect()
        }
        other => panic!("{:?}", other),
    };
    assert_eq!(generated.len(), 20);
    assert_eq!(&generated[5..6], "-");
    assert_eq!(&generated[11..12], "-");
    assert_eq!(&generated[17..18], "-");
    match press(&mut s, Key::Enter) {
        Action::InsertVault { secret, .. } => {
            assert_eq!(decrypt(&secret, &KEY), Ok(generated));
        }
        other => panic!("{:?}", other),
    }
}

#[test]
fn show_all_of_an_empty_vault() {
    let conn = open_store();
    let mut s = in_menu();
    drive(&conn, &mut s, Key::Down);
    drive(&conn, &mut s, Key::Down);
    drive(&conn, &mut s, Key::Enter);
    match s.state() {
        AppState::ShowAllVaults { list, show_password } => {
            assert_eq!(list.entries, vec![empty_vault_placeholder()]);
            assert!(!list.show_headers);
            assert_eq!((list.selected, list.scroll), (0, 0));
            assert!(!*show_password);
        }
        other => panic!("{:?}", other),
    }
    let before = whole(&s);
    assert_eq!(press(&mut s, Key::Enter), Action::Idle);
    assert_eq!(whole(&s), before);
}

#[test]
fn show_all_sorts_the_entries() {
    let mut s = in_menu();
    press(&mut s, Key::Down);
    press(&mut s, Key::Down);
    press(&mut s, Key::Enter);
    s.on_vaults(vec![entry("zeta", "a", "1"), entry("Alpha", "b", "2")], 10);
    assert_eq!(names_of(&s), pairs(&[("Alpha", "b"), ("zeta", "a")]));
    assert!(matches!(s.state(), AppState::ShowAllVaults { list, .. } if list.show_headers));
    assert_eq!(s.pending(), Pending::Nothing);
}

#[test]
fn search_finds_by_account() {
    let mut s = in_menu();
    press(&mut s, Key::Down);
    press(&mut s, Key::Enter);
    type_text(&mut s, "gix");
    press(&mut s, Key::Backspace);
    press(&mut s, Key::Left);
    press(&mut s, Key::Char('t'));
    assert_eq!(press(&mut s, Key::Enter), Action::FetchVaults);
    assert_eq!(s.pending(), Pending::SearchResults);
    s.on_vaults(
        vec![entry("GitHub", "a", "1"), entry("Gitlab", "b", "2"), entry("Example", "c", "3")],
        10,
    );
    assert_eq!(names_of(&s), pairs(&[("GitHub", "a"), ("Gitlab", "b")]));
    assert!(matches!(s.state(), AppState::ShowAllVaults { list, .. } if !list.show_headers));
}

#[test]
fn blank_search_is_ignored() {
    let mut s = in_menu();
    press(&mut s, Key::Down);
    press(&mut s, Key::Enter);
    assert_eq!(press(&mut s, Key::Enter), Action::Idle);
    type_text(&mut s, "  \t");
    assert_eq!(press(&mut s, Key::Enter), Action::Idle);
    assert_eq!(s.pending(), Pending::Nothing);
    assert!(matches!(s.state(), AppState::SearchVault { input } if input.chars.len() == 3));
    press(&mut s, Key::Backspace);
    press(&mut s, Key::Backspace);
    press(&mut s, Key::Backspace);
    press(&mut s, Key::Backspace);
    assert_eq!(*s.state(), AppState::SearchVault { input: TextInput::new() });
    press(&mut s, Key::Esc);
    assert_eq!(*s.state(), AppState::Menu);
}

#[test]
fn empty_search_result_is_an_inert_placeholder() {
    let mut s = in_menu();
    press(&mut s, Key::Down);
    press(&mut s, Key::Enter);
    type_text(&mut s, "nothing");
    press(&mut s, Key::Enter);
    s.on_vaults(vec![entry("GitHub", "a", "1")], 10);
    match s.state() {
        AppState::ShowAllVaults { list, .. } => {
            assert_eq!(list.entries, vec![no_results_placeholder()]);
            assert_eq!(list.entries[0].account, "Sorry, no results :(");
            assert_eq!(list.entries[0].username, "");
            assert_eq!(list.entries[0].secret, "");
        }
        other => panic!("{:?}", other),
    }
    let before = whole(&s);
    assert_eq!(press(&mut s, Key::Enter), Action::Idle);
    assert_eq!(whole(&s), before);
    press(&mut s, Key::Down);
    press(&mut s, Key::Up);
    assert_eq!(whole(&s), before);
}

fn listing(entries: Vec<VaultEntry>) -> Session {
    let mut s = in_menu();
    press(&mut s, Key::Down);
    press(&mut s, Key::Down);
    press(&mut s, Key::Enter);
    s.on_vaults(entries, 10);
    s
}

fn five() -> Vec<VaultEntry> {
    vec![
        entry("gamma", "g", "pw-g"),
        entry("Alpha", "a", "pw-a"),
        entry("apple", "p", "pw-p"),
        entry("Gopher", "o", "pw-o"),
        entry("Beta", "b", "pw-b"),
    ]
}

#[test]
fn list_moves_and_scrolls() {
    let mut s = listing(five());
    let mut seen = Vec::new();
    for _ in 0..5 {
        s.on_key(Key::Down, 0, 3);
        if let AppState::ShowAllVaults { list, .. } = s.state() {
            seen.push((list.selected, list.scroll));
        }
    }
    assert_eq!(seen, vec![(1, 0), (2, 2), (3, 4), (4, 5), (4, 5)]);
    s.on_key(Key::Up, 0, 3);
    s.on_key(Key::Up, 0, 3);
    assert!(matches!(s.state(), AppState::ShowAllVaults { list, .. } if (list.selected, list.scroll) == (2, 4)));
    assert_eq!(press(&mut s, Key::Char('x')), Action::Idle);
    press(&mut s, Key::Esc);
    assert_eq!(*s.state(), AppState::Menu);
}

#[test]
fn enter_opens_the_detail_view_with_the_decrypted_secret() {
    let mut s = listing(five());
    press(&mut s, Key::Down);
    press(&mut s, Key::Down);
    let list = match s.state() {
        AppState::ShowAllVaults { list, .. } => list.clone(),
        other => panic!("{:?}", other),
    };
    assert_eq!(press(&mut s, Key::Enter), Action::Idle);
    assert_eq!(
        *s.state(),
        AppState::ViewVaultDetail {
            account: "Beta".to_string(),
            username: "b".to_string(),
            password: Secret { text: "pw-b".to_string(), failure: None },
            snapshot: list,
            scroll: 0,
            copy_message: None,
            obscure_password: true,
        }
    );
}

#[test]
fn a_secret_that_does_not_decrypt_shows_as_err() {
    let mut tampered = entry("site", "me", "pw");
    tampered.secret[20] ^= 1;
    let entries = vec![
        tampered,
        VaultEntry { account: "tiny".to_string(), username: "x".to_string(), secret: vec![1, 2, 3] },
        VaultEntry { account: "wrong key".to_string(), username: "x".to_string(), secret: encrypt("pw", &[1u8; 32]) },
    ];
    let mut s = listing(entries);
    press(&mut s, Key::Enter);
    assert!(matches!(
        s.state(),
        AppState::ViewVaultDetail { password, .. }
            if *password == Secret { text: "ERR".to_string(), failure: Some(CryptoError::AuthenticationFailed) }
    ));
    press(&mut s, Key::Esc);
    press(&mut s, Key::Down);
    press(&mut s, Key::Enter);
    assert!(matches!(
        s.state(),
        AppState::ViewVaultDetail { account, password, .. }
            if account == "tiny" && *password == Secret { text: "ERR".to_string(), failure: Some(CryptoError::TooShort) }
    ));
    press(&mut s, Key::Esc);
    press(&mut s, Key::Down);
    press(&mut s, Key::Enter);
    assert!(matches!(
        s.state(),
        AppState::ViewVaultDetail { password, .. }
            if password.failure == Some(CryptoError::AuthenticationFailed)
    ));
}

#[test]
fn escape_restores_the_list_whatever_was_done_in_the_detail_view() {
    let mut s = listing(five());
    s.on_key(Key::Down, 0, 3);
    s.on_key(Key::Down, 0, 3);
    s.on_key(Key::Down, 0, 3);
    let before = format!("{:?}", s.state());
    s.on_key(Key::Enter, 0, 3);
    s.on_key(Key::Down, 1, 3);
    s.on_key(Key::Down, 2, 3);
    s.on_key(Key::Char('s'), 3, 3);
    s.on_key(Key::Char('u'), 4, 3);
    s.on_key(Key::Char('p'), 5, 3);
    s.on_key(Key::Up, 6, 3);
    s.on_key(Key::Char('z'), 7, 3);
    s.on_key(Key::Char('e'), 8, 3);
    s.on_key(Key::Char('x'), 9, 3);
    s.on_key(Key::Esc, 10, 3);
    assert!(matches!(s.state(), AppState::ViewVaultDetail { .. }));
    s.on_key(Key::Esc, 11, 3);
    assert_eq!(format!("{:?}", s.state()), before);
}

#[test]
fn detail_view_scrolls_within_its_lines() {
    let mut s = listing(five());
    press(&mut s, Key::Enter);
    let scroll = |s: &Session| match s.state() {
        AppState::ViewVaultDetail { scroll, .. } => *scroll,
        other => panic!("{:?}", other),
    };
    for expected in [1, 2, 3, 4, 4, 4] {
        s.on_key(Key::Down, 0, 5);
        assert_eq!(scroll(&s), expected);
    }
    s.on_key(Key::Down, 0, 9);
    assert_eq!(scroll(&s), 4);
    s.on_key(Key::Down, 0, 0);
    assert_eq!(scroll(&s), 5);
    for expected in [4, 3, 2, 1, 0, 0] {
        s.on_key(Key::Up, 0, 5);
        assert_eq!(scroll(&s), expected);
    }
    s.on_key(Key::Down, 0, 100);
    assert_eq!(scroll(&s), 0);
}

#[test]
fn copy_actions_set_a_timed_notice() {
    let mut s = listing(five());
    press(&mut s, Key::Enter);
    assert_eq!(s.on_key(Key::Char('u'), 777, 10), Action::CopyText { text: "a".to_string() });
    assert!(matches!(
        s.state(),
        AppState::ViewVaultDetail { copy_message: Some(n), obscure_password: true, .. }
            if *n == Notice { text: "Email/Username copied!".to_string(), at_ms: 777 }
    ));
    assert_eq!(s.on_key(Key::Char('p'), 900, 10), Action::CopyText { text: "pw-a".to_string() });
    assert!(matches!(
        s.state(),
        AppState::ViewVaultDetail { copy_message: Some(n), .. }
            if *n == Notice { text: "Password copied!".to_string(), at_ms: 900 }
    ));
    assert_eq!(s.on_key(Key::Char('s'), 901, 10), Action::Idle);
    assert!(matches!(
        s.state(),
        AppState::ViewVaultDetail { copy_message: None, obscure_password: false, .. }
    ));
    s.on_key(Key::Char('s'), 902, 10);
    assert!(matches!(s.state(), AppState::ViewVaultDetail { obscure_password: true, .. }));
}

#[test]
fn delete_removes_the_entry_and_returns_to_the_list() {
    let conn = open_store();
    for e in five() {
        perform(&conn, &mut session(), Action::InsertVault { account: e.account, username: e.username, secret: e.secret });
    }
    let mut s = in_menu();
    drive(&conn, &mut s, Key::Down);
    drive(&conn, &mut s, Key::Down);
    drive(&conn, &mut s, Key::Enter);
    s.on_key(Key::Down, 0, 2);
    s.on_key(Key::Down, 0, 2);
    s.on_key(Key::Down, 0, 2);
    drive(&conn, &mut s, Key::Enter);
    drive(&conn, &mut s, Key::Char('d'));
    assert_eq!(names_of(&s), pairs(&[("Alpha", "a"), ("apple", "p"), ("Beta", "b"), ("Gopher", "o")]));
    assert!(matches!(
        s.state(),
        AppState::ShowAllVaults { list, show_password: false }
            if (list.selected, list.scroll, list.show_headers) == (0, 0, true)
    ));
    let mut left: Vec<String> = stored(&conn).into_iter().map(|e| e.account).collect();
    left.sort();
    assert_eq!(left, vec!["Alpha", "Beta", "Gopher", "apple"]);
}

#[test]
fn deleting_the_last_entry_leaves_the_placeholder() {
    let mut s = listing(vec![entry("only", "one", "pw")]);
    press(&mut s, Key::Enter);
    assert_eq!(
        press(&mut s, Key::Char('d')),
        Action::DeleteVault { account: "only".to_string(), username: "one".to_string() }
    );
    match s.state() {
        AppState::ShowAllVaults { list, .. } => {
            assert_eq!(list.entries, vec![no_results_placeholder()]);
            assert_eq!(list.selected, 0);
        }
        other => panic!("{:?}", other),
    }
    assert_eq!(press(&mut s, Key::Enter), Action::Idle);
    assert!(matches!(s.state(), AppState::ShowAllVaults { .. }));
}

#[test]
fn edit_updates_the_row_found_by_its_original_names() {
    let conn = open_store();
    for e in [entry("old.com", "me", "pw"), entry("other.com", "me", "x"), entry("old.com", "you", "y")] {
        perform(&conn, &mut session(), Action::InsertVault { account: e.account, username: e.username, secret: e.secret });
    }
    let mut s = in_menu();
    drive(&conn, &mut s, Key::Down);
    drive(&conn, &mut s, Key::Down);
    drive(&conn, &mut s, Key::Enter);
    assert_eq!(names_of(&s), pairs(&[("old.com", "me"), ("old.com", "you"), ("other.com", "me")]));
    drive(&conn, &mut s, Key::Enter);
    drive(&conn, &mut s, Key::Char('e'));
    for _ in 0..7 {
        drive(&conn, &mut s, Key::Backspace);
    }
    drive_text(&conn, &mut s, "new.com");
    drive(&conn, &mut s, Key::Enter);
    drive(&conn, &mut s, Key::Enter);
    drive(&conn, &mut s, Key::Enter);
    let rows = stored(&conn);
    assert_eq!(rows.len(), 3);
    assert_eq!(rows.iter().filter(|e| e.account == "old.com" && e.username == "me").count(), 0);
    assert_eq!(rows.iter().filter(|e| e.account == "new.com").count(), 1);
    assert_eq!(rows.iter().filter(|e| e.account == "old.com" && e.username == "you").count(), 1);
    let edited = rows.iter().find(|e| e.account == "new.com").unwrap();
    assert_eq!(edited.username, "me");
    assert_eq!(decrypt(&edited.secret, &KEY), Ok("pw".to_string()));
    match s.state() {
        AppState::ViewVaultDetail { account, username, password, snapshot, scroll, copy_message, obscure_password } => {
            assert_eq!(account, "new.com");
            assert_eq!(username, "me");
            assert_eq!(*password, Secret { text: "pw".to_string(), failure: None });
            assert_eq!(snapshot.selected, 0);
            assert!(snapshot.show_headers);
            assert_eq!(snapshot.entries[0].account, "new.com");
            assert_eq!(snapshot.entries.len(), 3);
            assert_eq!((*scroll, copy_message.is_none(), *obscure_password), (0, true, true));
        }
        other => panic!("{:?}", other),
    }
    assert_eq!(s.pending(), Pending::Nothing);
}

#[test]
fn edit_wizard_walks_through_the_fields() {
    let mut s = listing(vec![entry("old.com", "me", "pw"), entry("zzz", "z", "z")]);
    press(&mut s, Key::Enter);
    press(&mut s, Key::Char('e'));
    assert!(matches!(
        s.state(),
        AppState::EditVault { step: 0, input, old_account, account, .. }
            if *input == TextInput::holding("old.com") && old_account == "old.com" && account == "old.com"
    ));
    type_text(&mut s, "#");
    press(&mut s, Key::Enter);
    assert!(matches!(
        s.state(),
        AppState::EditVault { step: 1, input, account, username, .. }
            if *input == TextInput::holding("me") && account == "old.com#" && username == "me"
    ));
    press(&mut s, Key::Left);
    press(&mut s, Key::Char('h'));
    press(&mut s, Key::Enter);
    assert!(matches!(
        s.state(),
        AppState::EditVault { step: 2, input, username, .. }
            if *input == TextInput::holding("pw") && username == "mhe"
    ));
    press(&mut s, Key::Char('2'));
    match press(&mut s, Key::Enter) {
        Action::UpdateVault { old_account, old_username, account, username, secret } => {
            assert_eq!(old_account, "old.com");
            assert_eq!(old_username, "me");
            assert_eq!(account, "old.com#");
            assert_eq!(username, "mhe");
            assert_eq!(decrypt(&secret, &KEY), Ok("pw2".to_string()));
        }
        other => panic!("{:?}", other),
    }
    assert_eq!(s.pending(), Pending::EditedVaults);
    s.on_vaults(
        vec![entry("zzz", "z", "z"), entry("old.com#", "mhe", "pw2"), entry("aaa", "a", "a")],
        10,
    );
    match s.state() {
        AppState::ViewVaultDetail { account, password, snapshot, .. } => {
            assert_eq!(account, "old.com#");
            assert_eq!(password.text, "pw2");
            assert_eq!(snapshot.selected, 1);
            assert_eq!(snapshot.entries[1].username, "mhe");
        }
        other => panic!("{:?}", other),
    }
}

#[test]
fn edit_wizard_generates_a_password() {
    let mut s = listing(vec![entry("old.com", "me", "pw")]);
    press(&mut s, Key::Enter);
    press(&mut s, Key::Char('e'));
    press(&mut s, Key::Enter);
    press(&mut s, Key::Enter);
    press(&mut s, Key::Char('#'));
    let generated: String = match s.state() {
        AppState::EditVault { step: 2, input, .. } => {
            assert_eq!(input.cursor, 20);
            input.chars.iter().collect()
        }
        other => panic!("{:?}", other),
    };
    assert_eq!(generated.chars().filter(|c| *c == '-').count(), 3);
    match press(&mut s, Key::Enter) {
        Action::UpdateVault { secret, .. } => assert_eq!(decrypt(&secret, &KEY), Ok(generated)),
        other => panic!("{:?}", other),
    }
}

#[test]
fn edit_escape_returns_to_the_original_values() {
    let mut s = listing(vec![entry("old.com", "me", "pw")]);
    press(&mut s, Key::Enter);
    let before = format!("{:?}", s.state());
    press(&mut s, Key::Char('e'));
    type_text(&mut s, "xx");
    press(&mut s, Key::Enter);
    type_text(&mut s, "yy");
    press(&mut s, Key::Esc);
    assert_eq!(format!("{:?}", s.state()), before);
}

#[test]
fn edited_entry_that_vanished_selects_the_first_row() {
    let mut s = listing(vec![entry("old.com", "me", "pw")]);
    press(&mut s, Key::Enter);
    press(&mut s, Key::Char('e'));
    press(&mut s, Key::Enter);
    press(&mut s, Key::Enter);
    press(&mut s, Key::Enter);
    s.on_vaults(vec![entry("b", "b", "b"), entry("a", "a", "a")], 10);
    assert!(matches!(
        s.state(),
        AppState::ViewVaultDetail { snapshot, account, .. }
            if snapshot.selected == 0 && snapshot.entries[0].account == "a" && account == "old.com"
    ));
    let mut s = listing(vec![entry("old.com", "me", "pw")]);
    press(&mut s, Key::Enter);
    press(&mut s, Key::Char('e'));
    press(&mut s, Key::Enter);
    press(&mut s, Key::Enter);
    press(&mut s, Key::Enter);
    s.on_vaults(Vec::new(), 10);
    assert!(matches!(
        s.state(),
        AppState::ViewVaultDetail { snapshot, .. }
            if snapshot.entries == vec![empty_vault_placeholder()] && !snapshot.show_headers
    ));
}

fn registering() -> Session {
    let mut s = session();
    press(&mut s, Key::Down);
    press(&mut s, Key::Enter);
    s
}

#[test]
fn register_wizard_registers_a_user() {
    let mut s = registering();
    type_text(&mut s, "alice");
    assert_eq!(press(&mut s, Key::Enter), Action::CheckUsername { username: "alice".to_string() });
    assert_eq!(s.pending(), Pending::UsernameCheck);
    s.on_username_checked(false, 10);
    assert_eq!(
        *s.state(),
        AppState::Register {
            step: 1,
            username: "alice".to_string(),
            password: String::new(),
            input: TextInput::new(),
            error: None,
        }
    );
    type_text(&mut s, "s3cret");
    press(&mut s, Key::Enter);
    assert!(matches!(s.state(), AppState::Register { step: 2, password, input, .. }
        if password == "s3cret" && input.chars.is_empty()));
    type_text(&mut s, "s3cret");
    match press(&mut s, Key::Enter) {
        Action::StoreUser { username, password_hash } => {
            assert_eq!(username, "alice");
            assert!(verify_password(&password_hash, "s3cret"));
            assert!(!verify_password(&password_hash, "alice"));
        }
        other => panic!("{:?}", other),
    }
    assert_eq!(s.pending(), Pending::Registration);
    s.on_user_stored(None, 20);
    assert_eq!(*s.state(), AppState::Menu);
    assert_eq!(s.pending(), Pending::Nothing);
}

#[test]
fn taken_username_is_asked_again() {
    let mut s = registering();
    type_text(&mut s, "alice");
    press(&mut s, Key::Enter);
    s.on_username_checked(true, 4242);
    assert_eq!(
        *s.state(),
        AppState::Register {
            step: 0,
            username: String::new(),
            password: String::new(),
            input: TextInput::new(),
            error: Some(Notice { text: "Username already taken".to_string(), at_ms: 4242 }),
        }
    );
}

#[test]
fn mismatched_passwords_return_to_the_password_step() {
    let mut s = registering();
    type_text(&mut s, "alice");
    press(&mut s, Key::Enter);
    s.on_username_checked(false, 1);
    type_text(&mut s, "one");
    press(&mut s, Key::Enter);
    type_text(&mut s, "two");
    assert_eq!(s.on_key(Key::Enter, 99, 10), Action::Idle);
    assert_eq!(
        *s.state(),
        AppState::Register {
            step: 1,
            username: "alice".to_string(),
            password: "one".to_string(),
            input: TextInput::holding("two"),
            error: Some(Notice { text: "Passwords do not match".to_string(), at_ms: 99 }),
        }
    );
    assert_eq!(s.pending(), Pending::Nothing);
}

#[test]
fn failed_registration_returns_to_the_first_step() {
    let mut s = registering();
    type_text(&mut s, "alice");
    press(&mut s, Key::Enter);
    s.on_username_checked(false, 1);
    type_text(&mut s, "pw");
    press(&mut s, Key::Enter);
    type_text(&mut s, "pw");
    press(&mut s, Key::Enter);
    s.on_user_stored(Some("UNIQUE constraint failed".to_string()), 7);
    assert_eq!(
        *s.state(),
        AppState::Register {
            step: 0,
            username: "alice".to_string(),
            password: "pw".to_string(),
            input: TextInput::new(),
            error: Some(Notice {
                text: "Failed to register: UNIQUE constraint failed".to_string(),
                at_ms: 7,
            }),
        }
    );
}

#[test]
fn register_escape_returns_to_the_start_screen() {
    let mut s = registering();
    type_text(&mut s, "alice");
    press(&mut s, Key::Esc);
    assert_eq!(*s.state(), AppState::Start);
    assert_eq!(s.menu_selected(), 1);
    press(&mut s, Key::Enter);
    assert!(matches!(s.state(), AppState::Register { step: 0, input, .. } if input.chars.is_empty()));
}

#[test]
fn handle_dispatches_events() {
    let mut s = session();
    assert_eq!(s.handle(Event::Key { key: Key::Down }, 0, 10), Action::Idle);
    assert_eq!(s.handle(Event::Key { key: Key::Enter }, 0, 10), Action::Idle);
    for c in "bob".chars() {
        s.handle(Event::Key { key: Key::Char(c) }, 0, 10);
    }
    assert_eq!(
        s.handle(Event::Key { key: Key::Enter }, 0, 10),
        Action::CheckUsername { username: "bob".to_string() }
    );
    assert_eq!(s.handle(Event::UsernameChecked { taken: false }, 0, 10), Action::Idle);
    s.handle(Event::Key { key: Key::Char('x') }, 0, 10);
    s.handle(Event::Key { key: Key::Enter }, 0, 10);
    s.handle(Event::Key { key: Key::Char('x') }, 0, 10);
    assert!(matches!(s.handle(Event::Key { key: Key::Enter }, 0, 10), Action::StoreUser { .. }));
    assert_eq!(s.handle(Event::UserStored { failure: None }, 0, 10), Action::Idle);
    assert_eq!(*s.state(), AppState::Menu);
    s.handle(Event::Key { key: Key::Down }, 0, 10);
    assert_eq!(s.handle(Event::Key { key: Key::Enter }, 0, 10), Action::FetchVaults);
    assert_eq!(
        s.handle(Event::Vaults { entries: vec![entry("a", "b", "c")] }, 0, 10),
        Action::Idle
    );
    assert_eq!(names_of(&s), pairs(&[("a", "b")]));
}

#[test]
fn screens_of_the_action_lists() {
    let mut s = session();
    let screen = s.screen(0, 10);
    assert_eq!(screen.items, vec!["Login", "Register", "End"]);
    assert_eq!(screen.title, "Action");
    assert_eq!(screen.body, Body::Message { text: "Pick an option.".to_string() });
    press(&mut s, Key::Enter);
    let screen = s.screen(0, 10);
    assert_eq!(screen.items, vec!["Create vault", "Search vault", "Show all vaults", "Logout"]);
    assert_eq!(screen.body, Body::Message { text: "Pick option in menu.".to_string() });
}

#[test]
fn screens_of_the_wizards() {
    let mut s = in_menu();
    press(&mut s, Key::Enter);
    type_text(&mut s, "abc");
    press(&mut s, Key::Left);
    press(&mut s, Key::Left);
    let screen = s.screen(0, 10);
    assert_eq!(screen.items, vec!["Currently working in the terminal to the right."]);
    assert_eq!(screen.title, "Adding Vault manually (Cancel/Menu - Esc)");
    assert_eq!(
        screen.body,
        Body::Prompt {
            label: "Enter website name:".to_string(),
            before: "a".to_string(),
            at: 'b',
            after: "c".to_string(),
            cursor: 1,
            error: None,
        }
    );
    press(&mut s, Key::Enter);
    assert!(matches!(s.screen(0, 10).body, Body::Prompt { label, .. } if label == "Enter email/username:"));
    press(&mut s, Key::Enter);
    assert!(matches!(s.screen(0, 10).body, Body::Prompt { label, at: ' ', cursor: 0, .. }
        if label == "Enter password: (# - generate safe password)"));

    let mut s = registering();
    type_text(&mut s, "al");
    press(&mut s, Key::Enter);
    s.on_username_checked(true, 5);
    let screen = s.screen(100000, 10);
    assert_eq!(screen.title, "Registering (Cancel/Start - Esc)");
    assert_eq!(
        screen.body,
        Body::Prompt {
            label: "Enter nickname:".to_string(),
            before: String::new(),
            at: ' ',
            after: String::new(),
            cursor: 0,
            error: Some("Username already taken".to_string()),
        }
    );
    type_text(&mut s, "al");
    press(&mut s, Key::Enter);
    s.on_username_checked(false, 5);
    assert!(matches!(s.screen(0, 10).body, Body::Prompt { label, .. } if label == "Enter password:"));
    press(&mut s, Key::Enter);
    assert!(matches!(s.screen(0, 10).body, Body::Prompt { label, .. } if label == "Re-enter password"));

    let mut s = in_menu();
    press(&mut s, Key::Down);
    press(&mut s, Key::Enter);
    type_text(&mut s, "q");
    let screen = s.screen(0, 10);
    assert_eq!(screen.title, "Search Vault");
    assert_eq!(
        screen.body,
        Body::Prompt {
            label: "Enter website name to filter:".to_string(),
            before: "q".to_string(),
            at: ' ',
            after: String::new(),
            cursor: 1,
            error: None,
        }
    );

    let mut s = listing(vec![entry("old.com", "me", "pw")]);
    press(&mut s, Key::Enter);
    press(&mut s, Key::Char('e'));
    let screen = s.screen(0, 10);
    assert_eq!(screen.title, "Edit Vault (Next - Enter, Cancel - Esc)");
    assert!(matches!(screen.body, Body::Prompt { label, before, cursor: 7, .. }
        if label == "Edit Website (account):" && before == "old.com"));
    press(&mut s, Key::Enter);
    assert!(matches!(s.screen(0, 10).body, Body::Prompt { label, .. } if label == "Edit Email/Username:"));
    press(&mut s, Key::Enter);
    assert!(matches!(s.screen(0, 10).body, Body::Prompt { label, .. }
        if label == "Edit Password: (# - generate safe password)"));
}

#[test]
fn screen_of_a_list_shows_its_window() {
    let mut s = listing(five());
    for _ in 0..3 {
        s.on_key(Key::Down, 0, 3);
    }
    let screen = s.screen(0, 3);
    assert_eq!(screen.title, "Vaults (Select - Enter, Scroll, Menu - Esc)");
    assert_eq!(
        screen.body,
        Body::List {
            lines: vec![
                ListLine::Row { index: 2, text: "Beta | b".to_string(), selected: false, placeholder: false },
                ListLine::Header { letter: 'G' },
                ListLine::Row { index: 3, text: "gamma | g".to_string(), selected: true, placeholder: false },
            ],
            first: 4,
        }
    );
    let screen = s.screen(0, 100);
    assert!(matches!(screen.body, Body::List { lines, first: 0 } if lines.len() == 8));
}

#[test]
fn screen_of_the_detail_view() {
    let mut s = listing(vec![entry("site", "me", "s\u{e9}cret")]);
    press(&mut s, Key::Enter);
    let field = |label: &str, hint: &str, copied: bool, value: &str| DetailField {
        label: label.to_string(),
        hint: hint.to_string(),
        copied,
        value: value.to_string(),
    };
    let screen = s.screen(0, 10);
    assert_eq!(screen.title, "Vault details (Edit - E, Delete - D, Go back - Esc)");
    assert_eq!(
        screen.body,
        Body::Detail {
            account: field("Website", "", false, "site"),
            username: field("Email/Username", "(Copy to clipboard - U)", false, "me"),
            password: field(
                "Password",
                "(Copy to clipboard - P, Show password - S)",
                false,
                "\u{2022}\u{2022}\u{2022}\u{2022}\u{2022}\u{2022}"
            ),
            scroll: 0,
        }
    );
    s.on_key(Key::Char('u'), 1000, 10);
    s.on_key(Key::Down, 1000, 3);
    for now in [1000, 2399, 999] {
        assert_eq!(
            s.screen(now, 10).body,
            Body::Detail {
                account: field("Website", "", false, "site"),
                username: field("Email/Username", "(Copied Successfully!)", true, "me"),
                password: field(
                    "Password",
                    "(Copy to clipboard - P, Show password - S)",
                    false,
                    "\u{2022}\u{2022}\u{2022}\u{2022}\u{2022}\u{2022}"
                ),
                scroll: 1,
            }
        );
    }
    assert!(matches!(s.screen(2400, 10).body, Body::Detail { username, .. } if !username.copied));
    s.on_key(Key::Char('p'), 5000, 10);
    assert!(matches!(s.screen(5001, 10).body, Body::Detail { username, password, .. }
        if !username.copied && password.copied && password.hint == "(Copied Successfully!)"));
    s.on_key(Key::Char('s'), 5002, 10);
    assert!(matches!(s.screen(5003, 10).body, Body::Detail { password, .. }
        if !password.copied && password.value == "s\u{e9}cret"));
}
