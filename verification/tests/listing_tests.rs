use password_manager_lib::listing::{letter_of, window, ListLine, ListView};
use password_manager_lib::vault::{no_results_placeholder, VaultRow};

fn row(account: &str, username: &str) -> VaultRow {
    VaultRow {
        account: account.to_string(),
        username: username.to_string(),
        secret: String::new(),
        placeholder: false,
    }
}

fn sample(show_headers: bool) -> ListView {
    ListView::new(
        vec![row("Alpha", "u"), row("apple", ""), row("Beta", "b"), row("gamma", ""), row("Gopher", "g")],
        show_headers,
    )
}

#[test]
fn group_letters() {
    assert_eq!(letter_of(&row("alpha", "")), 'A');
    assert_eq!(letter_of(&row("Alpha", "")), 'A');
    assert_eq!(letter_of(&row("9lives", "")), '9');
    assert_eq!(letter_of(&row("", "x")), '?');
    assert_eq!(letter_of(&row("\u{e9}cole", "")), '\u{e9}');
}

#[test]
fn lines_with_headers() {
    let list = sample(true);
    let lines = list.lines();
    let expected = vec![
        ListLine::Header { letter: 'A' },
        ListLine::Row { index: 0, text: "Alpha | u".to_string(), selected: true, placeholder: false },
        ListLine::Row { index: 1, text: "apple".to_string(), selected: false, placeholder: false },
        ListLine::Header { letter: 'B' },
        ListLine::Row { index: 2, text: "Beta | b".to_string(), selected: false, placeholder: false },
        ListLine::Header { letter: 'G' },
        ListLine::Row { index: 3, text: "gamma".to_string(), selected: false, placeholder: false },
        ListLine::Row { index: 4, text: "Gopher | g".to_string(), selected: false, placeholder: false },
    ];
    assert_eq!(lines, expected);
}

#[test]
fn lines_without_headers() {
    let mut list = sample(false);
    list.move_down(10);
    let lines = list.lines();
    assert_eq!(lines.len(), 5);
    assert_eq!(
        lines[1],
        ListLine::Row { index: 1, text: "apple".to_string(), selected: true, placeholder: false }
    );
    assert_eq!(
        lines[0],
        ListLine::Row { index: 0, text: "Alpha | u".to_string(), selected: false, placeholder: false }
    );
}

#[test]
fn placeholder_line() {
    let list = ListView::new(vec![no_results_placeholder()], false);
    assert_eq!(
        list.lines(),
        vec![ListLine::Row {
            index: 0,
            text: "Sorry, no results :(".to_string(),
            selected: true,
            placeholder: true,
        }]
    );
}

#[test]
fn selected_line_counts_headers() {
    let mut list = sample(true);
    let mut seen = vec![list.selected_line()];
    for _ in 0..4 {
        list.move_down(100);
        seen.push(list.selected_line());
    }
    assert_eq!(seen, vec![1, 2, 4, 6, 7]);
    let mut list = sample(false);
    let mut seen = vec![list.selected_line()];
    for _ in 0..4 {
        list.move_down(100);
        seen.push(list.selected_line());
    }
    assert_eq!(seen, vec![0, 1, 2, 3, 4]);
}

#[test]
fn scroll_follows_the_selection() {
    let mut list = sample(true);
    let mut seen = Vec::new();
    for _ in 0..5 {
        list.move_down(3);
        seen.push((list.selected, list.scroll));
    }
    assert_eq!(seen, vec![(1, 0), (2, 2), (3, 4), (4, 5), (4, 5)]);
    let mut seen = Vec::new();
    for _ in 0..5 {
        list.move_up(3);
        seen.push((list.selected, list.scroll));
    }
    assert_eq!(seen, vec![(3, 5), (2, 4), (1, 2), (0, 0), (0, 0)]);
}

#[test]
fn selection_stays_in_the_window() {
    for headers in [false, true] {
        for height in 1usize..7 {
            let mut list = sample(headers);
            let moves = [1, 1, 1, 0, 1, 1, 1, 0, 0, 0, 1, 0, 0, 0, 0, 1, 1, 0, 1, 1, 1, 1, 0, 0, 0, 0, 0];
            for down in moves.iter() {
                if *down == 1 {
                    list.move_down(height);
                } else {
                    list.move_up(height);
                }
                let line = list.selected_line();
                if height == 1 && headers && list.selected == 0 {
                    assert_eq!((list.scroll, line), (0, 1));
                } else {
                    assert!(list.scroll <= line && line < list.scroll + height);
                    let total = list.lines().len();
                    let (first, end) = window(total, list.scroll, height);
                    assert!(first <= line && line < end);
                }
            }
        }
    }
}

#[test]
fn a_window_without_lines_shows_nothing() {
    let mut list = sample(false);
    list.move_down(0);
    assert_eq!((list.selected, list.scroll), (1, 2));
    list.move_down(0);
    assert_eq!((list.selected, list.scroll), (2, 3));
    list.move_up(0);
    assert_eq!((list.selected, list.scroll), (1, 1));
    assert_eq!(window(5, 2, 0), (2, 2));
}

#[test]
fn settle_brings_the_selection_into_view() {
    let mut list = sample(true);
    list.selected = 4;
    list.settle(2);
    assert_eq!(list.scroll, 6);
    list.selected = 1;
    list.settle(2);
    assert_eq!(list.scroll, 2);
    list.selected = 0;
    list.scroll = 3;
    list.settle(2);
    assert_eq!(list.scroll, 0);
}

#[test]
fn window_is_clamped_to_the_content() {
    assert_eq!(window(8, 0, 3), (0, 3));
    assert_eq!(window(8, 5, 3), (5, 8));
    assert_eq!(window(8, 7, 3), (5, 8));
    assert_eq!(window(8, 100, 3), (5, 8));
    assert_eq!(window(2, 0, 3), (0, 2));
    assert_eq!(window(2, 1, 3), (0, 2));
    assert_eq!(window(0, 0, 3), (0, 0));
    assert_eq!(window(3, 0, 3), (0, 3));
}

#[test]
fn clone_copies_the_list() {
    let mut list = sample(true);
    list.move_down(2);
    list.move_down(2);
    let copy = list.clone();
    assert_eq!(copy, list);
}
