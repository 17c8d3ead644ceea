//! What is drawn for each state of a session: the items of the action list,
//! a title, and a body. How it is styled is left to the presentation layer.

use vstd::prelude::*;
use crate::input::{InputView, TextInput};
use crate::listing::{
    lemma_lines_upto, lemma_selection_drawn, line_views, lines_upto, row_line, window, window_of,
    LineView, ListLine, ListModel, ListView,
};
use crate::state::{AppState, Notice, NoticeView, Secret, SecretView, StateView};
use crate::text::{same_str, text_of};
use crate::transition::COPY_NOTICE_MS;

verus! {

/// One field of the detail view.
#[derive(Debug, PartialEq, Eq)]
pub struct DetailField {
    pub label: String,
    /// The keys that act on the field.
    pub hint: String,
    /// The field was copied a moment ago.
    pub copied: bool,
    pub value: String,
}

pub struct FieldView {
    pub label: Seq<char>,
    pub hint: Seq<char>,
    pub copied: bool,
    pub value: Seq<char>,
}

impl View for DetailField {
    type V = FieldView;

    open spec fn view(&self) -> FieldView {
        FieldView { label: self.label@, hint: self.hint@, copied: self.copied, value: self.value@ }
    }
}

/// The body of a screen.
#[derive(Debug, PartialEq, Eq)]
pub enum Body {
    /// A line of guidance.
    Message { text: String },
    /// A line of input under a label: the text before the cursor, the
    /// character under it, the text behind it, the column of the cursor,
    /// and an error to show, if any.
    Prompt { label: String, before: String, at: char, after: String, cursor: usize, error: Option<String> },
    /// The lines of a list that are in the window, and the number of the
    /// first of them.
    List { lines: Vec<ListLine>, first: usize },
    /// Account, username and password, and how far they are scrolled.
    Detail { account: DetailField, username: DetailField, password: DetailField, scroll: usize },
}

pub enum BodyView {
    Message { text: Seq<char> },
    Prompt {
        label: Seq<char>,
        before: Seq<char>,
        at: char,
        after: Seq<char>,
        cursor: usize,
        error: Option<Seq<char>>,
    },
    List { lines: Seq<LineView>, first: usize },
    Detail { account: FieldView, username: FieldView, password: FieldView, scroll: usize },
}

impl View for Body {
    type V = BodyView;

    open spec fn view(&self) -> BodyView {
        match *self {
            Body::Message { text } => BodyView::Message { text: text@ },
            Body::Prompt { label, before, at, after, cursor, error } => BodyView::Prompt {
                label: label@,
                before: before@,
                at,
                after: after@,
                cursor,
                error: match error {
                    Some(text) => Some(text@),
                    None => None,
                },
            },
            Body::List { lines, first } => BodyView::List { lines: line_views(lines@), first },
            Body::Detail { account, username, password, scroll } => BodyView::Detail {
                account: account@,
                username: username@,
                password: password@,
                scroll,
            },
        }
    }
}

/// A screen: the action list on the left, and a titled body on the right.
#[derive(Debug, PartialEq, Eq)]
pub struct Screen {
    pub items: Vec<String>,
    pub title: String,
    pub body: Body,
}

pub struct ScreenView {
    pub items: Seq<Seq<char>>,
    pub title: Seq<char>,
    pub body: BodyView,
}

impl View for Screen {
    type V = ScreenView;

    open spec fn view(&self) -> ScreenView {
        ScreenView {
            items: Seq::new(self.items@.len(), |i: int| self.items@[i]@),
            title: self.title@,
            body: self.body@,
        }
    }
}

/// The items of the action list: the actions of the start screen and of the
/// menu in their states, and a single line of guidance elsewhere.
pub open spec fn items_of(state: StateView) -> Seq<Seq<char>> {
    match state {
        StateView::Start => seq!["Login"@, "Register"@, "End"@],
        StateView::Menu => seq![
            "Create vault"@,
            "Search vault"@,
            "Show all vaults"@,
            "Logout"@,
        ],
        _ => seq!["Currently working in the terminal to the right."@],
    }
}

/// The title over the body.
pub open spec fn title_of(state: StateView) -> Seq<char> {
    match state {
        StateView::Start => "Action"@,
        StateView::Menu => "Action"@,
        StateView::Register { .. } => "Registering (Cancel/Start - Esc)"@,
        StateView::CreateAccount { .. } => "Adding Vault manually (Cancel/Menu - Esc)"@,
        StateView::ShowAllVaults { .. } => "Vaults (Select - Enter, Scroll, Menu - Esc)"@,
        StateView::ViewVaultDetail { .. } => "Vault details (Edit - E, Delete - D, Go back - Esc)"@,
        StateView::EditVault { .. } => "Edit Vault (Next - Enter, Cancel - Esc)"@,
        StateView::SearchVault { .. } => "Search Vault"@,
    }
}

/// The label over the input line of a wizard or of the search prompt.
pub open spec fn label_of(state: StateView) -> Seq<char> {
    match state {
        StateView::Register { step, .. } => if step == 0 {
            "Enter nickname:"@
        } else if step == 1 {
            "Enter password:"@
        } else if step == 2 {
            "Re-enter password"@
        } else {
            "Finito!"@
        },
        StateView::CreateAccount { step, .. } => if step == 0 {
            "Enter website name:"@
        } else if step == 1 {
            "Enter email/username:"@
        } else if step == 2 {
            "Enter password: (# - generate safe password)"@
        } else {
            "Finito!"@
        },
        StateView::EditVault { step, .. } => if step == 0 {
            "Edit Website (account):"@
        } else if step == 1 {
            "Edit Email/Username:"@
        } else if step == 2 {
            "Edit Password: (# - generate safe password)"@
        } else {
            "Updating..."@
        },
        StateView::SearchVault { .. } => "Enter website name to filter:"@,
        _ => Seq::empty(),
    }
}

/// A prompt for an input line. A cursor behind the end counts as at the
/// end.
pub open spec fn prompt_of(label: Seq<char>, input: InputView, error: Option<Seq<char>>) -> BodyView {
    if input.cursor < input.chars.len() {
        BodyView::Prompt {
            label,
            before: input.chars.take(input.cursor as int),
            at: input.chars[input.cursor as int],
            after: input.chars.skip(input.cursor + 1),
            cursor: input.cursor,
            error,
        }
    } else {
        BodyView::Prompt {
            label,
            before: input.chars,
            at: ' ',
            after: Seq::empty(),
            cursor: input.chars.len() as usize,
            error,
        }
    }
}

/// A password hidden: a bullet for each of its characters.
pub open spec fn masked(text: Seq<char>) -> Seq<char> {
    Seq::new(text.len(), |i: int| '\u{2022}')
}

/// A notice is shown until `COPY_NOTICE_MS` milliseconds have passed since
/// it was set.
pub open spec fn notice_live(notice: NoticeView, now_ms: u64) -> bool {
    now_ms < notice.at_ms || now_ms - notice.at_ms < COPY_NOTICE_MS
}

/// The message `text` was set and is still shown.
pub open spec fn shows(notice: Option<NoticeView>, text: Seq<char>, now_ms: u64) -> bool {
    notice matches Some(n) && n.text == text && notice_live(n, now_ms)
}

/// The lines of a list that fall into its window of `height` lines.
pub open spec fn list_body(list: ListModel, height: usize) -> BodyView {
    let lines = lines_upto(list.rows, list.show_headers, list.selected as int, list.rows.len() as int);
    let w = window_of(lines.len() as int, list.scroll as int, height as int);
    BodyView::List { lines: lines.subrange(w.0, w.1), first: w.0 as usize }
}

/// Where the selected row lies in the window at the scroll offset, its line
/// is among the lines that are drawn.
pub proof fn lemma_selected_row_is_drawn(list: ListModel, height: usize)
    requires
        list.wf(),
        list.selection_visible(height as int),
    ensures
        list_body(list, height) matches BodyView::List { lines, first } && first
            <= list.selected_line() < first + lines.len() && lines[list.selected_line() - first]
            == row_line(list.rows, list.selected as int, list.selected as int),
{
    let all = lines_upto(list.rows, list.show_headers, list.selected as int, list.rows.len() as int);
    lemma_lines_upto(list.rows, list.show_headers, list.selected as int, list.rows.len() as int);
    lemma_selection_drawn(
        all.len() as int,
        list.scroll as int,
        height as int,
        list.selected_line(),
    );
}

/// The three fields of the detail view. The password is masked while it
/// is obscured; a field that was copied a moment ago says so in place of
/// its hint.
pub open spec fn detail_body(
    account: Seq<char>,
    username: Seq<char>,
    password: SecretView,
    scroll: usize,
    copy_message: Option<NoticeView>,
    obscure_password: bool,
    now_ms: u64,
) -> BodyView {
    let copied_username = shows(copy_message, "Email/Username copied!"@, now_ms);
    let copied_password = shows(copy_message, "Password copied!"@, now_ms);
    BodyView::Detail {
        account: FieldView {
            label: "Website"@,
            hint: Seq::empty(),
            copied: false,
            value: account,
        },
        username: FieldView {
            label: "Email/Username"@,
            hint: if copied_username {
                "(Copied Successfully!)"@
            } else {
                "(Copy to clipboard - U)"@
            },
            copied: copied_username,
            value: username,
        },
        password: FieldView {
            label: "Password"@,
            hint: if copied_password {
                "(Copied Successfully!)"@
            } else {
                "(Copy to clipboard - P, Show password - S)"@
            },
            copied: copied_password,
            value: if obscure_password {
                masked(password.text)
            } else {
                password.text
            },
        },
        scroll,
    }
}

/// The body that is drawn for a state.
pub open spec fn body_of(state: StateView, now_ms: u64, height: usize) -> BodyView {
    match state {
        StateView::Start => BodyView::Message { text: "Pick an option."@ },
        StateView::Menu => BodyView::Message { text: "Pick option in menu."@ },
        StateView::Register { input, error, .. } => prompt_of(
            label_of(state),
            input,
            match error {
                Some(n) => Some(n.text),
                None => None,
            },
        ),
        StateView::CreateAccount { input, .. } => prompt_of(label_of(state), input, None),
        StateView::EditVault { input, .. } => prompt_of(label_of(state), input, None),
        StateView::SearchVault { input } => prompt_of(label_of(state), input, None),
        StateView::ShowAllVaults { list, .. } => list_body(list, height),
        StateView::ViewVaultDetail {
            account,
            username,
            password,
            scroll,
            copy_message,
            obscure_password,
            ..
        } => detail_body(
            account,
            username,
            password,
            scroll,
            copy_message,
            obscure_password,
            now_ms,
        ),
    }
}

/// The screen of a state at time `now_ms`, with `height` lines for a list.
pub open spec fn screen_of(state: StateView, now_ms: u64, height: usize) -> ScreenView {
    ScreenView { items: items_of(state), title: title_of(state), body: body_of(state, now_ms, height) }
}

fn step_label(step: usize, first: &str, second: &str, third: &str, other: &str) -> (r: String)
    ensures
        r@ == if step == 0 {
            first@
        } else if step == 1 {
            second@
        } else if step == 2 {
            third@
        } else {
            other@
        },
{
    if step == 0 {
        first.to_owned()
    } else if step == 1 {
        second.to_owned()
    } else if step == 2 {
        third.to_owned()
    } else {
        other.to_owned()
    }
}

fn prompt(label: String, input: &TextInput, error: Option<String>) -> (r: Body)
    ensures
        r@ == prompt_of(
            label@,
            input@,
            match error {
                Some(text) => Some(text@),
                None => None,
            },
        ),
{
    let parts = input.parts();
    let cursor: usize = if input.cursor < input.chars.len() {
        input.cursor
    } else {
        input.chars.len()
    };
    Body::Prompt { label, before: parts.before, at: parts.at, after: parts.after, cursor, error }
}

fn mask(text: &str) -> (r: String)
    ensures
        r@ == masked(text@),
{
    let n: usize = text.unicode_len();
    let mut bullets: Vec<char> = Vec::new();
    let mut i: usize = 0;
    while i < n
        invariant
            i <= n,
            bullets@.len() == i,
            forall|k: int| 0 <= k < i ==> bullets@[k] == '\u{2022}',
        decreases n - i,
    {
        bullets.push('\u{2022}');
        i = i + 1;
    }
    proof {
        assert(bullets@ =~= masked(text@));
    }
    text_of(&bullets)
}

fn is_shown(notice: &Option<Notice>, text: &str, now_ms: u64) -> (r: bool)
    ensures
        r == shows(crate::state::notice_view(*notice), text@, now_ms),
{
    match notice {
        Some(n) => same_str(n.text.as_str(), text) && (now_ms < n.at_ms || now_ms - n.at_ms
            < COPY_NOTICE_MS),
        None => false,
    }
}

fn copy_line(line: &ListLine) -> (r: ListLine)
    ensures
        r@ == line@,
{
    match line {
        ListLine::Header { letter } => ListLine::Header { letter: *letter },
        ListLine::Row { index, text, selected, placeholder } => ListLine::Row {
            index: *index,
            text: text.clone(),
            selected: *selected,
            placeholder: *placeholder,
        },
    }
}

fn list_lines(list: &ListView, height: usize) -> (r: Body)
    requires
        list@.wf(),
    ensures
        r@ == list_body(list@, height),
{
    let lines = list.lines();
    let (start, end) = window(lines.len(), list.scroll, height);
    let mut shown: Vec<ListLine> = Vec::new();
    let mut i: usize = start;
    while i < end
        invariant
            start <= i <= end <= lines@.len(),
            shown@.len() == i - start,
            forall|k: int| 0 <= k < i - start ==> (#[trigger] shown@[k])@ == lines@[start + k]@,
        decreases end - i,
    {
        shown.push(copy_line(&lines[i]));
        i = i + 1;
    }
    proof {
        assert(line_views(lines@).len() == lines@.len());
        assert(line_views(shown@) =~= line_views(lines@).subrange(start as int, end as int));
    }
    Body::List { lines: shown, first: start }
}

fn detail(
    account: &String,
    username: &String,
    password: &Secret,
    scroll: usize,
    copy_message: &Option<Notice>,
    obscure_password: bool,
    now_ms: u64,
) -> (r: Body)
    ensures
        r@ == detail_body(
            account@,
            username@,
            password@,
            scroll,
            crate::state::notice_view(*copy_message),
            obscure_password,
            now_ms,
        ),
{
    let copied_username = is_shown(copy_message, "Email/Username copied!", now_ms);
    let copied_password = is_shown(copy_message, "Password copied!", now_ms);
    Body::Detail {
        account: DetailField {
            label: "Website".to_owned(),
            hint: String::new(),
            copied: false,
            value: account.clone(),
        },
        username: DetailField {
            label: "Email/Username".to_owned(),
            hint: if copied_username {
                "(Copied Successfully!)".to_owned()
            } else {
                "(Copy to clipboard - U)".to_owned()
            },
            copied: copied_username,
            value: username.clone(),
        },
        password: DetailField {
            label: "Password".to_owned(),
            hint: if copied_password {
                "(Copied Successfully!)".to_owned()
            } else {
                "(Copy to clipboard - P, Show password - S)".to_owned()
            },
            copied: copied_password,
            value: if obscure_password {
                mask(password.text.as_str())
            } else {
                password.text.clone()
            },
        },
        scroll,
    }
}

fn items(state: &AppState) -> (r: Vec<String>)
    ensures
        Seq::new(r@.len(), |i: int| r@[i]@) == items_of(state@),
{
    let mut out: Vec<String> = Vec::new();
    match state {
        AppState::Start => {
            out.push("Login".to_owned());
            out.push("Register".to_owned());
            out.push("End".to_owned());
        },
        AppState::Menu => {
            out.push("Create vault".to_owned());
            out.push("Search vault".to_owned());
            out.push("Show all vaults".to_owned());
            out.push("Logout".to_owned());
        },
        _ => {
            out.push("Currently working in the terminal to the right.".to_owned());
        },
    }
    proof {
        assert(Seq::new(out@.len(), |i: int| out@[i]@) =~= items_of(state@));
    }
    out
}

/// What is drawn for a state at time `now_ms`, with `height` lines for a
/// list.
pub fn screen(state: &AppState, now_ms: u64, height: usize) -> (r: Screen)
    requires
        state matches AppState::ShowAllVaults { list, .. } ==> list@.wf(),
    ensures
        r@ == screen_of(state@, now_ms, height),
{
    let items = items(state);
    match state {
        AppState::Start => Screen {
            items,
            title: "Action".to_owned(),
            body: Body::Message { text: "Pick an option.".to_owned() },
        },
        AppState::Menu => Screen {
            items,
            title: "Action".to_owned(),
            body: Body::Message { text: "Pick option in menu.".to_owned() },
        },
        AppState::Register { step, input, error, .. } => {
            let label = step_label(
                *step,
                "Enter nickname:",
                "Enter password:",
                "Re-enter password",
                "Finito!",
            );
            let shown = match error {
                Some(n) => Some(n.text.clone()),
                None => None,
            };
            Screen {
                items,
                title: "Registering (Cancel/Start - Esc)".to_owned(),
                body: prompt(label, input, shown),
            }
        },
        AppState::CreateAccount { step, input, .. } => {
            let label = step_label(
                *step,
                "Enter website name:",
                "Enter email/username:",
                "Enter password: (# - generate safe password)",
                "Finito!",
            );
            Screen {
                items,
                title: "Adding Vault manually (Cancel/Menu - Esc)".to_owned(),
                body: prompt(label, input, None),
            }
        },
        AppState::EditVault { step, input, .. } => {
            let label = step_label(
                *step,
                "Edit Website (account):",
                "Edit Email/Username:",
                "Edit Password: (# - generate safe password)",
                "Updating...",
            );
            Screen {
                items,
                title: "Edit Vault (Next - Enter, Cancel - Esc)".to_owned(),
                body: prompt(label, input, None),
            }
        },
        AppState::SearchVault { input } => Screen {
            items,
            title: "Search Vault".to_owned(),
            body: prompt("Enter website name to filter:".to_owned(), input, None),
        },
        AppState::ShowAllVaults { list, .. } => Screen {
            items,
            title: "Vaults (Select - Enter, Scroll, Menu - Esc)".to_owned(),
            body: list_lines(list, height),
        },
        AppState::ViewVaultDetail {
            account,
            username,
            password,
            scroll,
            copy_message,
            obscure_password,
            ..
        } => Screen {
            items,
            title: "Vault details (Edit - E, Delete - D, Go back - Esc)".to_owned(),
            body: detail(
                account,
                username,
                password,
                *scroll,
                copy_message,
                *obscure_password,
                now_ms,
            ),
        },
    }
}

} // verus!
