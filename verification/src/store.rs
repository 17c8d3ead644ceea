//! What the actions of a session mean for the store of vault entries, and
//! what follows for the wizards that persist.

use vstd::prelude::*;
use vstd::utf8::encode_utf8;
use crate::encryption::{decrypted, CryptoError, MAX_PLAINTEXT_LEN};
use crate::state::{ActionView, Key, Pending, SecretView, StateView};
use crate::transition::{after_vaults, key_step, SessionView};
use crate::vault::EntryView;

verus! {

/// An entry is stored under exactly these two names.
pub open spec fn stored_under(e: EntryView, account: Seq<char>, username: Seq<char>) -> bool {
    e.account == account && e.username == username
}

/// The entries with each one that is stored under the old names replaced by
/// the new values.
pub open spec fn with_update(
    entries: Seq<EntryView>,
    old_account: Seq<char>,
    old_username: Seq<char>,
    replacement: EntryView,
) -> Seq<EntryView> {
    Seq::new(
        entries.len(),
        |i: int|
            if stored_under(entries[i], old_account, old_username) {
                replacement
            } else {
                entries[i]
            },
    )
}

/// The entries without those stored under the two names.
pub open spec fn without(entries: Seq<EntryView>, account: Seq<char>, username: Seq<char>) -> Seq<
    EntryView,
>
    decreases entries.len(),
{
    if entries.len() == 0 {
        Seq::empty()
    } else if stored_under(entries.last(), account, username) {
        without(entries.drop_last(), account, username)
    } else {
        without(entries.drop_last(), account, username).push(entries.last())
    }
}

/// The entries the store holds once an action has been performed on it.
/// Only inserting, updating and deleting change them.
pub open spec fn store_after(entries: Seq<EntryView>, action: ActionView) -> Seq<EntryView> {
    match action {
        ActionView::InsertVault { account, username, secret } => entries.push(
            EntryView { account, username, secret },
        ),
        ActionView::UpdateVault { old_account, old_username, account, username, secret } => {
            with_update(entries, old_account, old_username, EntryView { account, username, secret })
        },
        ActionView::DeleteVault { account, username } => without(entries, account, username),
        _ => entries,
    }
}

/// How many entries are stored under the two names.
pub open spec fn count_under(entries: Seq<EntryView>, account: Seq<char>, username: Seq<char>) -> nat
    decreases entries.len(),
{
    if entries.len() == 0 {
        0
    } else {
        count_under(entries.drop_last(), account, username) + if stored_under(
            entries.last(),
            account,
            username,
        ) {
            1nat
        } else {
            0nat
        }
    }
}

/// An update under new names leaves nothing stored under the old names, and
/// puts under the new names what was stored under either.
pub proof fn lemma_update_moves_entries(
    entries: Seq<EntryView>,
    old_account: Seq<char>,
    old_username: Seq<char>,
    replacement: EntryView,
)
    requires
        !stored_under(replacement, old_account, old_username),
    ensures
        with_update(entries, old_account, old_username, replacement).len() == entries.len(),
        count_under(
            with_update(entries, old_account, old_username, replacement),
            old_account,
            old_username,
        ) == 0,
        count_under(
            with_update(entries, old_account, old_username, replacement),
            replacement.account,
            replacement.username,
        ) == count_under(entries, old_account, old_username) + count_under(
            entries,
            replacement.account,
            replacement.username,
        ),
    decreases entries.len(),
{
    if entries.len() > 0 {
        lemma_update_moves_entries(entries.drop_last(), old_account, old_username, replacement);
        assert(with_update(entries, old_account, old_username, replacement).drop_last()
            =~= with_update(entries.drop_last(), old_account, old_username, replacement));
    }
}

/// A deletion leaves nothing stored under the two names, and leaves what is
/// stored under other names as it is.
pub proof fn lemma_delete_removes_entries(
    entries: Seq<EntryView>,
    account: Seq<char>,
    username: Seq<char>,
    other_account: Seq<char>,
    other_username: Seq<char>,
)
    ensures
        count_under(without(entries, account, username), account, username) == 0,
        other_account != account || other_username != username ==> count_under(
            without(entries, account, username),
            other_account,
            other_username,
        ) == count_under(entries, other_account, other_username),
    decreases entries.len(),
{
    if entries.len() > 0 {
        lemma_delete_removes_entries(
            entries.drop_last(),
            account,
            username,
            other_account,
            other_username,
        );
        let kept = without(entries.drop_last(), account, username);
        if !stored_under(entries.last(), account, username) {
            assert(kept.push(entries.last()).drop_last() =~= kept);
        }
    }
}

/// Completing the create wizard persists exactly one new entry, which
/// carries the names that were entered and a secret that decrypts to the
/// password that was entered, and lands in the menu.
pub proof fn lemma_create_persists_one_entry(
    pre: SessionView,
    now_ms: u64,
    height: usize,
    post: SessionView,
    action: ActionView,
    entries: Seq<EntryView>,
)
    requires
        pre.pending == Pending::Nothing,
        pre.state matches StateView::CreateAccount { step, input, .. } && step == 2
            && encode_utf8(input.chars).len() <= MAX_PLAINTEXT_LEN,
        key_step(pre, Key::Enter, now_ms, height, post, action),
    ensures
        post.state == StateView::Menu,
        store_after(entries, action).len() == entries.len() + 1,
        store_after(entries, action).drop_last() == entries,
        store_after(entries, action).last().account == pre.state->CreateAccount_account,
        store_after(entries, action).last().username == pre.state->CreateAccount_username,
        decrypted(store_after(entries, action).last().secret, pre.key) == Ok::<
            Seq<char>,
            CryptoError,
        >(pre.state->CreateAccount_input.chars),
{
    assert(store_after(entries, action).drop_last() =~= entries);
}

/// Completing the edit wizard replaces what is stored under the names the
/// entry was opened with: where the names were changed, nothing is stored
/// under the old names afterwards, and under the new names is stored what
/// was under either before.
pub proof fn lemma_edit_updates_by_original_names(
    pre: SessionView,
    now_ms: u64,
    height: usize,
    post: SessionView,
    action: ActionView,
    entries: Seq<EntryView>,
)
    requires
        pre.pending == Pending::Nothing,
        pre.state matches StateView::EditVault { step, input, .. } && step == 2 && encode_utf8(
            input.chars,
        ).len() <= MAX_PLAINTEXT_LEN,
        pre.state->EditVault_account != pre.state->EditVault_old_account
            || pre.state->EditVault_username != pre.state->EditVault_old_username,
        key_step(pre, Key::Enter, now_ms, height, post, action),
    ensures
        store_after(entries, action).len() == entries.len(),
        count_under(
            store_after(entries, action),
            pre.state->EditVault_old_account,
            pre.state->EditVault_old_username,
        ) == 0,
        count_under(
            store_after(entries, action),
            pre.state->EditVault_account,
            pre.state->EditVault_username,
        ) == count_under(
            entries,
            pre.state->EditVault_old_account,
            pre.state->EditVault_old_username,
        ) + count_under(entries, pre.state->EditVault_account, pre.state->EditVault_username),
{
    match action {
        ActionView::UpdateVault { old_account, old_username, account, username, secret } => {
            lemma_update_moves_entries(
                entries,
                old_account,
                old_username,
                EntryView { account, username, secret },
            );
        },
        _ => {},
    }
}

/// The edit wizard from its first step to the detail view, confirming each
/// step with Enter after the account was edited: the first two steps ask
/// for nothing; the third asks for one update, keyed by the names the entry
/// was opened with and never by the edited ones, which carries the edited
/// account, the username as it was and a secret that decrypts to the
/// password as it was; and once the stored entries have come in, the detail
/// view shows the edited entry.
pub proof fn lemma_edit_wizard_end_to_end(
    start: SessionView,
    first: SessionView,
    second: SessionView,
    third: SessionView,
    first_action: ActionView,
    second_action: ActionView,
    third_action: ActionView,
    now_ms: u64,
    height: usize,
    entries: Seq<EntryView>,
)
    requires
        start.pending == Pending::Nothing,
        start.state matches StateView::EditVault { step, old_password, .. } && step == 0
            && encode_utf8(old_password.text).len() <= MAX_PLAINTEXT_LEN,
        key_step(start, Key::Enter, now_ms, height, first, first_action),
        key_step(first, Key::Enter, now_ms, height, second, second_action),
        key_step(second, Key::Enter, now_ms, height, third, third_action),
    ensures
        first_action == ActionView::Idle,
        second_action == ActionView::Idle,
        third_action matches ActionView::UpdateVault {
            old_account,
            old_username,
            account,
            username,
            secret,
        } && old_account == start.state->EditVault_old_account && old_username
            == start.state->EditVault_old_username && account
            == start.state->EditVault_input.chars && username
            == start.state->EditVault_old_username && decrypted(secret, start.key) == Ok::<
            Seq<char>,
            CryptoError,
        >(start.state->EditVault_old_password.text),
        third.pending == Pending::EditedVaults,
        after_vaults(third, entries, height).pending == Pending::Nothing,
        after_vaults(third, entries, height).state matches StateView::ViewVaultDetail {
            account,
            username,
            password,
            ..
        } && account == start.state->EditVault_input.chars && username
            == start.state->EditVault_old_username && password == (SecretView {
            text: start.state->EditVault_old_password.text,
            failure: None,
        }),
{
}

} // verus!
