//! Vault entries as they are stored and as they are listed: the secret as
//! text, the placeholders for an empty list, the display order, search and
//! removal.

use vstd::prelude::*;
use crate::text::{
    chars_of, lemma_text_le_antisymmetric, lemma_text_le_reflexive, lemma_text_le_total,
    lemma_text_le_transitive, lowercase, lowercase_of, occurs_in, contains_text, same_str,
    same_text, text_le, text_le_exec,
};

verus! {

/// One stored credential: the site, the identifier at that site, and the
/// secret as a ciphertext blob.
#[derive(Debug, PartialEq, Eq)]
pub struct VaultEntry {
    pub account: String,
    pub username: String,
    pub secret: Vec<u8>,
}

pub struct EntryView {
    pub account: Seq<char>,
    pub username: Seq<char>,
    pub secret: Seq<u8>,
}

impl View for VaultEntry {
    type V = EntryView;

    open spec fn view(&self) -> EntryView {
        EntryView { account: self.account@, username: self.username@, secret: self.secret@ }
    }
}

/// One row of a displayed list. A placeholder row stands for "no data" and
/// cannot be opened.
#[derive(Debug, PartialEq, Eq)]
pub struct VaultRow {
    pub account: String,
    pub username: String,
    pub secret: String,
    pub placeholder: bool,
}

pub struct RowView {
    pub account: Seq<char>,
    pub username: Seq<char>,
    pub secret: Seq<char>,
    pub placeholder: bool,
}

impl View for VaultRow {
    type V = RowView;

    open spec fn view(&self) -> RowView {
        RowView {
            account: self.account@,
            username: self.username@,
            secret: self.secret@,
            placeholder: self.placeholder,
        }
    }
}

impl Clone for VaultRow {
    fn clone(&self) -> (r: Self)
        ensures
            r@ == self@,
    {
        VaultRow {
            account: self.account.clone(),
            username: self.username.clone(),
            secret: self.secret.clone(),
            placeholder: self.placeholder,
        }
    }
}

impl Clone for VaultEntry {
    fn clone(&self) -> (r: Self)
        ensures
            r@ == self@,
    {
        VaultEntry {
            account: self.account.clone(),
            username: self.username.clone(),
            secret: self.secret.clone(),
        }
    }
}

/// The rows as contracts see them.
pub open spec fn row_views(rows: Seq<VaultRow>) -> Seq<RowView> {
    Seq::new(rows.len(), |i: int| rows[i]@)
}

/// The entries as contracts see them.
pub open spec fn entry_views(entries: Seq<VaultEntry>) -> Seq<EntryView> {
    Seq::new(entries.len(), |i: int| entries[i]@)
}

/// The standard base64 text of a byte string, as `base64::encode` gives it.
pub uninterp spec fn base64_of(bytes: Seq<u8>) -> Seq<char>;

/// What `base64::decode` makes of a text: the bytes it stands for, or `None`
/// where it is no valid base64.
pub uninterp spec fn base64_bytes(text: Seq<char>) -> Option<Seq<u8>>;

/// `base64::encode`: the standard base64 text of `bytes`, which decodes back
/// to `bytes`. (No slice is long enough to overflow the length computation
/// on which the outside function would panic.)
#[verifier::external_body]
#[allow(deprecated)]
pub(crate) fn encode_secret(bytes: &[u8]) -> (r: String)
    ensures
        r@ == base64_of(bytes@),
        base64_bytes(r@) == Some(bytes@),
{
    base64::encode(bytes)
}

/// `base64::decode`: the bytes that `text` stands for, or `None` where the
/// outside function reports an error.
#[verifier::external_body]
#[allow(deprecated)]
pub(crate) fn decode_secret(text: &str) -> (r: Option<Vec<u8>>)
    ensures
        r is Some == base64_bytes(text@) is Some,
        r is Some ==> r->0@ == base64_bytes(text@)->0,
{
    match base64::decode(text) {
        Ok(bytes) => Some(bytes),
        Err(_) => None,
    }
}

/// The row that lists a stored entry: its names, and its secret as text.
pub open spec fn row_of(e: EntryView) -> RowView {
    RowView {
        account: e.account,
        username: e.username,
        secret: base64_of(e.secret),
        placeholder: false,
    }
}

/// The rows that list the entries, in the same order.
pub open spec fn rows_of(entries: Seq<EntryView>) -> Seq<RowView> {
    Seq::new(entries.len(), |i: int| row_of(entries[i]))
}

/// The row shown in place of an empty vault.
pub open spec fn empty_vault_row() -> RowView {
    RowView {
        account: "No vaults created yet."@,
        username: Seq::empty(),
        secret: Seq::empty(),
        placeholder: true,
    }
}

/// The row shown in place of an empty search result.
pub open spec fn no_results_row() -> RowView {
    RowView {
        account: "Sorry, no results :("@,
        username: Seq::empty(),
        secret: Seq::empty(),
        placeholder: true,
    }
}

/// The row shown in place of an empty vault.
pub fn empty_vault_placeholder() -> (r: VaultRow)
    ensures
        r@ == empty_vault_row(),
{
    VaultRow {
        account: "No vaults created yet.".to_owned(),
        username: String::new(),
        secret: String::new(),
        placeholder: true,
    }
}

/// The row shown in place of an empty search result.
pub fn no_results_placeholder() -> (r: VaultRow)
    ensures
        r@ == no_results_row(),
{
    VaultRow {
        account: "Sorry, no results :(".to_owned(),
        username: String::new(),
        secret: String::new(),
        placeholder: true,
    }
}

/// The row that lists a stored entry.
pub fn listed(entry: &VaultEntry) -> (r: VaultRow)
    ensures
        r@ == row_of(entry@),
{
    VaultRow {
        account: entry.account.clone(),
        username: entry.username.clone(),
        secret: encode_secret(entry.secret.as_slice()),
        placeholder: false,
    }
}

/// The key a row is ordered by: its account and its username, case folded.
pub open spec fn sort_key(r: RowView) -> (Seq<char>, Seq<char>) {
    (lowercase_of(r.account), lowercase_of(r.username))
}

/// Order of two keys: by the first part, and by the second where the first
/// parts are the same.
pub open spec fn key_le(x: (Seq<char>, Seq<char>), y: (Seq<char>, Seq<char>)) -> bool {
    if x.0 == y.0 {
        text_le(x.1, y.1)
    } else {
        text_le(x.0, y.0)
    }
}

/// Row `a` may stand before row `b` in a displayed list.
pub open spec fn row_le(a: RowView, b: RowView) -> bool {
    key_le(sort_key(a), sort_key(b))
}

/// `x` put into `sorted` behind every row that may stand before it.
pub open spec fn insert_row(sorted: Seq<RowView>, x: RowView) -> Seq<RowView>
    decreases sorted.len(),
{
    if sorted.len() > 0 && !row_le(sorted.last(), x) {
        insert_row(sorted.drop_last(), x).push(sorted.last())
    } else {
        sorted.push(x)
    }
}

/// The rows of `s` in display order: ascending by key, rows of equal key in
/// the order in which `s` holds them.
pub open spec fn sorted_rows(s: Seq<RowView>) -> Seq<RowView>
    decreases s.len(),
{
    if s.len() == 0 {
        Seq::empty()
    } else {
        insert_row(sorted_rows(s.drop_last()), s.last())
    }
}

proof fn lemma_insert_row_at(s: Seq<RowView>, x: RowView, p: int)
    requires
        0 <= p <= s.len(),
        forall|j: int| p <= j < s.len() ==> !row_le(#[trigger] s[j], x),
        p > 0 ==> row_le(s[p - 1], x),
    ensures
        insert_row(s, x) == s.insert(p, x),
    decreases s.len(),
{
    if p == s.len() {
        assert(s.insert(p, x) =~= s.push(x));
    } else {
        lemma_insert_row_at(s.drop_last(), x, p);
        assert(s.insert(p, x) =~= s.drop_last().insert(p, x).push(s.last()));
    }
}

fn key_le_exec(
    acc_a: &Vec<char>,
    user_a: &Vec<char>,
    acc_b: &Vec<char>,
    user_b: &Vec<char>,
) -> (r: bool)
    ensures
        r == key_le((acc_a@, user_a@), (acc_b@, user_b@)),
{
    if same_text(acc_a, acc_b) {
        text_le_exec(user_a, user_b)
    } else {
        text_le_exec(acc_a, acc_b)
    }
}

/// A row with the key it is ordered by.
pub struct KeyedRow {
    pub key: (Seq<char>, Seq<char>),
    pub row: RowView,
}

/// The rows, each with the key that stands at its place in `keys`.
pub open spec fn keyed_rows(rows: Seq<RowView>, keys: Seq<(Seq<char>, Seq<char>)>) -> Seq<KeyedRow> {
    Seq::new(rows.len(), |i: int| KeyedRow { key: keys[i], row: rows[i] })
}

/// The rows without their keys.
pub open spec fn rows_in(s: Seq<KeyedRow>) -> Seq<RowView> {
    Seq::new(s.len(), |i: int| s[i].row)
}

/// `x` put into `sorted` behind every row whose key may stand before its
/// key.
pub open spec fn insert_keyed(sorted: Seq<KeyedRow>, x: KeyedRow) -> Seq<KeyedRow>
    decreases sorted.len(),
{
    if sorted.len() > 0 && !key_le(sorted.last().key, x.key) {
        insert_keyed(sorted.drop_last(), x).push(sorted.last())
    } else {
        sorted.push(x)
    }
}

/// The keyed rows in ascending order of their keys, rows of equal key in
/// the order in which `s` holds them.
pub open spec fn sorted_keyed(s: Seq<KeyedRow>) -> Seq<KeyedRow>
    decreases s.len(),
{
    if s.len() == 0 {
        Seq::empty()
    } else {
        insert_keyed(sorted_keyed(s.drop_last()), s.last())
    }
}

/// The rows in ascending order of the keys given for them, rows of equal
/// key in the order in which they came.
pub open spec fn sorted_by_keys(rows: Seq<RowView>, keys: Seq<(Seq<char>, Seq<char>)>) -> Seq<
    RowView,
> {
    rows_in(sorted_keyed(keyed_rows(rows, keys)))
}

/// The keys that two lists of texts give: the account part from the first,
/// the username part from the second.
pub open spec fn keys_given(accounts: Seq<Vec<char>>, usernames: Seq<Vec<char>>) -> Seq<
    (Seq<char>, Seq<char>),
> {
    Seq::new(accounts.len(), |i: int| (accounts[i]@, usernames[i]@))
}

/// The keys that the rows have of themselves: their names, case folded.
pub open spec fn own_keys(rows: Seq<RowView>) -> Seq<(Seq<char>, Seq<char>)> {
    Seq::new(rows.len(), |i: int| sort_key(rows[i]))
}

proof fn lemma_insert_keyed_at(s: Seq<KeyedRow>, x: KeyedRow, p: int)
    requires
        0 <= p <= s.len(),
        forall|j: int| p <= j < s.len() ==> !key_le((#[trigger] s[j]).key, x.key),
        p > 0 ==> key_le(s[p - 1].key, x.key),
    ensures
        insert_keyed(s, x) == s.insert(p, x),
    decreases s.len(),
{
    if p == s.len() {
        assert(s.insert(p, x) =~= s.push(x));
    } else {
        lemma_insert_keyed_at(s.drop_last(), x, p);
        assert(s.insert(p, x) =~= s.drop_last().insert(p, x).push(s.last()));
    }
}

proof fn lemma_insert_own_keyed(t: Seq<RowView>, x: RowView)
    ensures
        insert_keyed(keyed_rows(t, own_keys(t)), KeyedRow { key: sort_key(x), row: x })
            == keyed_rows(insert_row(t, x), own_keys(insert_row(t, x))),
    decreases t.len(),
{
    let tagged = keyed_rows(t, own_keys(t));
    let kx = KeyedRow { key: sort_key(x), row: x };
    if t.len() > 0 && !row_le(t.last(), x) {
        let front = t.drop_last();
        lemma_insert_own_keyed(front, x);
        assert(tagged.drop_last() =~= keyed_rows(front, own_keys(front)));
        let u = insert_row(front, x);
        assert(keyed_rows(u, own_keys(u)).push(tagged.last()) =~= keyed_rows(
            u.push(t.last()),
            own_keys(u.push(t.last())),
        ));
    } else {
        assert(tagged.push(kx) =~= keyed_rows(t.push(x), own_keys(t.push(x))));
    }
}

/// Ordering rows by the keys they have of themselves is sorting them into
/// display order.
pub proof fn lemma_sorted_by_own_keys(s: Seq<RowView>)
    ensures
        sorted_by_keys(s, own_keys(s)) == sorted_rows(s),
        sorted_keyed(keyed_rows(s, own_keys(s))) == keyed_rows(
            sorted_rows(s),
            own_keys(sorted_rows(s)),
        ),
    decreases s.len(),
{
    let tagged = keyed_rows(s, own_keys(s));
    if s.len() > 0 {
        let front = s.drop_last();
        lemma_sorted_by_own_keys(front);
        assert(tagged.drop_last() =~= keyed_rows(front, own_keys(front)));
        assert(tagged.last() == (KeyedRow { key: sort_key(s.last()), row: s.last() }));
        lemma_insert_own_keyed(sorted_rows(front), s.last());
    } else {
        assert(keyed_rows(sorted_rows(s), own_keys(sorted_rows(s))) =~= Seq::<KeyedRow>::empty());
    }
    let sorted = sorted_rows(s);
    assert(rows_in(keyed_rows(sorted, own_keys(sorted))) =~= sorted);
}

/// Sorts rows by the keys given for them: `accounts[i]` and `usernames[i]`
/// are the two parts of the key of `rows[i]`. Ascending by key, rows of
/// equal key in the order in which they came.
pub fn sort_rows_by_keys(
    rows: &Vec<VaultRow>,
    accounts: &Vec<Vec<char>>,
    usernames: &Vec<Vec<char>>,
) -> (out: Vec<VaultRow>)
    requires
        accounts@.len() == rows@.len(),
        usernames@.len() == rows@.len(),
    ensures
        row_views(out@) == sorted_by_keys(row_views(rows@), keys_given(accounts@, usernames@)),
        out@.len() == rows@.len(),
{
    let ghost all = keyed_rows(row_views(rows@), keys_given(accounts@, usernames@));
    let mut order: Vec<usize> = Vec::new();
    let mut i: usize = 0;
    proof {
        assert(all.take(0) =~= Seq::<KeyedRow>::empty());
        assert(Seq::new(0, |j: int| all[order@[j] as int]) =~= Seq::<KeyedRow>::empty());
    }
    while i < rows.len()
        invariant
            i <= rows.len(),
            accounts@.len() == rows@.len(),
            usernames@.len() == rows@.len(),
            all == keyed_rows(row_views(rows@), keys_given(accounts@, usernames@)),
            order@.len() == i,
            forall|j: int| 0 <= j < i ==> (#[trigger] order@[j]) < rows@.len(),
            Seq::new(i as nat, |j: int| all[order@[j] as int]) == sorted_keyed(all.take(i as int)),
        decreases rows.len() - i,
    {
        let ghost placed = Seq::new(i as nat, |j: int| all[order@[j] as int]);
        let ghost x = all[i as int];
        let mut p: usize = i;
        while p > 0 && !key_le_exec(
            &accounts[order[p - 1]],
            &usernames[order[p - 1]],
            &accounts[i],
            &usernames[i],
        )
            invariant
                p <= i,
                i < rows.len(),
                accounts@.len() == rows@.len(),
                usernames@.len() == rows@.len(),
                all == keyed_rows(row_views(rows@), keys_given(accounts@, usernames@)),
                order@.len() == i,
                forall|j: int| 0 <= j < i ==> (#[trigger] order@[j]) < rows@.len(),
                placed == Seq::new(i as nat, |j: int| all[order@[j] as int]),
                x == all[i as int],
                forall|j: int| p <= j < i ==> !key_le((#[trigger] placed[j]).key, x.key),
            decreases p,
        {
            proof {
                assert(placed[p - 1] == all[order@[p - 1] as int]);
            }
            p = p - 1;
        }
        proof {
            if p > 0 {
                assert(placed[p - 1] == all[order@[p - 1] as int]);
                assert(key_le(placed[p - 1].key, x.key));
            }
            lemma_insert_keyed_at(placed, x, p as int);
            let next = all.take(i + 1);
            assert(next.drop_last() =~= all.take(i as int));
            assert(next.last() == x);
            let after = order@.insert(p as int, i);
            assert(Seq::new((i + 1) as nat, |j: int| all[after[j] as int]) =~= placed.insert(
                p as int,
                x,
            ));
        }
        order.insert(p, i);
        i = i + 1;
    }
    proof {
        assert(all.take(rows.len() as int) =~= all);
    }
    let mut out: Vec<VaultRow> = Vec::new();
    let mut k: usize = 0;
    while k < order.len()
        invariant
            k <= order@.len(),
            order@.len() == rows@.len(),
            forall|j: int| 0 <= j < order@.len() ==> (#[trigger] order@[j]) < rows@.len(),
            out@.len() == k,
            forall|j: int| 0 <= j < k ==> (#[trigger] out@[j])@ == rows@[order@[j] as int]@,
        decreases order.len() - k,
    {
        out.push(rows[order[k]].clone());
        k = k + 1;
    }
    proof {
        assert(row_views(out@) =~= rows_in(
            Seq::new(rows@.len(), |j: int| all[order@[j] as int]),
        ));
    }
    out
}

/// Sorts rows into display order: ascending by key, rows of equal key in
/// the order in which they came. The key of a row is its account and its
/// username, case folded.
pub fn sort_rows(rows: &Vec<VaultRow>) -> (out: Vec<VaultRow>)
    ensures
        row_views(out@) == sorted_rows(row_views(rows@)),
        out@.len() == rows@.len(),
        in_order(row_views(out@)),
        row_views(out@).to_multiset() == row_views(rows@).to_multiset(),
        forall|k: (Seq<char>, Seq<char>)|
            rows_with_key(row_views(out@), k) == rows_with_key(row_views(rows@), k),
        in_order(row_views(rows@)) ==> row_views(out@) == row_views(rows@),
{
    let mut accounts: Vec<Vec<char>> = Vec::new();
    let mut usernames: Vec<Vec<char>> = Vec::new();
    let mut i: usize = 0;
    while i < rows.len()
        invariant
            i <= rows.len(),
            accounts@.len() == i,
            usernames@.len() == i,
            forall|j: int|
                0 <= j < i ==> (#[trigger] accounts@[j])@ == lowercase_of(rows@[j]@.account),
            forall|j: int|
                0 <= j < i ==> (#[trigger] usernames@[j])@ == lowercase_of(rows@[j]@.username),
        decreases rows.len() - i,
    {
        accounts.push(chars_of(lowercase(rows[i].account.as_str()).as_str()));
        usernames.push(chars_of(lowercase(rows[i].username.as_str()).as_str()));
        i = i + 1;
    }
    let out = sort_rows_by_keys(rows, &accounts, &usernames);
    proof {
        assert(keys_given(accounts@, usernames@) =~= own_keys(row_views(rows@)));
        lemma_sorted_by_own_keys(row_views(rows@));
        lemma_sorted_rows_in_order(row_views(rows@));
        lemma_sorted_rows_permutes(row_views(rows@));
        if in_order(row_views(rows@)) {
            lemma_sorted_rows_of_ordered(row_views(rows@));
        }
        assert forall|k: (Seq<char>, Seq<char>)|
            rows_with_key(row_views(out@), k) == rows_with_key(row_views(rows@), k) by {
            lemma_sorted_rows_stable(row_views(rows@), k);
        }
    }
    out
}

/// Every row stands before each row that follows it.
pub open spec fn in_order(s: Seq<RowView>) -> bool {
    forall|i: int, j: int| 0 <= i < j < s.len() ==> row_le(#[trigger] s[i], #[trigger] s[j])
}

/// The rows of `s` whose key is `k`, in the order in which `s` holds them.
pub open spec fn rows_with_key(s: Seq<RowView>, k: (Seq<char>, Seq<char>)) -> Seq<RowView>
    decreases s.len(),
{
    if s.len() == 0 {
        Seq::empty()
    } else if sort_key(s.last()) == k {
        rows_with_key(s.drop_last(), k).push(s.last())
    } else {
        rows_with_key(s.drop_last(), k)
    }
}

/// Of any two rows one may stand before the other.
pub proof fn lemma_row_le_total(a: RowView, b: RowView)
    ensures
        row_le(a, b) || row_le(b, a),
{
    let x = sort_key(a);
    let y = sort_key(b);
    lemma_text_le_total(x.0, y.0);
    lemma_text_le_total(x.1, y.1);
}

/// The display order is transitive.
pub proof fn lemma_row_le_transitive(a: RowView, b: RowView, c: RowView)
    requires
        row_le(a, b),
        row_le(b, c),
    ensures
        row_le(a, c),
{
    let x = sort_key(a);
    let y = sort_key(b);
    let z = sort_key(c);
    if x.0 == y.0 && y.0 == z.0 {
        lemma_text_le_transitive(x.1, y.1, z.1);
    } else if x.0 != y.0 && y.0 != z.0 {
        lemma_text_le_transitive(x.0, y.0, z.0);
        if x.0 == z.0 {
            lemma_text_le_antisymmetric(x.0, y.0);
        }
    }
}

/// Where `insert_row` puts a row: behind the last row that may stand
/// before it.
pub open spec fn insert_position(s: Seq<RowView>, x: RowView) -> int
    decreases s.len(),
{
    if s.len() > 0 && !row_le(s.last(), x) {
        insert_position(s.drop_last(), x)
    } else {
        s.len() as int
    }
}

proof fn lemma_insert_position(s: Seq<RowView>, x: RowView)
    ensures
        0 <= insert_position(s, x) <= s.len(),
        insert_row(s, x) == s.insert(insert_position(s, x), x),
        forall|j: int| insert_position(s, x) <= j < s.len() ==> !row_le(#[trigger] s[j], x),
        insert_position(s, x) > 0 ==> row_le(s[insert_position(s, x) - 1], x),
    decreases s.len(),
{
    let p = insert_position(s, x);
    if s.len() > 0 && !row_le(s.last(), x) {
        let front = s.drop_last();
        lemma_insert_position(front, x);
        assert forall|j: int| p <= j < s.len() implies !row_le(#[trigger] s[j], x) by {
            if j < front.len() {
                assert(s[j] == front[j]);
            }
        }
        if p > 0 {
            assert(s[p - 1] == front[p - 1]);
        }
    }
    lemma_insert_row_at(s, x, p);
}

proof fn lemma_insert_row_in_order(s: Seq<RowView>, x: RowView)
    requires
        in_order(s),
    ensures
        in_order(insert_row(s, x)),
{
    lemma_insert_position(s, x);
    let p = insert_position(s, x);
    let t = s.insert(p, x);
    assert forall|i: int, j: int| 0 <= i < j < t.len() implies row_le(
        #[trigger] t[i],
        #[trigger] t[j],
    ) by {
        if j < p {
            assert(t[i] == s[i] && t[j] == s[j]);
        } else if j == p {
            assert(t[i] == s[i]);
            if i < p - 1 {
                lemma_row_le_transitive(s[i], s[p - 1], x);
            }
        } else if i == p {
            assert(t[j] == s[j - 1]);
            lemma_row_le_total(s[j - 1], x);
        } else if i < p {
            assert(t[i] == s[i] && t[j] == s[j - 1]);
        } else {
            assert(t[i] == s[i - 1] && t[j] == s[j - 1]);
        }
    }
}

/// A sorted list is in display order.
pub proof fn lemma_sorted_rows_in_order(s: Seq<RowView>)
    ensures
        in_order(sorted_rows(s)),
        sorted_rows(s).len() == s.len(),
    decreases s.len(),
{
    if s.len() > 0 {
        lemma_sorted_rows_in_order(s.drop_last());
        lemma_insert_row_in_order(sorted_rows(s.drop_last()), s.last());
        lemma_insert_position(sorted_rows(s.drop_last()), s.last());
    }
}

/// Sorting a list that is in display order changes nothing.
pub proof fn lemma_sorted_rows_of_ordered(s: Seq<RowView>)
    requires
        in_order(s),
    ensures
        sorted_rows(s) == s,
    decreases s.len(),
{
    if s.len() > 0 {
        let front = s.drop_last();
        assert forall|i: int, j: int| 0 <= i < j < front.len() implies row_le(
            #[trigger] front[i],
            #[trigger] front[j],
        ) by {
            assert(front[i] == s[i] && front[j] == s[j]);
        }
        lemma_sorted_rows_of_ordered(front);
        if front.len() > 0 {
            assert(front.last() == s[s.len() - 2]);
            assert(row_le(s[s.len() - 2], s[s.len() - 1]));
        }
        assert(front.push(s.last()) =~= s);
    } else {
        assert(s =~= Seq::empty());
    }
}

/// Sorting twice gives what sorting once gives.
pub proof fn lemma_sort_idempotent(s: Seq<RowView>)
    ensures
        sorted_rows(sorted_rows(s)) == sorted_rows(s),
{
    lemma_sorted_rows_in_order(s);
    lemma_sorted_rows_of_ordered(sorted_rows(s));
}

proof fn lemma_insert_row_multiset(s: Seq<RowView>, x: RowView)
    ensures
        insert_row(s, x).to_multiset() == s.to_multiset().insert(x),
    decreases s.len(),
{
    broadcast use vstd::seq_lib::group_to_multiset_ensures;

    if s.len() > 0 && !row_le(s.last(), x) {
        lemma_insert_row_multiset(s.drop_last(), x);
        assert(s.drop_last().push(s.last()) =~= s);
        assert(insert_row(s, x).to_multiset() =~= s.to_multiset().insert(x));
    }
}

/// A sorted list holds the rows it was made from, each as often as before.
pub proof fn lemma_sorted_rows_permutes(s: Seq<RowView>)
    ensures
        sorted_rows(s).to_multiset() == s.to_multiset(),
    decreases s.len(),
{
    broadcast use vstd::seq_lib::group_to_multiset_ensures;

    if s.len() > 0 {
        lemma_sorted_rows_permutes(s.drop_last());
        lemma_insert_row_multiset(sorted_rows(s.drop_last()), s.last());
        assert(s.drop_last().push(s.last()) =~= s);
    } else {
        assert(s =~= Seq::empty());
    }
}

proof fn lemma_insert_row_keeps_key_order(s: Seq<RowView>, x: RowView, k: (Seq<char>, Seq<char>))
    ensures
        rows_with_key(insert_row(s, x), k) == rows_with_key(s.push(x), k),
    decreases s.len(),
{
    if s.len() > 0 && !row_le(s.last(), x) {
        let front = s.drop_last();
        lemma_insert_row_keeps_key_order(front, x, k);
        let t = insert_row(front, x).push(s.last());
        assert(t.drop_last() =~= insert_row(front, x));
        assert(t.last() == s.last());
        assert(s.push(x).drop_last() =~= s);
        assert(s.push(x).last() == x);
        assert(front.push(x).drop_last() =~= front);
        assert(front.push(x).last() == x);
        if sort_key(s.last()) == k && sort_key(x) == k {
            lemma_text_le_reflexive(k.1);
        }
        let a = rows_with_key(front, k);
        let b = rows_with_key(insert_row(front, x), k);
        assert(rows_with_key(front.push(x), k) == if sort_key(x) == k {
            a.push(x)
        } else {
            a
        });
        assert(rows_with_key(s, k) == if sort_key(s.last()) == k {
            a.push(s.last())
        } else {
            a
        });
        assert(rows_with_key(s.push(x), k) == if sort_key(x) == k {
            rows_with_key(s, k).push(x)
        } else {
            rows_with_key(s, k)
        });
        assert(rows_with_key(t, k) == if sort_key(s.last()) == k {
            b.push(s.last())
        } else {
            b
        });
    }
}

/// Sorting is stable: rows of one key stay in the order they came in.
pub proof fn lemma_sorted_rows_stable(s: Seq<RowView>, k: (Seq<char>, Seq<char>))
    ensures
        rows_with_key(sorted_rows(s), k) == rows_with_key(s, k),
    decreases s.len(),
{
    if s.len() > 0 {
        let front = sorted_rows(s.drop_last());
        lemma_sorted_rows_stable(s.drop_last(), k);
        lemma_insert_row_keeps_key_order(front, s.last(), k);
        assert(front.push(s.last()).drop_last() =~= front);
    }
}

/// The rows that list the entries, in the same order.
pub fn list_rows(entries: &Vec<VaultEntry>) -> (out: Vec<VaultRow>)
    ensures
        row_views(out@) == rows_of(entry_views(entries@)),
{
    let mut out: Vec<VaultRow> = Vec::new();
    let mut i: usize = 0;
    while i < entries.len()
        invariant
            i <= entries.len(),
            out.len() == i,
            forall|j: int| 0 <= j < i ==> (#[trigger] out[j])@ == row_of(entries[j]@),
        decreases entries.len() - i,
    {
        out.push(listed(&entries[i]));
        i = i + 1;
    }
    proof {
        assert(row_views(out@) =~= rows_of(entry_views(entries@)));
    }
    out
}

/// What "show all" displays for the stored entries: the single placeholder
/// where there are none, else their rows in display order.
pub open spec fn show_all_rows(entries: Seq<EntryView>) -> Seq<RowView> {
    if entries.len() == 0 {
        seq![empty_vault_row()]
    } else {
        sorted_rows(rows_of(entries))
    }
}

/// The rows for "show all", and whether group headers are shown with them:
/// they are unless the vault is empty.
pub fn show_all(entries: &Vec<VaultEntry>) -> (r: (Vec<VaultRow>, bool))
    ensures
        row_views(r.0@) == show_all_rows(entry_views(entries@)),
        r.1 == (entries@.len() > 0),
        r.0@.len() == if entries@.len() == 0 {
            1
        } else {
            entries@.len()
        },
{
    if entries.len() == 0 {
        let mut rows: Vec<VaultRow> = Vec::new();
        rows.push(empty_vault_placeholder());
        proof {
            assert(row_views(rows@) =~= seq![empty_vault_row()]);
        }
        (rows, false)
    } else {
        let rows = list_rows(entries);
        let sorted = sort_rows(&rows);
        proof {
            lemma_sorted_rows_in_order(row_views(rows@));
            assert(row_views(sorted@).len() == sorted@.len());
        }
        (sorted, true)
    }
}

/// An entry answers a query when the query, case folded, is part of the
/// entry's account, case folded.
pub open spec fn answers(e: EntryView, query: Seq<char>) -> bool {
    occurs_in(lowercase_of(query), lowercase_of(e.account))
}

/// The entries that answer `query`, in the order in which they are stored.
pub open spec fn answering(entries: Seq<EntryView>, query: Seq<char>) -> Seq<EntryView>
    decreases entries.len(),
{
    if entries.len() == 0 {
        Seq::empty()
    } else if answers(entries.last(), query) {
        answering(entries.drop_last(), query).push(entries.last())
    } else {
        answering(entries.drop_last(), query)
    }
}

/// What a search displays: the rows of the entries that answer the query in
/// display order, or the single placeholder where none does.
pub open spec fn search_rows(entries: Seq<EntryView>, query: Seq<char>) -> Seq<RowView> {
    let found = answering(entries, query);
    if found.len() == 0 {
        seq![no_results_row()]
    } else {
        sorted_rows(rows_of(found))
    }
}

/// The rows a search displays: those of the entries whose account holds
/// the query, both case folded, in display order; or the single
/// placeholder where there is none.
pub fn search(entries: &Vec<VaultEntry>, query: &str) -> (out: Vec<VaultRow>)
    ensures
        row_views(out@) == search_rows(entry_views(entries@), query@),
        1 <= out@.len(),
        out@.len() <= entries@.len() || out@.len() == 1,
{
    let needle = chars_of(lowercase(query).as_str());
    let mut found: Vec<VaultEntry> = Vec::new();
    let mut i: usize = 0;
    proof {
        assert(entry_views(entries@).take(0) =~= Seq::empty());
        assert(entry_views(found@) =~= Seq::empty());
    }
    while i < entries.len()
        invariant
            i <= entries.len(),
            needle@ == lowercase_of(query@),
            found@.len() <= i,
            entry_views(found@) == answering(entry_views(entries@).take(i as int), query@),
        decreases entries.len() - i,
    {
        let hay = chars_of(lowercase(entries[i].account.as_str()).as_str());
        proof {
            let next = entry_views(entries@).take(i + 1);
            assert(next.drop_last() =~= entry_views(entries@).take(i as int));
            assert(next.last() == entries[i as int]@);
        }
        if contains_text(&hay, &needle) {
            let ghost before = entry_views(found@);
            let e = entries[i].clone();
            found.push(e);
            proof {
                assert(entry_views(found@) =~= before.push(entries[i as int]@));
            }
        }
        i = i + 1;
    }
    proof {
        assert(entry_views(entries@).take(entries.len() as int) =~= entry_views(entries@));
    }
    if found.len() == 0 {
        let mut rows: Vec<VaultRow> = Vec::new();
        rows.push(no_results_placeholder());
        proof {
            assert(row_views(rows@) =~= seq![no_results_row()]);
        }
        rows
    } else {
        let rows = list_rows(&found);
        let sorted = sort_rows(&rows);
        proof {
            lemma_sorted_rows_in_order(row_views(rows@));
            assert(row_views(sorted@).len() == sorted@.len());
        }
        sorted
    }
}

/// A row carries exactly these two names.
pub open spec fn names(r: RowView, account: Seq<char>, username: Seq<char>) -> bool {
    r.account == account && r.username == username
}

/// The rows of `rows` that do not carry the two names, in order.
pub open spec fn rows_without(rows: Seq<RowView>, account: Seq<char>, username: Seq<char>) -> Seq<
    RowView,
>
    decreases rows.len(),
{
    if rows.len() == 0 {
        Seq::empty()
    } else if names(rows.last(), account, username) {
        rows_without(rows.drop_last(), account, username)
    } else {
        rows_without(rows.drop_last(), account, username).push(rows.last())
    }
}

/// The list after a deletion: the rows that do not carry the two names, or
/// the single placeholder where none is left.
pub open spec fn rows_after_delete(
    rows: Seq<RowView>,
    account: Seq<char>,
    username: Seq<char>,
) -> Seq<RowView> {
    let kept = rows_without(rows, account, username);
    if kept.len() == 0 {
        seq![no_results_row()]
    } else {
        kept
    }
}

/// The list after a deletion: the rows that do not carry the two names,
/// in order, or the single placeholder where none is left.
pub fn remove_named(rows: &Vec<VaultRow>, account: &str, username: &str) -> (out: Vec<VaultRow>)
    ensures
        row_views(out@) == rows_after_delete(row_views(rows@), account@, username@),
        1 <= out@.len(),
        out@.len() <= rows@.len() || out@.len() == 1,
{
    let mut kept: Vec<VaultRow> = Vec::new();
    let mut i: usize = 0;
    proof {
        assert(row_views(rows@).take(0) =~= Seq::empty());
        assert(row_views(kept@) =~= Seq::empty());
    }
    while i < rows.len()
        invariant
            i <= rows.len(),
            kept@.len() <= i,
            row_views(kept@) == rows_without(row_views(rows@).take(i as int), account@, username@),
        decreases rows.len() - i,
    {
        proof {
            let next = row_views(rows@).take(i + 1);
            assert(next.drop_last() =~= row_views(rows@).take(i as int));
            assert(next.last() == rows[i as int]@);
        }
        let hit = same_str(rows[i].account.as_str(), account) && same_str(
            rows[i].username.as_str(),
            username,
        );
        if !hit {
            let ghost before = row_views(kept@);
            let r = rows[i].clone();
            kept.push(r);
            proof {
                assert(row_views(kept@) =~= before.push(rows[i as int]@));
            }
        }
        i = i + 1;
    }
    proof {
        assert(row_views(rows@).take(rows.len() as int) =~= row_views(rows@));
    }
    if kept.len() == 0 {
        kept.push(no_results_placeholder());
        proof {
            assert(row_views(kept@) =~= seq![no_results_row()]);
        }
    }
    kept
}

/// `at` is where the first row that carries the two names stands, or 0 where
/// no row carries them.
pub open spec fn is_position_of(
    rows: Seq<RowView>,
    account: Seq<char>,
    username: Seq<char>,
    at: int,
) -> bool {
    if exists|i: int| 0 <= i < rows.len() && names(#[trigger] rows[i], account, username) {
        &&& 0 <= at < rows.len()
        &&& names(rows[at], account, username)
        &&& forall|j: int| 0 <= j < at ==> !names(#[trigger] rows[j], account, username)
    } else {
        at == 0
    }
}

/// There is one such place.
pub proof fn lemma_position_unique(
    rows: Seq<RowView>,
    account: Seq<char>,
    username: Seq<char>,
    x: int,
    y: int,
)
    requires
        is_position_of(rows, account, username, x),
        is_position_of(rows, account, username, y),
    ensures
        x == y,
{
}

/// Where the first row that carries the two names stands, or 0 where no row
/// carries them.
pub open spec fn position_in(rows: Seq<RowView>, account: Seq<char>, username: Seq<char>) -> int {
    choose|at: int| is_position_of(rows, account, username, at)
}

/// Where the first row that carries the two names stands, or 0 where no
/// row carries them.
pub fn position_of(rows: &Vec<VaultRow>, account: &str, username: &str) -> (at: usize)
    ensures
        is_position_of(row_views(rows@), account@, username@, at as int),
        at == position_in(row_views(rows@), account@, username@),
        at == 0 || at < rows@.len(),
{
    let at: usize = first_named(rows, account, username);
    proof {
        lemma_position_unique(
            row_views(rows@),
            account@,
            username@,
            at as int,
            position_in(row_views(rows@), account@, username@),
        );
    }
    at
}

fn first_named(rows: &Vec<VaultRow>, account: &str, username: &str) -> (at: usize)
    ensures
        is_position_of(row_views(rows@), account@, username@, at as int),
{
    let mut i: usize = 0;
    while i < rows.len()
        invariant
            i <= rows.len(),
            forall|j: int| 0 <= j < i ==> !names(#[trigger] row_views(rows@)[j], account@, username@),
        decreases rows.len() - i,
    {
        if same_str(rows[i].account.as_str(), account) && same_str(
            rows[i].username.as_str(),
            username,
        ) {
            proof {
                assert(names(row_views(rows@)[i as int], account@, username@));
            }
            return i;
        }
        i = i + 1;
    }
    0
}

} // verus!
