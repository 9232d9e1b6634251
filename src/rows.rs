use crate::entry::{Details, Entry};
use crate::filter::FilteredEntry;
use crate::matcher::{truncate_to_width, width_prefix};
use vstd::prelude::*;
use vstd::string::*;

verus! {

pub const UPSTREAM_SYMBOL: char = '\u{2191}';

pub const TRACKING_SYMBOL: char = '\u{2193}';

pub const HEAD_SYMBOL: char = '*';

pub const EMPTY_SYMBOL: char = ' ';

pub const ELLIPSIS_LEN: usize = 3;

pub const COMMIT_HASH_LEN: usize = 8;

pub const HEAD_MARK_LEN: usize = 3;

pub const SHORT_HASH_LEN: usize = 7;

pub open spec fn ellipsis() -> Seq<char> {
    seq!['.', '.', '.']
}

/// One line of the list as it is drawn, split where its styles change.
#[derive(Clone, Debug)]
pub struct DisplayRow {
    /// Head mark, upstream or tracking mark, and a space.
    pub prefix: Vec<char>,
    /// The name, shortened and padded to its column, and a space.
    pub name: Vec<char>,
    /// For each character of `name`, whether the query matched it.
    pub hits: Vec<bool>,
    /// The short commit hash and a space.
    pub hash: Vec<char>,
    pub message: Vec<char>,
    pub selected: bool,
    pub is_head: bool,
}

/// Columns given to branch names: 40% of the width.
pub open spec fn name_budget_spec(width: int) -> int {
    width * 40 / 100
}

pub open spec fn sat_sub(a: int, b: int) -> int {
    if a >= b {
        a - b
    } else {
        0
    }
}

/// Columns left to the commit message.
pub open spec fn message_budget_spec(width: int) -> int {
    sat_sub(
        sat_sub(sat_sub(sat_sub(width, COMMIT_HASH_LEN as int), name_budget_spec(width)), HEAD_MARK_LEN as int),
        ELLIPSIS_LEN as int,
    )
}

pub fn name_budget(width: u16) -> (r: usize)
    ensures
        r == name_budget_spec(width as int),
{
    let w: usize = width as usize;
    w * 40 / 100
}

pub fn message_budget(width: u16) -> (r: usize)
    ensures
        r == message_budget_spec(width as int),
{
    let w: usize = width as usize;
    let n = name_budget(width);
    w.saturating_sub(COMMIT_HASH_LEN).saturating_sub(n).saturating_sub(HEAD_MARK_LEN).saturating_sub(
        ELLIPSIS_LEN,
    )
}

/// `full` itself when `kept` is all of it, else `kept` followed by an ellipsis.
pub open spec fn ellipsize_spec(full: Seq<char>, kept: Seq<char>) -> Seq<char> {
    if kept.len() >= full.len() {
        full
    } else {
        kept + ellipsis()
    }
}

fn chars_of(s: &str) -> (r: Vec<char>)
    ensures
        r@ == s@,
{
    let n = s.unicode_len();
    let mut r: Vec<char> = Vec::new();
    let mut i: usize = 0;
    while i < n
        invariant
            n == s@.len(),
            i <= n,
            r@ == s@.subrange(0, i as int),
        decreases n - i,
    {
        r.push(s.get_char(i));
        i = i + 1;
        assert(r@ =~= s@.subrange(0, i as int));
    }
    r
}

/// Completes a truncation: `kept` is what truncating `full` left.
pub fn ellipsize(full: &str, kept: &str) -> (r: Vec<char>)
    ensures
        r@ == ellipsize_spec(full@, kept@),
{
    if kept.unicode_len() >= full.unicode_len() {
        chars_of(full)
    } else {
        let mut r = chars_of(kept);
        r.push('.');
        r.push('.');
        r.push('.');
        assert(r@ =~= kept@ + ellipsis());
        r
    }
}

/// A name shortened to its column: cut to `budget - 3` columns, with an
/// ellipsis, when it does not fit there.
pub open spec fn short_name_spec(name: Seq<char>, budget: int) -> Seq<char> {
    ellipsize_spec(name, width_prefix(name, sat_sub(budget, ELLIPSIS_LEN as int) as usize))
}

/// A message shortened to `budget` columns: kept whole when it fits, else
/// shortened as a name is in a column of `budget` columns.
pub open spec fn short_message_spec(message: Seq<char>, budget: int) -> Seq<char> {
    if width_prefix(message, budget as usize).len() >= message.len() {
        message
    } else {
        ellipsize_spec(message, width_prefix(message, sat_sub(budget, ELLIPSIS_LEN as int) as usize))
    }
}

fn short_name(name: &str, budget: usize) -> (r: Vec<char>)
    ensures
        r@ == short_name_spec(name@, budget as int),
{
    let kept = truncate_to_width(name, budget.saturating_sub(ELLIPSIS_LEN));
    ellipsize(name, kept.as_str())
}

fn short_message(message: &str, budget: usize) -> (r: Vec<char>)
    ensures
        r@ == short_message_spec(message@, budget as int),
{
    let whole = truncate_to_width(message, budget);
    if whole.unicode_len() >= message.unicode_len() {
        chars_of(message)
    } else {
        let kept = truncate_to_width(message, budget.saturating_sub(ELLIPSIS_LEN));
        let r = ellipsize(message, kept.as_str());
        r
    }
}

/// `s` padded with spaces to `width` characters, then one space.
pub open spec fn pad_spec(s: Seq<char>, width: int) -> Seq<char> {
    s + Seq::new(sat_sub(width, s.len() as int) as nat, |i: int| ' ') + seq![' ']
}

fn pad(s: Vec<char>, width: usize) -> (r: Vec<char>)
    ensures
        r@ == pad_spec(s@, width as int),
{
    let mut r = s;
    let ghost s0 = r@;
    let n = r.len();
    let mut k: usize = n;
    while k < width
        invariant
            n == s0.len(),
            n <= k || width <= n,
            k >= n,
            k <= width || k == n,
            r@ == s0 + Seq::new((k - n) as nat, |i: int| ' '),
        decreases width - k,
    {
        r.push(' ');
        k = k + 1;
        assert(r@ =~= s0 + Seq::new((k - n) as nat, |i: int| ' '));
    }
    r.push(' ');
    assert(r@ =~= pad_spec(s0, width as int));
    r
}

pub open spec fn contains_pos(positions: Seq<usize>, k: int) -> bool {
    exists|j: int| 0 <= j < positions.len() && positions[j] as int == k
}

fn has_position(positions: &Vec<usize>, k: usize) -> (r: bool)
    ensures
        r == contains_pos(positions@, k as int),
{
    let mut j: usize = 0;
    while j < positions.len()
        invariant
            j <= positions@.len(),
            forall|m: int| 0 <= m < j ==> positions@[m] != k,
        decreases positions.len() - j,
    {
        if positions[j] == k {
            return true;
        }
        j = j + 1;
    }
    false
}

pub open spec fn prefix_spec(d: Details) -> Seq<char> {
    let head = match d {
        Details::Local { is_head, .. } => if is_head { HEAD_SYMBOL } else { EMPTY_SYMBOL },
        Details::Remote { .. } => EMPTY_SYMBOL,
    };
    let mark = match d {
        Details::Local { has_upstream, .. } => if has_upstream { UPSTREAM_SYMBOL } else { EMPTY_SYMBOL },
        Details::Remote { has_tracking } => if has_tracking { TRACKING_SYMBOL } else { EMPTY_SYMBOL },
    };
    seq![head, mark, ' ']
}

/// The first characters of the commit id, and a space.
pub open spec fn hash_spec(commit: Seq<char>) -> Seq<char> {
    commit.subrange(0, if commit.len() < SHORT_HASH_LEN { commit.len() as int } else { SHORT_HASH_LEN as int })
        + seq![' ']
}

/// How `entry`, shown through `row` in a list `width` columns wide, is drawn.
pub open spec fn display_row_spec(
    r: DisplayRow,
    entry: Entry,
    row: FilteredEntry,
    selected: bool,
    width: int,
) -> bool {
    let name = pad_spec(short_name_spec(entry.name@, name_budget_spec(width)), name_budget_spec(width));
    &&& r.prefix@ == prefix_spec(entry.details)
    &&& r.name@ == name
    &&& r.hits@.len() == name.len()
    &&& forall|k: int| 0 <= k < name.len() ==> r.hits@[k] == contains_pos(row.positions@, k)
    &&& r.hash@ == hash_spec(entry.top_commit@)
    &&& r.message@ == short_message_spec(entry.top_commit_message@, message_budget_spec(width))
    &&& r.selected == selected
    &&& r.is_head == entry.is_head_spec()
}

/// Builds the drawn line for `entry` shown through `row`.
pub fn display_row(entry: &Entry, row: &FilteredEntry, selected: bool, width: u16) -> (r: DisplayRow)
    ensures
        display_row_spec(r, *entry, *row, selected, width as int),
{
    let nb = name_budget(width);
    let name = pad(short_name(entry.name.as_str(), nb), nb);
    let mut hits: Vec<bool> = Vec::new();
    let mut k: usize = 0;
    while k < name.len()
        invariant
            k <= name@.len(),
            hits@.len() == k,
            forall|m: int| 0 <= m < k ==> hits@[m] == contains_pos(row.positions@, m),
        decreases name.len() - k,
    {
        hits.push(has_position(&row.positions, k));
        k = k + 1;
    }
    let head = match entry.details {
        Details::Local { is_head, .. } => if is_head { HEAD_SYMBOL } else { EMPTY_SYMBOL },
        Details::Remote { .. } => EMPTY_SYMBOL,
    };
    let mark = match entry.details {
        Details::Local { has_upstream, .. } => if has_upstream { UPSTREAM_SYMBOL } else { EMPTY_SYMBOL },
        Details::Remote { has_tracking } => if has_tracking { TRACKING_SYMBOL } else { EMPTY_SYMBOL },
    };
    let prefix = vec![head, mark, ' '];
    let commit = entry.top_commit.as_str();
    let clen = commit.unicode_len();
    let hlen: usize = if clen < SHORT_HASH_LEN { clen } else { SHORT_HASH_LEN };
    let mut hash = chars_of(commit.substring_char(0, hlen));
    hash.push(' ');
    let message = short_message(entry.top_commit_message.as_str(), message_budget(width));
    let is_head = entry.is_head();
    assert(prefix@ =~= prefix_spec(entry.details));
    assert(hash@ =~= hash_spec(entry.top_commit@));
    DisplayRow { prefix, name, hits, hash, message, selected, is_head }
}

} // verus!
