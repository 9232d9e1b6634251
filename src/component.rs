use crate::cursor::{clamp_selection, clamp_spec, move_target, target_spec, ScrollType};
use crate::entry::{names_of, Entry};
use crate::filter::{filter_entries, filter_view, rows_of, FilteredEntry};
use crate::rows::{display_row, display_row_spec, DisplayRow};
use crate::scroll::{scroll_settled, scroll_top_spec, VerticalScroll};
use vstd::prelude::*;
use vstd::string::*;

verus! {

/// One input, as the host's key bindings name a key press.
#[derive(Clone, Debug)]
pub enum Intent {
    ExitPopup,
    MoveUp,
    MoveDown,
    PageUp,
    PageDown,
    Home,
    End,
    TabToggle,
    Enter,
    CreateBranch,
    RenameBranch,
    DeleteBranch,
    MergeBranch,
    RebaseBranch,
    MoveRight,
    CompareCommits,
    Pull,
    CmdBarToggle,
    FuzzyFind,
    /// The query input now holds this text.
    QueryChanged(String),
    Other,
}

#[derive(Clone, Copy, Debug, PartialEq, Eq, Structural)]
pub enum EventState {
    Consumed,
    NotConsumed,
}

/// Work that the host carries out; an `index` points into the entry list.
#[derive(Clone, Copy, Debug, PartialEq, Eq, Structural)]
pub enum Request {
    CreateBranch,
    RenameBranch { index: usize },
    DeleteBranch { index: usize, local: bool },
    Checkout { index: usize, local: bool },
    Merge { index: usize, local: bool },
    Rebase { index: usize, local: bool },
    InspectCommit { index: usize },
    CompareCommits { index: usize },
    FetchRemotes,
    /// Fetch the local or remote entries again and hand them to `update_branches`.
    RefreshBranches,
}

#[derive(Clone, Copy, Debug, PartialEq, Eq, Structural)]
pub struct EventOutcome {
    pub state: EventState,
    pub request: Option<Request>,
}

#[derive(Clone, Copy, Debug, PartialEq, Eq, Structural)]
pub enum ListError {
    /// An action was asked for while the view is empty.
    NoSelection,
}

#[derive(Clone, Copy, Debug, PartialEq, Eq, Structural)]
pub enum GitNotification {
    Push,
    Other,
}

#[derive(Clone, Copy, Debug, PartialEq, Eq, Structural)]
pub enum Command {
    Scroll,
    ClosePopup,
    CommitDetailsOpen,
    CompareWithHead,
    ToggleBranchPopup,
    SelectBranchPopup,
    OpenBranchCreatePopup,
    DeleteBranchPopup,
    MergeBranchPopup,
    BranchPopupRebase,
    RenameBranchPopup,
    FetchRemotes,
    FuzzyFind,
}

/// A command offered in the command bar: whether it can run now, and whether it is shown.
#[derive(Clone, Copy, Debug, PartialEq, Eq, Structural)]
pub struct CommandInfo {
    pub command: Command,
    pub enabled: bool,
    pub available: bool,
}

pub open spec fn outcome(state: EventState, request: Option<Request>) -> EventOutcome {
    EventOutcome { state, request }
}

/// Whether `name` ends in `/HEAD`, as a remote's symbolic head does.
pub open spec fn is_remote_head(name: Seq<char>) -> bool {
    name.len() >= 5 && name.subrange(name.len() - 5, name.len() as int) == seq!['/', 'H', 'E', 'A', 'D']
}

/// Position of the first entry named like a remote's head, or the length when there is none.
pub open spec fn remote_head_pos(s: Seq<Entry>) -> int
    decreases s.len(),
{
    if s.len() == 0 {
        0
    } else if is_remote_head(s[0].name@) {
        0
    } else {
        1 + remote_head_pos(s.drop_first())
    }
}

/// The entries as kept: a remote list loses its first `/HEAD` entry.
pub open spec fn kept_entries(s: Seq<Entry>, local: bool) -> Seq<Entry> {
    if !local && remote_head_pos(s) < s.len() {
        s.remove(remote_head_pos(s))
    } else {
        s
    }
}

proof fn lemma_remote_head_pos(s: Seq<Entry>, j: int)
    requires
        0 <= j <= s.len(),
        forall|k: int| 0 <= k < j ==> !is_remote_head((#[trigger] s[k]).name@),
        j < s.len() ==> is_remote_head(s[j].name@),
    ensures
        remote_head_pos(s) == j,
    decreases s.len(),
{
    if j > 0 {
        let t = s.drop_first();
        assert(!is_remote_head(s[0].name@));
        assert forall|k: int| 0 <= k < j - 1 implies !is_remote_head((#[trigger] t[k]).name@) by {
            assert(t[k] == s[k + 1]);
        }
        lemma_remote_head_pos(t, j - 1);
    }
}

fn ends_with_remote_head(name: &String) -> (r: bool)
    ensures
        r == is_remote_head(name@),
{
    let s = name.as_str();
    let n = s.unicode_len();
    if n < 5 {
        return false;
    }
    let r = s.get_char(n - 5) == '/' && s.get_char(n - 4) == 'H' && s.get_char(n - 3) == 'E'
        && s.get_char(n - 2) == 'A' && s.get_char(n - 1) == 'D';
    assert(r ==> s@.subrange(n - 5, n as int) =~= seq!['/', 'H', 'E', 'A', 'D']);
    assert(s@.subrange(n - 5, n as int) == seq!['/', 'H', 'E', 'A', 'D'] ==> s@.subrange(
        n - 5,
        n as int,
    )[0] == '/' && s@.subrange(n - 5, n as int)[1] == 'H' && s@.subrange(n - 5, n as int)[2]
        == 'E' && s@.subrange(n - 5, n as int)[3] == 'A' && s@.subrange(n - 5, n as int)[4]
        == 'D');
    r
}

#[derive(Clone, Copy, Debug, PartialEq, Eq, Structural)]
pub enum CommandBlocking {
    Blocking,
    PassingOn,
}

/// The commands offered while the list is shown, in the order they appear.
pub open spec fn command_list(
    local: bool,
    has_remotes: bool,
    is_cur: bool,
    valid: bool,
) -> Seq<CommandInfo> {
    seq![
        CommandInfo { command: Command::Scroll, enabled: true, available: true },
        CommandInfo { command: Command::ClosePopup, enabled: true, available: true },
        CommandInfo { command: Command::CommitDetailsOpen, enabled: true, available: true },
        CommandInfo { command: Command::CompareWithHead, enabled: !is_cur, available: true },
        CommandInfo { command: Command::ToggleBranchPopup, enabled: true, available: true },
        CommandInfo { command: Command::SelectBranchPopup, enabled: !is_cur && valid, available: true },
        CommandInfo { command: Command::OpenBranchCreatePopup, enabled: true, available: local },
        CommandInfo { command: Command::DeleteBranchPopup, enabled: !is_cur, available: true },
        CommandInfo { command: Command::MergeBranchPopup, enabled: !is_cur, available: true },
        CommandInfo { command: Command::BranchPopupRebase, enabled: !is_cur, available: true },
        CommandInfo { command: Command::RenameBranchPopup, enabled: true, available: local },
        CommandInfo { command: Command::FetchRemotes, enabled: has_remotes, available: !local },
        CommandInfo { command: Command::FuzzyFind, enabled: true, available: true },
    ]
}

/// A filterable, scrollable list of branches with one selected row.
pub struct BranchListComponent {
    pub branches: Vec<Entry>,
    pub branches_filtered: Vec<FilteredEntry>,
    /// Whether the local branches are listed, rather than the remote ones.
    pub local: bool,
    pub has_remotes: bool,
    pub visible: bool,
    /// Whether input goes to the query rather than to the cursor.
    pub fuzzy_find: bool,
    pub query: String,
    pub selection: usize,
    pub scroll: VerticalScroll,
    /// Rows of the viewport; `0` until it is known.
    pub current_height: usize,
}

impl BranchListComponent {
    /// The filtered view is derived from the entries and the query, the cursor
    /// is on a row (or `0` on an empty view), and the cursor's row is in the viewport.
    pub open spec fn wf(&self) -> bool {
        &&& rows_of(self.branches_filtered@) == filter_view(names_of(self.branches@), self.query@)
        &&& forall|k: int|
            0 <= k < self.branches_filtered@.len() ==> (#[trigger] self.branches_filtered@[k]).index
                < self.branches@.len()
        &&& self.selection == clamp_spec(self.selection as int, self.branches_filtered@.len() as int)
        &&& scroll_settled(
            self.scroll.top as int,
            self.selection as int,
            self.branches_filtered@.len() as int,
            self.current_height as int,
        )
    }

    pub open spec fn len(&self) -> int {
        self.branches_filtered@.len() as int
    }

    pub open spec fn valid_selection_spec(&self) -> bool {
        self.branches@.len() > 0 && self.branches_filtered@.len() > 0
    }

    /// Index into the entries of the row under the cursor.
    pub open spec fn selected_index(&self) -> usize {
        self.branches_filtered@[self.selection as int].index
    }

    pub open spec fn selection_is_cur_branch_spec(&self) -> bool {
        self.branches_filtered@.len() > 0 && self.branches@[self.selected_index() as int].is_head_spec()
    }

    /// `new` is `self` after the cursor move `kind` and the scroll that follows it.
    pub open spec fn moved(&self, new: Self, kind: ScrollType) -> bool {
        let sel = clamp_spec(
            target_spec(kind, self.selection as int, self.len(), self.current_height as int),
            self.len(),
        );
        new == (BranchListComponent {
            selection: sel as usize,
            scroll: VerticalScroll {
                top: scroll_top_spec(self.scroll.top as int, sel, self.len(), self.current_height as int) as usize,
            },
            ..*self
        })
    }

    /// `new` is `self` with the view rebuilt for `branches` and `query`, the
    /// cursor clamped to it and the scroll brought after it.
    pub open spec fn rebuilt(&self, new: Self, branches: Seq<Entry>, query: Seq<char>) -> bool {
        let len = new.branches_filtered@.len() as int;
        let sel = clamp_spec(self.selection as int, len);
        &&& new.branches@ == branches
        &&& new.query@ == query
        &&& rows_of(new.branches_filtered@) == filter_view(names_of(branches), query)
        &&& new.selection == sel
        &&& new.scroll.top == scroll_top_spec(self.scroll.top as int, sel, len, self.current_height as int)
        &&& new.local == self.local
        &&& new.visible == self.visible
        &&& new.fuzzy_find == self.fuzzy_find
        &&& new.current_height == self.current_height
    }

    pub fn new() -> (r: Self)
        ensures
            r.wf(),
            r.branches@.len() == 0,
            r.query@.len() == 0,
            r.local,
            !r.has_remotes,
            !r.visible,
            !r.fuzzy_find,
            r.selection == 0,
            r.current_height == 0,
    {
        let r = BranchListComponent {
            branches: Vec::new(),
            branches_filtered: Vec::new(),
            local: true,
            has_remotes: false,
            visible: false,
            fuzzy_find: false,
            query: String::new(),
            selection: 0,
            scroll: VerticalScroll::new(),
            current_height: 0,
        };
        assert(rows_of(r.branches_filtered@) =~= filter_view(names_of(r.branches@), r.query@));
        r
    }

    /// Rebuilds the view from the entries and the query, then clamps the cursor and scrolls.
    fn update_filter(&mut self)
        ensures
            final(self).wf(),
            old(self).rebuilt(*final(self), old(self).branches@, old(self).query@),
            final(self).branches == old(self).branches,
            final(self).query == old(self).query,
            final(self).has_remotes == old(self).has_remotes,
    {
        self.branches_filtered = filter_entries(&self.branches, self.query.as_str());
        self.refresh_selection();
    }

    /// Clamps the cursor to the view and scrolls to it.
    fn refresh_selection(&mut self)
        requires
            forall|k: int|
                0 <= k < old(self).branches_filtered@.len() ==> (#[trigger] old(
                    self,
                ).branches_filtered@[k]).index < old(self).branches@.len(),
            rows_of(old(self).branches_filtered@) == filter_view(
                names_of(old(self).branches@),
                old(self).query@,
            ),
        ensures
            final(self).wf(),
            final(self).selection == clamp_spec(old(self).selection as int, old(self).len()),
            final(self).scroll.top == scroll_top_spec(
                old(self).scroll.top as int,
                final(self).selection as int,
                old(self).len(),
                old(self).current_height as int,
            ),
            *final(self) == (BranchListComponent {
                selection: final(self).selection,
                scroll: final(self).scroll,
                ..*old(self)
            }),
    {
        self.selection = clamp_selection(self.selection, self.branches_filtered.len());
        self.scroll.update(self.selection, self.branches_filtered.len(), self.current_height);
    }

    /// `new` is `self` after being handed `entries` by the backend.
    pub open spec fn refreshed(&self, new: Self, entries: Seq<Entry>) -> bool {
        if !self.visible {
            new == *self
        } else {
            &&& self.rebuilt(new, kept_entries(entries, self.local), self.query@)
            &&& new.has_remotes == if self.local {
                self.has_remotes
            } else {
                entries.len() > 0
            }
        }
    }

    pub fn is_visible(&self) -> (r: bool)
        ensures
            r == self.visible,
    {
        self.visible
    }

    pub fn close(&mut self)
        ensures
            *final(self) == (BranchListComponent { visible: false, ..*old(self) }),
    {
        self.visible = false;
    }

    /// Shows the list with an empty query; the view is rebuilt for it.
    pub fn show(&mut self)
        requires
            old(self).wf(),
        ensures
            final(self).wf(),
            final(self).visible,
            (BranchListComponent { visible: true, ..*old(self) }).rebuilt(*final(self), old(self).branches@, Seq::empty()),
            final(self).has_remotes == old(self).has_remotes,
    {
        self.query = String::new();
        self.visible = true;
        self.update_filter();
    }

    /// Opens the list on `entries`, which the host fetched for the current
    /// side (local or remote), with an empty query and input going to the cursor.
    pub fn open(&mut self, entries: Vec<Entry>)
        requires
            old(self).wf(),
        ensures
            final(self).wf(),
            final(self).visible,
            !final(self).fuzzy_find,
            final(self).query@.len() == 0,
            final(self).branches@ == kept_entries(entries@, old(self).local),
            final(self).local == old(self).local,
    {
        self.show();
        self.update_branches(entries);
        self.fuzzy_find = false;
    }

    /// Replaces the entries with a fresh list from the backend while the list
    /// is shown; the query stays and the view is rebuilt for it.
    pub fn update_branches(&mut self, entries: Vec<Entry>)
        requires
            old(self).wf(),
        ensures
            final(self).wf(),
            old(self).refreshed(*final(self), entries@),
    {
        if !self.visible {
            return;
        }
        if !self.local {
            self.has_remotes = entries.len() > 0;
        }
        let mut entries = entries;
        if !self.local {
            let ghost given = entries@;
            let mut j: usize = 0;
            while j < entries.len() && !ends_with_remote_head(&entries[j].name)
                invariant
                    entries@ == given,
                    j <= entries@.len(),
                    forall|k: int| 0 <= k < j ==> !is_remote_head((#[trigger] entries@[k]).name@),
                decreases entries.len() - j,
            {
                j = j + 1;
            }
            proof {
                lemma_remote_head_pos(entries@, j as int);
            }
            if j < entries.len() {
                entries.remove(j);
            }
        }
        self.branches = entries;
        self.update_filter();
    }

    /// Whether a notification from the backend calls for fetching the entries again.
    pub fn update_git(&self, ev: GitNotification) -> (r: bool)
        ensures
            r == (self.visible && ev == GitNotification::Push),
    {
        self.visible && ev == GitNotification::Push
    }

    pub fn valid_selection(&self) -> (r: bool)
        ensures
            r == self.valid_selection_spec(),
    {
        self.branches.len() > 0 && self.branches_filtered.len() > 0
    }

    /// Whether the row under the cursor is the checked-out branch.
    pub fn selection_is_cur_branch(&self) -> (r: bool)
        requires
            self.wf(),
        ensures
            r == self.selection_is_cur_branch_spec(),
    {
        if self.branches_filtered.len() == 0 {
            return false;
        }
        self.branches[self.branches_filtered[self.selection].index].is_head()
    }

    /// Index into the entries of the row under the cursor; `None` on an empty view.
    pub fn current_selection(&self) -> (r: Option<usize>)
        requires
            self.wf(),
        ensures
            self.len() == 0 ==> r is None,
            self.len() > 0 ==> r == Some(self.selected_index()),
            r matches Some(i) ==> i < self.branches@.len(),
    {
        if self.branches_filtered.len() == 0 {
            None
        } else {
            Some(self.branches_filtered[self.selection].index)
        }
    }

    /// Moves the cursor and scrolls to it.
    pub fn move_selection(&mut self, kind: ScrollType)
        requires
            old(self).wf(),
        ensures
            final(self).wf(),
            old(self).moved(*final(self), kind),
    {
        let sel = move_target(kind, self.selection, self.branches_filtered.len(), self.current_height);
        self.selection = sel;
        self.scroll.update(sel, self.branches_filtered.len(), self.current_height);
    }

    /// Sets the viewport's height and scrolls to the cursor.
    pub fn resize_viewport(&mut self, height: usize)
        requires
            old(self).wf(),
        ensures
            final(self).wf(),
            *final(self) == (BranchListComponent {
                current_height: height,
                scroll: VerticalScroll {
                    top: scroll_top_spec(
                        old(self).scroll.top as int,
                        old(self).selection as int,
                        old(self).len(),
                        height as int,
                    ) as usize,
                },
                ..*old(self)
            }),
    {
        self.current_height = height;
        self.scroll.update(self.selection, self.branches_filtered.len(), height);
    }

    /// Replaces the query; the view is rebuilt for it.
    pub fn set_query(&mut self, query: String)
        requires
            old(self).wf(),
        ensures
            final(self).wf(),
            old(self).rebuilt(*final(self), old(self).branches@, query@),
            final(self).query == query,
            final(self).has_remotes == old(self).has_remotes,
    {
        self.query = query;
        self.update_filter();
    }

    /// The lines to draw for a viewport `height` rows high and `width` columns
    /// wide, from the scroll offset on.
    pub fn get_text(&self, width: u16, height: usize) -> (r: Vec<DisplayRow>)
        requires
            self.wf(),
        ensures
            r@.len() == if self.scroll.top as int >= self.len() {
                0
            } else if height as int <= self.len() - self.scroll.top {
                height as int
            } else {
                self.len() - self.scroll.top
            },
            forall|i: int|
                0 <= i < r@.len() ==> display_row_spec(
                    #[trigger] r@[i],
                    self.branches@[self.branches_filtered@[self.scroll.top + i].index as int],
                    self.branches_filtered@[self.scroll.top + i],
                    self.scroll.top + i == self.selection,
                    width as int,
                ),
    {
        let top = self.scroll.get_top();
        let len = self.branches_filtered.len();
        let end: usize = if top >= len {
            top
        } else if height <= len - top {
            top + height
        } else {
            len
        };
        let mut r: Vec<DisplayRow> = Vec::new();
        let mut k: usize = top;
        while k < end
            invariant
                self.wf(),
                top == self.scroll.top,
                len == self.len(),
                top <= k <= end,
                end <= len || end == top,
                r@.len() == k - top,
                forall|i: int|
                    0 <= i < r@.len() ==> display_row_spec(
                        #[trigger] r@[i],
                        self.branches@[self.branches_filtered@[top + i].index as int],
                        self.branches_filtered@[top + i],
                        top + i == self.selection,
                        width as int,
                    ),
            decreases end - k,
        {
            let row = &self.branches_filtered[k];
            let line = display_row(&self.branches[row.index], row, k == self.selection, width);
            r.push(line);
            k = k + 1;
        }
        r
    }

    /// Fills the command bar: all commands when shown (replacing what `out`
    /// held unless `force_all`), or when `force_all` (appended).
    pub fn commands(&self, out: &mut Vec<CommandInfo>, force_all: bool) -> (r: CommandBlocking)
        requires
            self.wf(),
        ensures
            r == if self.visible {
                CommandBlocking::Blocking
            } else {
                CommandBlocking::PassingOn
            },
            final(out)@ == if self.visible || force_all {
                (if force_all {
                    old(out)@
                } else {
                    Seq::empty()
                }) + command_list(
                    self.local,
                    self.has_remotes,
                    self.selection_is_cur_branch_spec(),
                    self.valid_selection_spec(),
                )
            } else {
                old(out)@
            },
    {
        if self.visible || force_all {
            if !force_all {
                out.clear();
            }
            let is_cur = self.selection_is_cur_branch();
            let valid = self.valid_selection();
            let ghost start = out@;
            out.push(CommandInfo { command: Command::Scroll, enabled: true, available: true });
            out.push(CommandInfo { command: Command::ClosePopup, enabled: true, available: true });
            out.push(CommandInfo { command: Command::CommitDetailsOpen, enabled: true, available: true });
            out.push(CommandInfo { command: Command::CompareWithHead, enabled: !is_cur, available: true });
            out.push(CommandInfo { command: Command::ToggleBranchPopup, enabled: true, available: true });
            out.push(CommandInfo { command: Command::SelectBranchPopup, enabled: !is_cur && valid, available: true });
            out.push(CommandInfo { command: Command::OpenBranchCreatePopup, enabled: true, available: self.local });
            out.push(CommandInfo { command: Command::DeleteBranchPopup, enabled: !is_cur, available: true });
            out.push(CommandInfo { command: Command::MergeBranchPopup, enabled: !is_cur, available: true });
            out.push(CommandInfo { command: Command::BranchPopupRebase, enabled: !is_cur, available: true });
            out.push(CommandInfo { command: Command::RenameBranchPopup, enabled: true, available: self.local });
            out.push(CommandInfo { command: Command::FetchRemotes, enabled: self.has_remotes, available: !self.local });
            out.push(CommandInfo { command: Command::FuzzyFind, enabled: true, available: true });
            assert(out@ =~= start + command_list(self.local, self.has_remotes, is_cur, valid));
        }
        if self.visible {
            CommandBlocking::Blocking
        } else {
            CommandBlocking::PassingOn
        }
    }

    /// What handling `intent` answers.
    pub open spec fn outcome_spec(&self, intent: Intent) -> Result<EventOutcome, ListError> {
        let valid = self.valid_selection_spec();
        let acts = valid && !self.selection_is_cur_branch_spec();
        let i = self.selected_index();
        let done = Ok(outcome(EventState::Consumed, None));
        if !self.visible {
            Ok(outcome(EventState::NotConsumed, None))
        } else if self.fuzzy_find && (intent is ExitPopup || intent is QueryChanged) {
            done
        } else {
            match intent {
                Intent::TabToggle => Ok(outcome(EventState::Consumed, Some(Request::RefreshBranches))),
                Intent::Enter => if valid {
                    Ok(outcome(EventState::Consumed, Some(Request::Checkout { index: i, local: self.local })))
                } else {
                    Err(ListError::NoSelection)
                },
                Intent::CreateBranch => if self.local {
                    Ok(outcome(EventState::Consumed, Some(Request::CreateBranch)))
                } else {
                    done
                },
                Intent::RenameBranch => if valid {
                    Ok(outcome(EventState::Consumed, Some(Request::RenameBranch { index: i })))
                } else {
                    done
                },
                Intent::DeleteBranch => if acts {
                    Ok(outcome(EventState::Consumed, Some(Request::DeleteBranch { index: i, local: self.local })))
                } else {
                    done
                },
                Intent::MergeBranch => if acts {
                    Ok(outcome(EventState::Consumed, Some(Request::Merge { index: i, local: self.local })))
                } else {
                    done
                },
                Intent::RebaseBranch => if acts {
                    Ok(outcome(EventState::Consumed, Some(Request::Rebase { index: i, local: self.local })))
                } else {
                    done
                },
                Intent::MoveRight => if valid {
                    Ok(outcome(EventState::Consumed, Some(Request::InspectCommit { index: i })))
                } else {
                    done
                },
                Intent::CompareCommits => if valid {
                    Ok(outcome(EventState::Consumed, Some(Request::CompareCommits { index: i })))
                } else {
                    done
                },
                Intent::Pull => if !self.local && self.has_remotes {
                    Ok(outcome(EventState::Consumed, Some(Request::FetchRemotes)))
                } else {
                    done
                },
                Intent::CmdBarToggle => Ok(outcome(EventState::NotConsumed, None)),
                _ => done,
            }
        }
    }

    /// `new` is `self` after handling `intent`.
    pub open spec fn after_event(&self, new: Self, intent: Intent) -> bool {
        if !self.visible {
            new == *self
        } else if self.fuzzy_find && intent is ExitPopup {
            new == (BranchListComponent { fuzzy_find: false, ..*self })
        } else if self.fuzzy_find && intent is QueryChanged {
            &&& self.rebuilt(new, self.branches@, intent->QueryChanged_0@)
            &&& new.has_remotes == self.has_remotes
        } else {
            match intent {
                Intent::ExitPopup => new == (BranchListComponent { visible: false, ..*self }),
                Intent::MoveUp => self.moved(new, ScrollType::Up),
                Intent::MoveDown => self.moved(new, ScrollType::Down),
                Intent::PageUp => self.moved(new, ScrollType::PageUp),
                Intent::PageDown => self.moved(new, ScrollType::PageDown),
                Intent::Home => self.moved(new, ScrollType::Home),
                Intent::End => self.moved(new, ScrollType::End),
                Intent::TabToggle => new == (BranchListComponent { local: !self.local, ..*self }),
                Intent::MoveRight | Intent::CompareCommits => if self.valid_selection_spec() {
                    new == (BranchListComponent { visible: false, ..*self })
                } else {
                    new == *self
                },
                Intent::FuzzyFind => new == (BranchListComponent { fuzzy_find: !self.fuzzy_find, ..*self }),
                _ => new == *self,
            }
        }
    }

    /// Handles one input. Actions on a branch are not carried out here: they
    /// come back as a request naming the entry under the cursor.
    pub fn event(&mut self, intent: Intent) -> (r: Result<EventOutcome, ListError>)
        requires
            old(self).wf(),
        ensures
            final(self).wf(),
            r == old(self).outcome_spec(intent),
            old(self).after_event(*final(self), intent),
    {
        let done: Result<EventOutcome, ListError> = Ok(EventOutcome { state: EventState::Consumed, request: None });
        if !self.visible {
            return Ok(EventOutcome { state: EventState::NotConsumed, request: None });
        }
        if self.fuzzy_find {
            match intent {
                Intent::ExitPopup => {
                    self.fuzzy_find = false;
                    return done;
                },
                Intent::QueryChanged(q) => {
                    self.set_query(q);
                    return done;
                },
                _ => {},
            }
        }
        let valid = self.valid_selection();
        let acts = valid && !self.selection_is_cur_branch();
        let index: usize = if self.branches_filtered.len() > 0 {
            self.branches_filtered[self.selection].index
        } else {
            0
        };
        let local = self.local;
        let request = |q: Request| -> (o: Result<EventOutcome, ListError>)
            ensures o == Ok::<EventOutcome, ListError>(outcome(EventState::Consumed, Some(q))),
            { Ok(EventOutcome { state: EventState::Consumed, request: Some(q) }) };
        match intent {
            Intent::ExitPopup => {
                self.close();
                done
            },
            Intent::MoveUp => {
                self.move_selection(ScrollType::Up);
                done
            },
            Intent::MoveDown => {
                self.move_selection(ScrollType::Down);
                done
            },
            Intent::PageUp => {
                self.move_selection(ScrollType::PageUp);
                done
            },
            Intent::PageDown => {
                self.move_selection(ScrollType::PageDown);
                done
            },
            Intent::Home => {
                self.move_selection(ScrollType::Home);
                done
            },
            Intent::End => {
                self.move_selection(ScrollType::End);
                done
            },
            Intent::TabToggle => {
                self.local = !self.local;
                request(Request::RefreshBranches)
            },
            Intent::Enter => if valid {
                request(Request::Checkout { index, local })
            } else {
                Err(ListError::NoSelection)
            },
            Intent::CreateBranch => if local {
                request(Request::CreateBranch)
            } else {
                done
            },
            Intent::RenameBranch => if valid {
                request(Request::RenameBranch { index })
            } else {
                done
            },
            Intent::DeleteBranch => if acts {
                request(Request::DeleteBranch { index, local })
            } else {
                done
            },
            Intent::MergeBranch => if acts {
                request(Request::Merge { index, local })
            } else {
                done
            },
            Intent::RebaseBranch => if acts {
                request(Request::Rebase { index, local })
            } else {
                done
            },
            Intent::MoveRight => if valid {
                self.close();
                request(Request::InspectCommit { index })
            } else {
                done
            },
            Intent::CompareCommits => if valid {
                self.close();
                request(Request::CompareCommits { index })
            } else {
                done
            },
            Intent::Pull => if !local && self.has_remotes {
                request(Request::FetchRemotes)
            } else {
                done
            },
            Intent::CmdBarToggle => Ok(EventOutcome { state: EventState::NotConsumed, request: None }),
            Intent::FuzzyFind => {
                self.fuzzy_find = !self.fuzzy_find;
                done
            },
            Intent::QueryChanged(_) => done,
            Intent::Other => done,
        }
    }

    /// Follows a checkout that the host carried out for a `Checkout` request:
    /// a local checkout closes the list; a remote one switches to the local
    /// side, whose entries the host then fetches (the answer is `true`).
    pub fn checkout_finished(&mut self) -> (r: bool)
        requires
            old(self).wf(),
        ensures
            final(self).wf(),
            r == !old(self).local,
            old(self).local ==> *final(self) == (BranchListComponent { visible: false, ..*old(self) }),
            !old(self).local ==> *final(self) == (BranchListComponent { local: true, ..*old(self) }),
    {
        if self.local {
            self.close();
            false
        } else {
            self.local = true;
            true
        }
    }
}

/// Handing the same entries to a shown list twice, with the query unchanged,
/// gives the same view, the same cursor and the same scroll offset as the first time.
pub proof fn lemma_refresh_twice(
    a: BranchListComponent,
    b: BranchListComponent,
    c: BranchListComponent,
    entries: Seq<Entry>,
)
    requires
        a.visible,
        a.refreshed(b, entries),
        b.refreshed(c, entries),
    ensures
        rows_of(c.branches_filtered@) == rows_of(b.branches_filtered@),
        c.selection == b.selection,
        c.scroll.top == b.scroll.top,
        c.branches@ == b.branches@,
        c.query@ == b.query@,
{
    assert(c.branches_filtered@.len() == rows_of(c.branches_filtered@).len());
    assert(b.branches_filtered@.len() == rows_of(b.branches_filtered@).len());
}

/// Whatever cursor moves, viewport resizes, refreshes and query edits led to a
/// state, the row under the cursor lies in the viewport whenever the view and
/// the viewport are not empty.
pub proof fn lemma_cursor_in_viewport(c: BranchListComponent)
    requires
        c.wf(),
        c.len() > 0,
        c.current_height > 0,
    ensures
        c.scroll.top <= c.selection < c.scroll.top + c.current_height,
        c.len() <= c.current_height ==> c.scroll.top == 0,
        c.len() > c.current_height ==> c.scroll.top <= c.len() - c.current_height,
{
}

} // verus!
