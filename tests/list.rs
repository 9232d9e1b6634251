use branchlist::component::{
    BranchListComponent, Command, CommandBlocking, CommandInfo, EventState, GitNotification,
    Intent, ListError, Request,
};
use branchlist::cursor::{clamp_selection, move_target, ScrollType};
use branchlist::entry::{Details, Entry};
use branchlist::filter::filter_entries;
use branchlist::rows::{ellipsize, message_budget, name_budget};
use branchlist::scroll::VerticalScroll;

fn local(name: &str, is_head: bool) -> Entry {
    Entry {
        name: name.to_string(),
        reference: format!("refs/heads/{name}"),
        top_commit_message: format!("tip of {name}"),
        top_commit: "0123456789abcdef0123456789abcdef01234567".to_string(),
        details: Details::Local { is_head, has_upstream: false },
    }
}

fn remote(name: &str) -> Entry {
    Entry {
        name: name.to_string(),
        reference: format!("refs/remotes/{name}"),
        top_commit_message: String::new(),
        top_commit: "fedcba9876543210fedcba9876543210fedcba98".to_string(),
        details: Details::Remote { has_tracking: true },
    }
}

fn entries(names: &[&str]) -> Vec<Entry> {
    names.iter().map(|n| local(n, false)).collect()
}

fn shown(list: Vec<Entry>) -> BranchListComponent {
    let mut c = BranchListComponent::new();
    c.open(list);
    c
}

fn indices(c: &BranchListComponent) -> Vec<usize> {
    c.branches_filtered.iter().map(|f| f.index).collect()
}

#[test]
fn filter_keeps_subsequence_matches_ranked() {
    let l = entries(&["alpha", "beta", "alphabet"]);
    let r = filter_entries(&l, "al");
    let idx: Vec<usize> = r.iter().map(|f| f.index).collect();
    assert_eq!(idx.len(), 2);
    assert!(idx.contains(&0) && idx.contains(&2));
    assert!(!idx.contains(&1));
    assert!(r[0].score >= r[1].score);
    if r[0].score == r[1].score {
        assert_eq!(idx, vec![0, 2]);
    }
    for f in &r {
        assert_eq!(f.positions, vec![0, 1]);
    }
}

#[test]
fn filter_empty_query_is_identity() {
    let l = entries(&["c", "a", "b"]);
    let r = filter_entries(&l, "");
    assert_eq!(r.len(), 3);
    for (k, f) in r.iter().enumerate() {
        assert_eq!(f.index, k);
        assert_eq!(f.score, 0);
        assert!(f.positions.is_empty());
    }
    assert!(filter_entries(&Vec::new(), "").is_empty());
}

#[test]
fn filter_is_deterministic() {
    let l = entries(&["feature/login", "fix/logout", "main", "lol"]);
    let a = filter_entries(&l, "lo");
    let b = filter_entries(&l, "lo");
    let a: Vec<_> = a.iter().map(|f| (f.index, f.score, f.positions.clone())).collect();
    let b: Vec<_> = b.iter().map(|f| (f.index, f.score, f.positions.clone())).collect();
    assert_eq!(a, b);
}

#[test]
fn filter_drops_non_matches_and_smart_case() {
    let l = entries(&["Main", "develop", "maintenance"]);
    let r = filter_entries(&l, "main");
    let mut idx: Vec<usize> = r.iter().map(|f| f.index).collect();
    idx.sort();
    assert_eq!(idx, vec![0, 2]);
    let r = filter_entries(&l, "Main");
    let idx: Vec<usize> = r.iter().map(|f| f.index).collect();
    assert_eq!(idx, vec![0]);
    assert!(filter_entries(&l, "xyz").is_empty());
    assert!(filter_entries(&l, "nm").is_empty());
}

#[test]
fn contiguous_match_scores_at_least_scattered() {
    let l = entries(&["axxlxx", "alxxxx"]);
    let r = filter_entries(&l, "al");
    assert_eq!(r.len(), 2);
    let score = |i: usize| r.iter().find(|f| f.index == i).unwrap().score;
    assert!(score(1) >= score(0));
    assert_eq!(r[0].index, 1);
}

#[test]
fn scroll_moves_minimally() {
    let mut s = VerticalScroll::new();
    assert_eq!(s.update(12, 20, 5), 8);
    assert_eq!(s.get_top(), 8);
    assert_eq!(s.update(10, 20, 5), 8);
    assert_eq!(s.update(3, 20, 5), 3);
    assert_eq!(s.update(19, 20, 5), 15);
    assert_eq!(s.update(4, 3, 5), 0);
    assert_eq!(s.update(4, 20, 0), 0);
    let mut t = VerticalScroll { top: 50 };
    assert_eq!(t.update(17, 20, 5), 15);
}

#[test]
fn scroll_keeps_cursor_visible_over_moves_and_resizes() {
    let names: Vec<String> = (0..20).map(|i| format!("branch{i}")).collect();
    let refs: Vec<&str> = names.iter().map(|s| s.as_str()).collect();
    let mut c = shown(entries(&refs));
    c.resize_viewport(5);
    let moves = [
        Intent::MoveDown,
        Intent::PageDown,
        Intent::PageDown,
        Intent::End,
        Intent::MoveUp,
        Intent::PageUp,
        Intent::Home,
        Intent::PageDown,
    ];
    for (k, m) in moves.iter().enumerate() {
        c.event(m.clone()).unwrap();
        if k == 3 {
            c.resize_viewport(3);
        }
        let top = c.scroll.top;
        assert!(top <= c.selection && c.selection < top + c.current_height);
        assert!(top <= 20 - c.current_height);
    }
}

#[test]
fn cursor_moves_scenario() {
    let names: Vec<String> = (0..20).map(|i| format!("b{i}")).collect();
    let refs: Vec<&str> = names.iter().map(|s| s.as_str()).collect();
    let mut c = shown(entries(&refs));
    c.resize_viewport(5);
    for _ in 0..12 {
        c.move_selection(ScrollType::Down);
    }
    assert_eq!(c.selection, 12);
    assert_eq!(c.scroll.top, 8);
    c.move_selection(ScrollType::Up);
    assert_eq!(c.selection, 11);
    assert_eq!(c.scroll.top, 8);
}

#[test]
fn move_target_values() {
    assert_eq!(move_target(ScrollType::Up, 0, 5, 3), 0);
    assert_eq!(move_target(ScrollType::Down, 4, 5, 3), 4);
    assert_eq!(move_target(ScrollType::Down, 2, 5, 3), 3);
    assert_eq!(move_target(ScrollType::PageDown, 1, 10, 3), 4);
    assert_eq!(move_target(ScrollType::PageDown, 8, 10, 3), 9);
    assert_eq!(move_target(ScrollType::PageUp, 2, 10, 3), 0);
    assert_eq!(move_target(ScrollType::PageUp, 2, 10, 0), 2);
    assert_eq!(move_target(ScrollType::PageDown, 2, 10, 0), 2);
    assert_eq!(move_target(ScrollType::Home, 7, 10, 3), 0);
    assert_eq!(move_target(ScrollType::End, 0, 10, 3), 9);
    assert_eq!(move_target(ScrollType::End, 0, 0, 3), 0);
    assert_eq!(move_target(ScrollType::PageDown, usize::MAX - 1, usize::MAX, 5), usize::MAX - 1);
}

#[test]
fn clamp_on_shrink() {
    assert_eq!(clamp_selection(7, 3), 2);
    assert_eq!(clamp_selection(7, 0), 0);
    assert_eq!(clamp_selection(1, 3), 1);
    let mut c = shown(entries(&["alpha", "beta", "gamma", "delta", "alpine"]));
    c.event(Intent::End).unwrap();
    assert_eq!(c.selection, 4);
    c.event(Intent::FuzzyFind).unwrap();
    c.event(Intent::QueryChanged("al".to_string())).unwrap();
    assert_eq!(c.branches_filtered.len(), 2);
    assert_eq!(c.selection, 1);
    c.event(Intent::QueryChanged("zzz".to_string())).unwrap();
    assert_eq!(c.branches_filtered.len(), 0);
    assert_eq!(c.selection, 0);
    assert_eq!(c.current_selection(), None);
}

#[test]
fn refresh_twice_is_stable() {
    let l = entries(&["alpha", "beta", "alphabet", "gamma"]);
    let mut c = shown(l.clone());
    c.event(Intent::FuzzyFind).unwrap();
    c.event(Intent::QueryChanged("a".to_string())).unwrap();
    c.event(Intent::End).unwrap();
    c.update_branches(l.clone());
    let first = (indices(&c), c.selection, c.scroll.top);
    c.update_branches(l);
    assert_eq!((indices(&c), c.selection, c.scroll.top), first);
    assert_eq!(c.query, "a");
}

#[test]
fn hidden_list_ignores_refresh_and_input() {
    let mut c = BranchListComponent::new();
    c.update_branches(entries(&["a"]));
    assert!(c.branches.is_empty());
    let r = c.event(Intent::MoveDown).unwrap();
    assert_eq!(r.state, EventState::NotConsumed);
    assert!(!c.update_git(GitNotification::Push));
    let c = shown(entries(&["a"]));
    assert!(c.update_git(GitNotification::Push));
    assert!(!c.update_git(GitNotification::Other));
}

#[test]
fn remote_list_drops_head_entry() {
    let mut c = BranchListComponent::new();
    c.local = false;
    c.open(vec![remote("origin/main"), remote("origin/HEAD"), remote("origin/dev")]);
    let names: Vec<&str> = c.branches.iter().map(|e| e.name.as_str()).collect();
    assert_eq!(names, vec!["origin/main", "origin/dev"]);
    assert!(c.has_remotes);
    c.update_branches(Vec::new());
    assert!(!c.has_remotes);
}

#[test]
fn actions_name_the_entry_under_the_cursor() {
    let mut c = shown(vec![local("main", true), local("dev", false), local("devel", false)]);
    c.event(Intent::FuzzyFind).unwrap();
    c.event(Intent::QueryChanged("devel".to_string())).unwrap();
    assert_eq!(indices(&c), vec![2]);
    let r = c.event(Intent::MergeBranch).unwrap();
    assert_eq!(r.request, Some(Request::Merge { index: 2, local: true }));
    let r = c.event(Intent::Enter).unwrap();
    assert_eq!(r.request, Some(Request::Checkout { index: 2, local: true }));
    let r = c.event(Intent::RenameBranch).unwrap();
    assert_eq!(r.request, Some(Request::RenameBranch { index: 2 }));
    let r = c.event(Intent::ExitPopup).unwrap();
    assert_eq!(r.request, None);
    assert!(!c.fuzzy_find);
    assert!(c.visible);
    c.event(Intent::FuzzyFind).unwrap();
    c.event(Intent::QueryChanged(String::new())).unwrap();
    c.event(Intent::FuzzyFind).unwrap();
    assert!(c.selection_is_cur_branch());
    let r = c.event(Intent::DeleteBranch).unwrap();
    assert_eq!(r.request, None);
    let r = c.event(Intent::CmdBarToggle).unwrap();
    assert_eq!(r.state, EventState::NotConsumed);
    let r = c.event(Intent::MoveRight).unwrap();
    assert_eq!(r.request, Some(Request::InspectCommit { index: 0 }));
    assert!(!c.visible);
}

#[test]
fn enter_on_empty_view_is_no_selection() {
    let mut c = shown(Vec::new());
    assert_eq!(c.event(Intent::Enter), Err(ListError::NoSelection));
    let r = c.event(Intent::MergeBranch).unwrap();
    assert_eq!(r.request, None);
    assert_eq!(r.state, EventState::Consumed);
}

#[test]
fn tab_toggle_and_remote_checkout() {
    let mut c = shown(entries(&["main"]));
    let r = c.event(Intent::TabToggle).unwrap();
    assert_eq!(r.request, Some(Request::RefreshBranches));
    assert!(!c.local);
    c.update_branches(vec![remote("origin/main")]);
    let r = c.event(Intent::Pull).unwrap();
    assert_eq!(r.request, Some(Request::FetchRemotes));
    let r = c.event(Intent::CreateBranch).unwrap();
    assert_eq!(r.request, None);
    assert!(c.checkout_finished());
    assert!(c.local);
    assert!(c.visible);
    assert!(!c.checkout_finished());
    assert!(!c.visible);
}

#[test]
fn commands_reflect_state() {
    let c = shown(vec![local("main", true)]);
    let mut out = vec![CommandInfo { command: Command::Scroll, enabled: false, available: false }];
    assert_eq!(c.commands(&mut out, false), CommandBlocking::Blocking);
    assert_eq!(out.len(), 13);
    assert_eq!(
        out[3],
        CommandInfo { command: Command::CompareWithHead, enabled: false, available: true }
    );
    assert_eq!(
        out[11],
        CommandInfo { command: Command::FetchRemotes, enabled: false, available: false }
    );
    let hidden = BranchListComponent::new();
    let mut out2 = Vec::new();
    assert_eq!(hidden.commands(&mut out2, false), CommandBlocking::PassingOn);
    assert!(out2.is_empty());
    assert_eq!(hidden.commands(&mut out, true), CommandBlocking::PassingOn);
    assert_eq!(out.len(), 26);
}

#[test]
fn budgets_and_ellipsis() {
    assert_eq!(name_budget(100), 40);
    assert_eq!(message_budget(100), 46);
    assert_eq!(message_budget(10), 0);
    let e: String = ellipsize("abcdef", "abc").into_iter().collect();
    assert_eq!(e, "abc...");
    let e: String = ellipsize("abc", "abc").into_iter().collect();
    assert_eq!(e, "abc");
}

#[test]
fn rows_truncate_and_mark() {
    let long = "feature/a-very-long-branch-name-indeed";
    let mut main = local("main", true);
    main.details = Details::Local { is_head: true, has_upstream: true };
    main.top_commit_message = "x".repeat(80);
    let mut c = shown(vec![main, local(long, false), local("日本語ブランチ名前長い", false)]);
    c.resize_viewport(10);
    let rows = c.get_text(30, 10);
    assert_eq!(rows.len(), 3);
    let name0: String = rows[0].name.iter().collect();
    assert_eq!(name0, format!("{:12} ", "main"));
    let prefix0: String = rows[0].prefix.iter().collect();
    assert_eq!(prefix0, "*\u{2191} ");
    assert!(rows[0].selected && rows[0].is_head);
    let hash0: String = rows[0].hash.iter().collect();
    assert_eq!(hash0, "0123456 ");
    let msg0: String = rows[0].message.iter().collect();
    assert_eq!(msg0, format!("{}...", "x".repeat(1)));
    let name1: String = rows[1].name.iter().collect();
    assert_eq!(name1, "feature/a... ");
    assert!(!rows[1].selected);
    let name2: String = rows[2].name.iter().collect();
    assert_eq!(name2, format!("{:12} ", "日本語ブ..."));
    assert_eq!(rows[1].hits.len(), rows[1].name.len());
}

#[test]
fn rows_highlight_matched_characters() {
    let mut c = shown(entries(&["alpha", "beta"]));
    c.event(Intent::FuzzyFind).unwrap();
    c.event(Intent::QueryChanged("ph".to_string())).unwrap();
    c.resize_viewport(4);
    let rows = c.get_text(50, 4);
    assert_eq!(rows.len(), 1);
    let hit: Vec<usize> = rows[0].hits.iter().enumerate().filter(|(_, h)| **h).map(|(i, _)| i).collect();
    assert_eq!(hit, vec![2, 3]);
    assert!(c.get_text(50, 0).is_empty());
}
