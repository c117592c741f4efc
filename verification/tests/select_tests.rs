use killallgit::error::CleanError;
use killallgit::menu::{
    interactive_menu, menu_choice, menu_options, menu_prompt, Menu, MenuStep,
};
use killallgit::output::{Line, LineKind};
use killallgit::select::{
    confirm_deletion, confirm_options, confirm_prompt, interactive_multi_select,
    operation_cancelled, selection_notice, Selection,
};

fn names(items: &[&str]) -> Vec<String> {
    items.iter().map(|s| s.to_string()).collect()
}

#[test]
fn selection_of_some_items() {
    let items = names(&["a", "b", "c", "d"]);
    assert_eq!(
        interactive_multi_select(&items, Some(vec![1, 3])),
        Selection::Confirmed { items: names(&["b", "d"]) }
    );
    assert_eq!(
        interactive_multi_select(&items, Some(vec![2, 0, 2])),
        Selection::Confirmed { items: names(&["c", "a", "c"]) }
    );
}

#[test]
fn empty_selection_differs_from_cancelling() {
    let items = names(&["a", "b"]);
    let none = interactive_multi_select(&items, Some(Vec::new()));
    let cancelled = interactive_multi_select(&items, None);
    assert_eq!(none, Selection::EmptySelection);
    assert_eq!(cancelled, Selection::Cancelled);
    assert_eq!(
        selection_notice(&none, "branches"),
        Some(Line { kind: LineKind::Notice, text: "No branches selected.".to_string() })
    );
    assert_eq!(
        selection_notice(&cancelled, "branches"),
        Some(Line { kind: LineKind::Notice, text: "Selection cancelled.".to_string() })
    );
    assert_eq!(
        selection_notice(&Selection::Confirmed { items: names(&["a"]) }, "worktrees"),
        None
    );
    assert_eq!(
        selection_notice(&none, "worktrees"),
        Some(Line { kind: LineKind::Notice, text: "No worktrees selected.".to_string() })
    );
}

#[test]
fn confirmation_defaults_to_cancel() {
    assert!(!confirm_deletion(None));
    assert!(!confirm_deletion(Some(0)));
    assert!(confirm_deletion(Some(1)));
    assert!(!confirm_deletion(Some(2)));
    assert!(!confirm_deletion(Some(usize::MAX)));
    assert_eq!(confirm_options(), vec!["No, cancel", "Yes, delete them!"]);
    assert_eq!(
        operation_cancelled(),
        Line { kind: LineKind::Notice, text: "Operation cancelled.".to_string() }
    );
}

#[test]
fn confirmation_question() {
    assert_eq!(confirm_prompt("branches", 2, "origin"), "Delete these 2 branches from origin?");
    assert_eq!(confirm_prompt("worktrees", 15, "local"), "Delete these 15 worktrees from local?");
}

#[test]
fn menus_need_a_terminal() {
    assert_eq!(interactive_menu(true), Ok(Menu::Main));
    let err = interactive_menu(false);
    assert_eq!(err, Err(CleanError::RequiresTerminal));
    assert_eq!(
        CleanError::RequiresTerminal.message(),
        "Interactive mode requires a terminal. Use command-line arguments instead.\nRun 'killallgit --help' for available commands."
    );
}

#[test]
fn main_menu_transitions() {
    assert_eq!(menu_choice(Menu::Main, Some(0)), MenuStep::Show { menu: Menu::Add });
    assert_eq!(menu_choice(Menu::Main, Some(1)), MenuStep::Show { menu: Menu::Clean });
    assert_eq!(menu_choice(Menu::Main, Some(2)), MenuStep::Exit);
    assert_eq!(menu_choice(Menu::Main, Some(7)), MenuStep::Exit);
    assert_eq!(menu_choice(Menu::Main, None), MenuStep::Exit);
}

#[test]
fn submenu_transitions() {
    assert_eq!(menu_choice(Menu::Add, Some(0)), MenuStep::AddWorktree);
    assert_eq!(menu_choice(Menu::Add, Some(1)), MenuStep::Show { menu: Menu::Main });
    assert_eq!(menu_choice(Menu::Add, None), MenuStep::Show { menu: Menu::Main });
    assert_eq!(menu_choice(Menu::Clean, Some(0)), MenuStep::CleanWorktrees);
    assert_eq!(menu_choice(Menu::Clean, Some(1)), MenuStep::CleanBranches);
    assert_eq!(menu_choice(Menu::Clean, Some(2)), MenuStep::Show { menu: Menu::Main });
    assert_eq!(menu_choice(Menu::Clean, None), MenuStep::Show { menu: Menu::Main });
}

#[test]
fn menu_texts() {
    assert_eq!(menu_prompt(Menu::Main), "What would you like to do?");
    assert_eq!(menu_prompt(Menu::Add), "Add what?");
    assert_eq!(menu_prompt(Menu::Clean), "Clean what?");
    assert_eq!(menu_options(Menu::Main), vec!["Add", "Clean", "Exit"]);
    assert_eq!(menu_options(Menu::Add), vec!["Worktree", "Back"]);
    assert_eq!(menu_options(Menu::Clean), vec!["Worktrees", "Branches", "Back"]);
}

#[test]
fn error_messages() {
    assert_eq!(CleanError::NotARepository.message(), "Not in a git repository");
    assert_eq!(CleanError::NoRepositoryName.message(), "Could not determine repository name");
    assert_eq!(CleanError::InvalidPattern("bad".to_string()).message(), "bad");
    assert_eq!(CleanError::ListingFailure("Failed to list worktrees".to_string()).message(), "Failed to list worktrees");
}
