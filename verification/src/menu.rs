//! The menus shown where the program is started without a command.
//!
//! The front end shows a menu and reports which entry was chosen; this module
//! says what follows. The main menu leads to the two submenus or out; from a
//! submenu every answer but a choice of one of its commands leads back to the
//! main menu.

use crate::error::CleanError;
use vstd::prelude::*;

verus! {

/// One of the menus.
#[derive(Debug, Clone, Copy, PartialEq, Eq, Structural)]
pub enum Menu {
    /// Add, clean or exit.
    Main,
    /// What to add.
    Add,
    /// What to clean.
    Clean,
}

/// What follows an answer to a menu.
#[derive(Debug, Clone, Copy, PartialEq, Eq, Structural)]
pub enum MenuStep {
    /// Show this menu next.
    Show { menu: Menu },
    /// Ask for a worktree name, add that worktree and finish.
    AddWorktree,
    /// Clean worktrees picked by hand, with no flag set, and finish.
    CleanWorktrees,
    /// Clean branches picked by hand, with no flag set, and finish.
    CleanBranches,
    /// Finish.
    Exit,
}

/// What follows when `choice` is the answer to `menu`: the index of the
/// chosen entry, or nothing where the operator left the menu.
pub open spec fn menu_step(menu: Menu, choice: Option<usize>) -> MenuStep {
    match menu {
        Menu::Main => if choice == Some(0usize) {
            MenuStep::Show { menu: Menu::Add }
        } else if choice == Some(1usize) {
            MenuStep::Show { menu: Menu::Clean }
        } else {
            MenuStep::Exit
        },
        Menu::Add => if choice == Some(0usize) {
            MenuStep::AddWorktree
        } else {
            MenuStep::Show { menu: Menu::Main }
        },
        Menu::Clean => if choice == Some(0usize) {
            MenuStep::CleanWorktrees
        } else if choice == Some(1usize) {
            MenuStep::CleanBranches
        } else {
            MenuStep::Show { menu: Menu::Main }
        },
    }
}

/// The question that heads a menu.
pub open spec fn menu_prompt_text(menu: Menu) -> Seq<char> {
    match menu {
        Menu::Main => "What would you like to do?"@,
        Menu::Add => "Add what?"@,
        Menu::Clean => "Clean what?"@,
    }
}

/// The entries of a menu. The last entry of each is the way out or back.
pub open spec fn menu_entries(menu: Menu) -> Seq<Seq<char>> {
    match menu {
        Menu::Main => seq!["Add"@, "Clean"@, "Exit"@],
        Menu::Add => seq!["Worktree"@, "Back"@],
        Menu::Clean => seq!["Worktrees"@, "Branches"@, "Back"@],
    }
}

/// Enters the menus: they begin with the main menu, and take a terminal.
pub fn interactive_menu(terminal: bool) -> (r: Result<Menu, CleanError>)
    ensures
        match r {
            Ok(menu) => terminal && menu == Menu::Main,
            Err(e) => !terminal && e == CleanError::RequiresTerminal,
        },
{
    if terminal {
        Ok(Menu::Main)
    } else {
        Err(CleanError::RequiresTerminal)
    }
}

/// Decides what follows an answer to `menu`.
pub fn menu_choice(menu: Menu, choice: Option<usize>) -> (step: MenuStep)
    ensures
        step == menu_step(menu, choice),
{
    match menu {
        Menu::Main => match choice {
            Some(0) => MenuStep::Show { menu: Menu::Add },
            Some(1) => MenuStep::Show { menu: Menu::Clean },
            _ => MenuStep::Exit,
        },
        Menu::Add => match choice {
            Some(0) => MenuStep::AddWorktree,
            _ => MenuStep::Show { menu: Menu::Main },
        },
        Menu::Clean => match choice {
            Some(0) => MenuStep::CleanWorktrees,
            Some(1) => MenuStep::CleanBranches,
            _ => MenuStep::Show { menu: Menu::Main },
        },
    }
}

/// The question that heads `menu`.
pub fn menu_prompt(menu: Menu) -> (out: &'static str)
    ensures
        out@ == menu_prompt_text(menu),
{
    match menu {
        Menu::Main => "What would you like to do?",
        Menu::Add => "Add what?",
        Menu::Clean => "Clean what?",
    }
}

/// The entries of `menu`, in the order in which they are counted.
pub fn menu_options(menu: Menu) -> (out: Vec<String>)
    ensures
        out.deep_view() == menu_entries(menu),
{
    let mut out: Vec<String> = Vec::new();
    match menu {
        Menu::Main => {
            out.push("Add".to_owned());
            out.push("Clean".to_owned());
            out.push("Exit".to_owned());
        },
        Menu::Add => {
            out.push("Worktree".to_owned());
            out.push("Back".to_owned());
        },
        Menu::Clean => {
            out.push("Worktrees".to_owned());
            out.push("Branches".to_owned());
            out.push("Back".to_owned());
        },
    }
    assert(out.deep_view() =~= menu_entries(menu));
    out
}

/// The menus end: from the main menu every answer leads to a submenu or out,
/// and from a submenu every answer leads to a command or back to the main
/// menu, never to a submenu.
pub proof fn lemma_menu_shape(menu: Menu, choice: Option<usize>)
    ensures
        menu == Menu::Main ==> menu_step(menu, choice) != (MenuStep::Show { menu: Menu::Main }),
        menu != Menu::Main ==> (menu_step(menu, choice) matches MenuStep::Show { menu: next }
            ==> next == Menu::Main),
        choice.is_none() ==> (menu_step(menu, choice) is Exit || menu_step(menu, choice) is Show),
{
}

} // verus!
