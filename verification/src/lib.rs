//! Decision engine for cleaning up git worktrees and branches.
//!
//! The crate decides; it does not run git, prompt or print. A front end
//! gathers what exists (module `listing` reads what git printed), asks the
//! crate what to do (module `clean` returns a plan), shows what the plan says
//! (modules `output`, `select`, `menu`) and carries out deletions one by one
//! under the direction of a batch (module `batch`).
//!
//! Names are filtered by regular expression (`pattern`), protected names are
//! set aside (`protection`), and the scope of a branch operation is read off
//! the pattern (`scope`, `target`). Worktrees live at paths derived from the
//! repository root (`worktree`).

pub mod batch;
pub mod clean;
pub mod error;
pub mod listing;
pub mod menu;
pub mod output;
pub mod pattern;
pub mod protection;
pub mod scope;
pub mod select;
pub mod target;
pub mod text;
pub mod worktree;
