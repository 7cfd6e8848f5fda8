use vstd::prelude::*;

verus! {

/// The screens of the front-end.
#[derive(Debug, Clone, Copy, PartialEq, Eq, Structural, Hash)]
pub enum AppState {
    MainMenu,
    InGame,
    Settings,
}

impl Default for AppState {
    fn default() -> (r: Self)
        ensures
            r == AppState::MainMenu,
    {
        AppState::MainMenu
    }
}

/// One button of the main menu: its caption and the screen it leads to.
pub struct MenuEntry {
    pub label: String,
    pub target: AppState,
}

/// The buttons of the main menu, top to bottom. "Quit" leads back to the main
/// menu itself, which the front-end reads as leaving.
pub fn main_menu_entries() -> (r: Vec<MenuEntry>)
    ensures
        r@.len() == 3,
        r@[0].label@ == "Play"@,
        r@[0].target == AppState::InGame,
        r@[1].label@ == "Settings"@,
        r@[1].target == AppState::Settings,
        r@[2].label@ == "Quit"@,
        r@[2].target == AppState::MainMenu,
{
    let mut r: Vec<MenuEntry> = Vec::new();
    r.push(MenuEntry { label: "Play".to_owned(), target: AppState::InGame });
    r.push(MenuEntry { label: "Settings".to_owned(), target: AppState::Settings });
    r.push(MenuEntry { label: "Quit".to_owned(), target: AppState::MainMenu });
    r
}

/// The screen to switch to when a button leading to `target` is pressed on
/// the main menu: none for the quit button, which leads back to the menu.
pub fn transition_on_press(target: AppState) -> (r: Option<AppState>)
    ensures
        r == if target == AppState::MainMenu {
            None::<AppState>
        } else {
            Some(target)
        },
{
    match target {
        AppState::MainMenu => None,
        other => Some(other),
    }
}

} // verus!
