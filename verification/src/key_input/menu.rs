use crate::key_input::{Accepter, Converter, KeyInput, KeyInputMode, KeyInputView, Launcher, Menu};
use vstd::prelude::*;

verus! {

/// The menu of view settings.
pub fn view_menu() -> (r: KeyInput)
    ensures
        r.wf(),
        r@ == (KeyInputView {
            prompt: "View: 1x1 2x2 3x3 4x4 5x5 thumbs full covers palette Date Filepath Size Categories"@,
            completion: None,
            mode: KeyInputMode::Menu,
            accepter: Accepter::MenuKeys(Menu::View),
            converter: Converter::MenuCode(Menu::View),
            launcher: Launcher::MenuChoice(Menu::View),
        }),
{
    KeyInput::new(
        "View: 1x1 2x2 3x3 4x4 5x5 thumbs full covers palette Date Filepath Size Categories",
        None,
        KeyInputMode::Menu,
        Accepter::MenuKeys(Menu::View),
        Converter::MenuCode(Menu::View),
        Launcher::MenuChoice(Menu::View),
    )
}

/// The menu of sorting criteria.
pub fn order_menu() -> (r: KeyInput)
    ensures
        r.wf(),
        r@ == (KeyInputView {
            prompt: "Enter a sorting criteria: c(A)tegory (C)olors (D)ate (L)abel (M)ost views (N)ame (P)alette c(O)ver (R)andom (S)ize (V)alue "@,
            completion: None,
            mode: KeyInputMode::Menu,
            accepter: Accepter::MenuKeys(Menu::Order),
            converter: Converter::MenuCode(Menu::Order),
            launcher: Launcher::MenuChoice(Menu::Order),
        }),
{
    KeyInput::new(
        "Enter a sorting criteria: c(A)tegory (C)olors (D)ate (L)abel (M)ost views (N)ame (P)alette c(O)ver (R)andom (S)ize (V)alue ",
        None,
        KeyInputMode::Menu,
        Accepter::MenuKeys(Menu::Order),
        Converter::MenuCode(Menu::Order),
        Launcher::MenuChoice(Menu::Order),
    )
}

/// The menu of changes to the selected pictures.
pub fn change_menu() -> (r: KeyInput)
    ensures
        r.wf(),
        r@ == (KeyInputView {
            prompt: "Enter what to change: c(A)talog (C)ategory (L)abel (N)ame (R)emove (T)ag (U)nlabel co(V)er on"@,
            completion: None,
            mode: KeyInputMode::Menu,
            accepter: Accepter::MenuKeys(Menu::Change),
            converter: Converter::MenuCode(Menu::Change),
            launcher: Launcher::MenuChoice(Menu::Change),
        }),
{
    KeyInput::new(
        "Enter what to change: c(A)talog (C)ategory (L)abel (N)ame (R)emove (T)ag (U)nlabel co(V)er on",
        None,
        KeyInputMode::Menu,
        Accepter::MenuKeys(Menu::Change),
        Converter::MenuCode(Menu::Change),
        Launcher::MenuChoice(Menu::Change),
    )
}

/// The menu of changes to the catalog.
pub fn catalog_menu() -> (r: KeyInput)
    ensures
        r.wf(),
        r@ == (KeyInputView {
            prompt: "Enter what to change: (A)dd category (M)ove category (R)emove category"@,
            completion: None,
            mode: KeyInputMode::Menu,
            accepter: Accepter::MenuKeys(Menu::Catalog),
            converter: Converter::MenuCode(Menu::Catalog),
            launcher: Launcher::MenuChoice(Menu::Catalog),
        }),
{
    KeyInput::new(
        "Enter what to change: (A)dd category (M)ove category (R)emove category",
        None,
        KeyInputMode::Menu,
        Accepter::MenuKeys(Menu::Catalog),
        Converter::MenuCode(Menu::Catalog),
        Launcher::MenuChoice(Menu::Catalog),
    )
}

/// The menu of criteria for finding.
pub fn find_menu() -> (r: KeyInput)
    ensures
        r.wf(),
        r@ == (KeyInputView {
            prompt: "Find pictures on  C)ategory (B)elongs (L)abel (N)ame (F)ile Path (S)ome Tags (A)ll tags "@,
            completion: None,
            mode: KeyInputMode::Menu,
            accepter: Accepter::MenuKeys(Menu::Find),
            converter: Converter::MenuCode(Menu::Find),
            launcher: Launcher::MenuChoice(Menu::Find),
        }),
{
    KeyInput::new(
        "Find pictures on  C)ategory (B)elongs (L)abel (N)ame (F)ile Path (S)ome Tags (A)ll tags ",
        None,
        KeyInputMode::Menu,
        Accepter::MenuKeys(Menu::Find),
        Converter::MenuCode(Menu::Find),
        Launcher::MenuChoice(Menu::Find),
    )
}

/// The menu of criteria for selecting.
pub fn select_menu() -> (r: KeyInput)
    ensures
        r.wf(),
        r@ == (KeyInputView {
            prompt: "Select pictures on  C)ategory (B)elongs (L)abel (N)ame (F)ile Path (S)ome Tags (A)ll tags "@,
            completion: None,
            mode: KeyInputMode::Menu,
            accepter: Accepter::MenuKeys(Menu::Select),
            converter: Converter::MenuCode(Menu::Select),
            launcher: Launcher::MenuChoice(Menu::Select),
        }),
{
    KeyInput::new(
        "Select pictures on  C)ategory (B)elongs (L)abel (N)ame (F)ile Path (S)ome Tags (A)ll tags ",
        None,
        KeyInputMode::Menu,
        Accepter::MenuKeys(Menu::Select),
        Converter::MenuCode(Menu::Select),
        Launcher::MenuChoice(Menu::Select),
    )
}

} // verus!
