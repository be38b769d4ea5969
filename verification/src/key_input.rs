pub mod entry;
pub mod information;
pub mod menu;

use crate::action::{Action, ActionView};
use crate::completion_dispenser::CompletionDispenser;
use crate::control::{default_controls, default_controls_map, Control};
use crate::editor::{complete_input, completed, opt_action_view, opt_view, EditorStatus};
use crate::mode::Mode;
use crate::model::{
    change_code, change_from_code, change_name, find_code, find_from_code, find_name,
    lemma_codes_round_trip, order_code, order_name,
    order_from_code, view_option_code, view_option_from_code, Change, Find, Order, Tags,
    ViewOption,
};
use crate::text::{chars_of, push_char, string_of, strictly_sorted};
use vstd::prelude::*;

verus! {

/// The character that stands for a space in a tag.
pub const SPACE_REPLACEMENT_CHAR_FOR_TAGS: char = '-';

/// The prompt of an information.
pub const INFORMATION_SYMBOL: &'static str = "ⓘ";

/// What an edition gives.
pub type KeyInputStatus = EditorStatus;

/// How keys are taken: into an entry, as a menu choice, or to dismiss an information.
#[derive(Clone, Copy, Debug, PartialEq, Eq, Structural)]
pub enum KeyInputMode {
    Entry,
    Menu,
    Information,
}

/// A key as it was pressed: its name, and the character it types if it types one.
#[derive(Debug)]
pub struct Key {
    pub name: Option<String>,
    pub unicode: Option<char>,
}

impl Key {
    pub fn new(name: Option<String>, unicode: Option<char>) -> (r: Key)
        ensures
            r.name == name,
            r.unicode == unicode,
    {
        Key { name, unicode }
    }
}

/// The menus: what each offers and the action its choice launches.
#[derive(Clone, Copy, Debug, PartialEq, Eq, Structural)]
pub enum Menu {
    View,
    Order,
    Change,
    Catalog,
    Find,
    Select,
}

/// Which characters an input takes.
#[derive(Clone, Copy, Debug, PartialEq, Eq, Structural)]
pub enum Accepter {
    /// letters, digits, `-`, `_` and space
    LabelChars,
    /// letters, digits, `-`, `_`, space and comma
    TagChars,
    /// letters, digits, `-` and `_`
    NameChars,
    /// any character
    AnyChar,
    /// the keys of a menu
    MenuKeys(Menu),
}

/// How a taken character changes the input.
#[derive(Clone, Copy, Debug, PartialEq, Eq, Structural)]
pub enum Converter {
    /// appends it, lower case for an upper case ASCII letter, and `-` for ASCII white space
    TagStyle,
    /// appends it, lower case for an upper case ASCII letter
    LowerCase,
    /// appends it as it is
    Append,
    /// keeps the input
    Keep,
    /// replaces the input by the code of the menu option that the key chooses
    MenuCode(Menu),
}

/// The action that an input launches.
#[derive(Clone, Copy, Debug, PartialEq, Eq, Structural)]
pub enum Launcher {
    Label,
    AddTag,
    SelectCategoryAddTarget,
    RemoveTag,
    Rename,
    Find(Find),
    Dismiss,
    MenuChoice(Menu),
}

pub open spec fn is_ascii_alphanumeric(c: char) -> bool {
    ('a' <= c && c <= 'z') || ('A' <= c && c <= 'Z') || ('0' <= c && c <= '9')
}

/// The keys of a menu.
pub open spec fn menu_key(menu: Menu, c: char) -> bool {
    match menu {
        Menu::View => c == '1' || c == '2' || c == '3' || c == '4' || c == '5' || c == 't' || c
            == 'c' || c == 'p' || c == 'D' || c == 'F' || c == 'S' || c == 'f' || c == 'C',
        Menu::Order => c == 'a' || c == 'c' || c == 'd' || c == 'l' || c == 'm' || c == 'n' || c
            == 'p' || c == 'o' || c == 'r' || c == 's' || c == 'v',
        Menu::Change => c == 'a' || c == 'c' || c == 'l' || c == 'n' || c == 'r' || c == 't' || c
            == 'u' || c == 'v',
        Menu::Catalog => c == 'a' || c == 'm' || c == 'r',
        Menu::Find | Menu::Select => c == 'a' || c == 'b' || c == 'c' || c == 'f' || c == 'l' || c
            == 'n' || c == 's',
    }
}

/// Whether an input takes `c`.
pub open spec fn accepts(accepter: Accepter, c: char) -> bool {
    match accepter {
        Accepter::LabelChars => is_ascii_alphanumeric(c) || c == '-' || c == '_' || c == ' ',
        Accepter::TagChars => is_ascii_alphanumeric(c) || c == '-' || c == '_' || c == ' ' || c
            == ',',
        Accepter::NameChars => is_ascii_alphanumeric(c) || c == '-' || c == '_',
        Accepter::AnyChar => true,
        Accepter::MenuKeys(menu) => menu_key(menu, c),
    }
}

/// The view option that a key of the view menu chooses.
pub open spec fn view_option_of_key(c: char) -> ViewOption {
    if c == '1' {
        ViewOption::Single
    } else if c == '2' {
        ViewOption::Grid2x2
    } else if c == '3' {
        ViewOption::Grid3x3
    } else if c == '4' {
        ViewOption::Grid4x4
    } else if c == '5' {
        ViewOption::Grid5x5
    } else if c == 't' {
        ViewOption::Thumbnails
    } else if c == 'c' {
        ViewOption::Covers
    } else if c == 'p' {
        ViewOption::Palette
    } else if c == 'D' {
        ViewOption::FileDate
    } else if c == 'F' {
        ViewOption::FilePath
    } else if c == 'S' {
        ViewOption::FileSize
    } else if c == 'f' {
        ViewOption::FullSize
    } else {
        ViewOption::Catalog
    }
}

/// The order that a key of the order menu chooses.
pub open spec fn order_of_key(c: char) -> Order {
    if c == 'a' {
        Order::Category
    } else if c == 'c' {
        Order::ColorCount
    } else if c == 'o' {
        Order::Cover
    } else if c == 'd' {
        Order::Date
    } else if c == 'l' {
        Order::Label
    } else if c == 'n' {
        Order::Name
    } else if c == 'p' {
        Order::Palette
    } else if c == 'r' {
        Order::Random
    } else if c == 'm' {
        Order::Score
    } else if c == 's' {
        Order::Size
    } else {
        Order::Value
    }
}

/// The change that a key of the change menu chooses.
pub open spec fn change_of_key(c: char) -> Change {
    if c == 't' {
        Change::AddTag
    } else if c == 'a' {
        Change::Catalog
    } else if c == 'c' {
        Change::Category
    } else if c == 'v' {
        Change::Cover
    } else if c == 'l' {
        Change::Label
    } else if c == 'n' {
        Change::Name
    } else if c == 'r' {
        Change::RemoveTag
    } else {
        Change::Unlabel
    }
}

/// The catalog change that a key of the catalog menu chooses.
pub open spec fn catalog_change_of_key(c: char) -> Change {
    if c == 'a' {
        Change::AddCategory
    } else if c == 'm' {
        Change::MoveCategory
    } else {
        Change::RemoveCategory
    }
}

/// The criterion that a key of the find or select menu chooses.
pub open spec fn find_of_key(c: char) -> Find {
    if c == 'a' {
        Find::AllTags
    } else if c == 'b' {
        Find::SubCategory
    } else if c == 'c' {
        Find::Category
    } else if c == 'l' {
        Find::Label
    } else if c == 'n' {
        Find::Name
    } else if c == 'f' {
        Find::FilePath
    } else {
        Find::SomeTags
    }
}

/// The code of the option that a menu key chooses.
pub open spec fn menu_code(menu: Menu, c: char) -> u8 {
    match menu {
        Menu::View => view_option_code(view_option_of_key(c)),
        Menu::Order => order_code(order_of_key(c)),
        Menu::Change => change_code(change_of_key(c)),
        Menu::Catalog => change_code(catalog_change_of_key(c)),
        Menu::Find | Menu::Select => find_code(find_of_key(c)),
    }
}

/// The digit character of `d` (below ten).
pub open spec fn digit_char(d: int) -> char {
    if d == 0 {
        '0'
    } else if d == 1 {
        '1'
    } else if d == 2 {
        '2'
    } else if d == 3 {
        '3'
    } else if d == 4 {
        '4'
    } else if d == 5 {
        '5'
    } else if d == 6 {
        '6'
    } else if d == 7 {
        '7'
    } else if d == 8 {
        '8'
    } else {
        '9'
    }
}

/// The value of a digit character.
pub open spec fn digit_value(c: char) -> Option<u8> {
    if c == '0' {
        Some(0)
    } else if c == '1' {
        Some(1)
    } else if c == '2' {
        Some(2)
    } else if c == '3' {
        Some(3)
    } else if c == '4' {
        Some(4)
    } else if c == '5' {
        Some(5)
    } else if c == '6' {
        Some(6)
    } else if c == '7' {
        Some(7)
    } else if c == '8' {
        Some(8)
    } else if c == '9' {
        Some(9)
    } else {
        None
    }
}

/// The decimal writing of a code below a hundred.
pub open spec fn decimal(n: u8) -> Seq<char> {
    if n < 10 {
        seq![digit_char(n as int)]
    } else {
        seq![digit_char(n as int / 10), digit_char(n as int % 10)]
    }
}

/// The code written with one or two decimal digits.
pub open spec fn parse_code(s: Seq<char>) -> Option<u8> {
    if s.len() == 1 && digit_value(s[0]) is Some {
        digit_value(s[0])
    } else if s.len() == 2 && digit_value(s[0]) is Some && digit_value(s[1]) is Some {
        Some((10 * digit_value(s[0])->0 + digit_value(s[1])->0) as u8)
    } else {
        None
    }
}

/// The input after taking `c`.
pub open spec fn converted(converter: Converter, input: Seq<char>, c: char) -> Seq<char> {
    match converter {
        Converter::TagStyle => if 'A' <= c && c <= 'Z' {
            input.push(lower(c))
        } else if c == ' ' || c == '\t' || c == '\n' || c == '\x0C' || c == '\r' {
            input.push(SPACE_REPLACEMENT_CHAR_FOR_TAGS)
        } else {
            input.push(c)
        },
        Converter::LowerCase => input.push(lower(c)),
        Converter::Append => input.push(c),
        Converter::Keep => input,
        Converter::MenuCode(menu) => decimal(menu_code(menu, c)),
    }
}

/// The lower case of an ASCII upper case letter.
pub open spec fn lower(c: char) -> char {
    if c == 'A' {
        'a'
    } else if c == 'B' {
        'b'
    } else if c == 'C' {
        'c'
    } else if c == 'D' {
        'd'
    } else if c == 'E' {
        'e'
    } else if c == 'F' {
        'f'
    } else if c == 'G' {
        'g'
    } else if c == 'H' {
        'h'
    } else if c == 'I' {
        'i'
    } else if c == 'J' {
        'j'
    } else if c == 'K' {
        'k'
    } else if c == 'L' {
        'l'
    } else if c == 'M' {
        'm'
    } else if c == 'N' {
        'n'
    } else if c == 'O' {
        'o'
    } else if c == 'P' {
        'p'
    } else if c == 'Q' {
        'q'
    } else if c == 'R' {
        'r'
    } else if c == 'S' {
        's'
    } else if c == 'T' {
        't'
    } else if c == 'U' {
        'u'
    } else if c == 'V' {
        'v'
    } else if c == 'W' {
        'w'
    } else if c == 'X' {
        'x'
    } else if c == 'Y' {
        'y'
    } else if c == 'Z' {
        'z'
    } else {
        c
    }
}

/// The action that choosing a change of the change menu launches.
pub open spec fn change_action(c: Change) -> ActionView {
    match c {
        Change::AddTag => ActionView::EnterAddTag,
        Change::Catalog => ActionView::PickCatalogChange,
        Change::Category => ActionView::SelectCategoryForPicture,
        Change::Cover => ActionView::ToggleCover,
        Change::Label => ActionView::EnterLabel,
        Change::Name => ActionView::EnterRename,
        Change::RemoveTag => ActionView::EnterRemoveTag,
        Change::Unlabel => ActionView::Unlabel,
        _ => ActionView::Nothing,
    }
}

/// The action that choosing a change of the catalog menu launches.
pub open spec fn catalog_action(c: Change) -> ActionView {
    match c {
        Change::AddCategory => ActionView::EnterNewCategory,
        Change::MoveCategory => ActionView::SelectCategoryToMove,
        Change::RemoveCategory => ActionView::SelectCategoryToRemove,
        _ => ActionView::Nothing,
    }
}

/// The action that pressing key `c` of a menu launches.
pub open spec fn key_choice(menu: Menu, c: char) -> ActionView {
    match menu {
        Menu::View => ActionView::ApplyViewSetting(view_option_of_key(c)),
        Menu::Order => ActionView::ApplyOrderSetting(order_of_key(c)),
        Menu::Change => change_action(change_of_key(c)),
        Menu::Catalog => catalog_action(catalog_change_of_key(c)),
        Menu::Find => ActionView::EnterFind(find_of_key(c)),
        Menu::Select => ActionView::EnterSelect(find_of_key(c)),
    }
}

/// The action that the choice of a menu launches, given the code of the chosen option.
pub open spec fn menu_action(menu: Menu, code: u8) -> Option<ActionView> {
    match menu {
        Menu::View => match view_option_from_code(code) {
            Some(v) => Some(ActionView::ApplyViewSetting(v)),
            None => None,
        },
        Menu::Order => match order_from_code(code) {
            Some(o) => Some(ActionView::ApplyOrderSetting(o)),
            None => None,
        },
        Menu::Change => match change_from_code(code) {
            Some(c) => Some(change_action(c)),
            None => None,
        },
        Menu::Catalog => match change_from_code(code) {
            Some(c) => Some(catalog_action(c)),
            None => None,
        },
        Menu::Find => match find_from_code(code) {
            Some(f) => Some(ActionView::EnterFind(f)),
            None => None,
        },
        Menu::Select => match find_from_code(code) {
            Some(f) => Some(ActionView::EnterSelect(f)),
            None => None,
        },
    }
}

/// The action that an input launches; `None` where the input names no option of a menu.
pub open spec fn launched(launcher: Launcher, input: Seq<char>) -> Option<ActionView> {
    match launcher {
        Launcher::Label => Some(ActionView::Label(input)),
        Launcher::AddTag => Some(ActionView::AddTag(input)),
        Launcher::SelectCategoryAddTarget => Some(ActionView::SelectCategoryAddTarget(input)),
        Launcher::RemoveTag => Some(ActionView::RemoveTag(input)),
        Launcher::Rename => Some(ActionView::Rename(input)),
        Launcher::Find(f) => Some(ActionView::Find(f, input)),
        Launcher::Dismiss => Some(ActionView::Dismiss),
        Launcher::MenuChoice(menu) => match parse_code(input) {
            Some(code) => menu_action(menu, code),
            None => None,
        },
    }
}


/// The lower case of an ASCII upper case letter; other characters are kept.
pub fn lower_char(c: char) -> (r: char)
    ensures
        r == lower(c),
{
    if c == 'A' {
        return 'a';
    }
    if c == 'B' {
        return 'b';
    }
    if c == 'C' {
        return 'c';
    }
    if c == 'D' {
        return 'd';
    }
    if c == 'E' {
        return 'e';
    }
    if c == 'F' {
        return 'f';
    }
    if c == 'G' {
        return 'g';
    }
    if c == 'H' {
        return 'h';
    }
    if c == 'I' {
        return 'i';
    }
    if c == 'J' {
        return 'j';
    }
    if c == 'K' {
        return 'k';
    }
    if c == 'L' {
        return 'l';
    }
    if c == 'M' {
        return 'm';
    }
    if c == 'N' {
        return 'n';
    }
    if c == 'O' {
        return 'o';
    }
    if c == 'P' {
        return 'p';
    }
    if c == 'Q' {
        return 'q';
    }
    if c == 'R' {
        return 'r';
    }
    if c == 'S' {
        return 's';
    }
    if c == 'T' {
        return 't';
    }
    if c == 'U' {
        return 'u';
    }
    if c == 'V' {
        return 'v';
    }
    if c == 'W' {
        return 'w';
    }
    if c == 'X' {
        return 'x';
    }
    if c == 'Y' {
        return 'y';
    }
    if c == 'Z' {
        return 'z';
    }
    c
}

/// Whether an input takes `c`.
pub fn accept(accepter: Accepter, c: char) -> (r: bool)
    ensures
        r == accepts(accepter, c),
{
    let alnum = ('a' <= c && c <= 'z') || ('A' <= c && c <= 'Z') || ('0' <= c && c <= '9');
    match accepter {
        Accepter::LabelChars => alnum || c == '-' || c == '_' || c == ' ',
        Accepter::TagChars => alnum || c == '-' || c == '_' || c == ' ' || c == ',',
        Accepter::NameChars => alnum || c == '-' || c == '_',
        Accepter::AnyChar => true,
        Accepter::MenuKeys(menu) => match menu {
            Menu::View => c == '1' || c == '2' || c == '3' || c == '4' || c == '5' || c == 't'
                || c == 'c' || c == 'p' || c == 'D' || c == 'F' || c == 'S' || c == 'f' || c
                == 'C',
            Menu::Order => c == 'a' || c == 'c' || c == 'd' || c == 'l' || c == 'm' || c == 'n'
                || c == 'p' || c == 'o' || c == 'r' || c == 's' || c == 'v',
            Menu::Change => c == 'a' || c == 'c' || c == 'l' || c == 'n' || c == 'r' || c == 't'
                || c == 'u' || c == 'v',
            Menu::Catalog => c == 'a' || c == 'm' || c == 'r',
            Menu::Find | Menu::Select => c == 'a' || c == 'b' || c == 'c' || c == 'f' || c == 'l'
                || c == 'n' || c == 's',
        },
    }
}

/// The code of the option that a key of a menu chooses.
pub fn menu_code_of(menu: Menu, c: char) -> (r: u8)
    ensures
        r == menu_code(menu, c),
{
    match menu {
        Menu::View => {
            let v = if c == '1' {
                ViewOption::Single
            } else if c == '2' {
                ViewOption::Grid2x2
            } else if c == '3' {
                ViewOption::Grid3x3
            } else if c == '4' {
                ViewOption::Grid4x4
            } else if c == '5' {
                ViewOption::Grid5x5
            } else if c == 't' {
                ViewOption::Thumbnails
            } else if c == 'c' {
                ViewOption::Covers
            } else if c == 'p' {
                ViewOption::Palette
            } else if c == 'D' {
                ViewOption::FileDate
            } else if c == 'F' {
                ViewOption::FilePath
            } else if c == 'S' {
                ViewOption::FileSize
            } else if c == 'f' {
                ViewOption::FullSize
            } else {
                ViewOption::Catalog
            };
            v.code()
        },
        Menu::Order => {
            let o = if c == 'a' {
                Order::Category
            } else if c == 'c' {
                Order::ColorCount
            } else if c == 'o' {
                Order::Cover
            } else if c == 'd' {
                Order::Date
            } else if c == 'l' {
                Order::Label
            } else if c == 'n' {
                Order::Name
            } else if c == 'p' {
                Order::Palette
            } else if c == 'r' {
                Order::Random
            } else if c == 'm' {
                Order::Score
            } else if c == 's' {
                Order::Size
            } else {
                Order::Value
            };
            o.code()
        },
        Menu::Change => {
            let ch = if c == 't' {
                Change::AddTag
            } else if c == 'a' {
                Change::Catalog
            } else if c == 'c' {
                Change::Category
            } else if c == 'v' {
                Change::Cover
            } else if c == 'l' {
                Change::Label
            } else if c == 'n' {
                Change::Name
            } else if c == 'r' {
                Change::RemoveTag
            } else {
                Change::Unlabel
            };
            ch.code()
        },
        Menu::Catalog => {
            let ch = if c == 'a' {
                Change::AddCategory
            } else if c == 'm' {
                Change::MoveCategory
            } else {
                Change::RemoveCategory
            };
            ch.code()
        },
        Menu::Find | Menu::Select => {
            let f = if c == 'a' {
                Find::AllTags
            } else if c == 'b' {
                Find::SubCategory
            } else if c == 'c' {
                Find::Category
            } else if c == 'l' {
                Find::Label
            } else if c == 'n' {
                Find::Name
            } else if c == 'f' {
                Find::FilePath
            } else {
                Find::SomeTags
            };
            f.code()
        },
    }
}

/// The digit character of `d`.
fn digit(d: u8) -> (r: char)
    requires
        d < 10,
    ensures
        r == digit_char(d as int),
{
    if d == 0 {
        return '0';
    }
    if d == 1 {
        return '1';
    }
    if d == 2 {
        return '2';
    }
    if d == 3 {
        return '3';
    }
    if d == 4 {
        return '4';
    }
    if d == 5 {
        return '5';
    }
    if d == 6 {
        return '6';
    }
    if d == 7 {
        return '7';
    }
    if d == 8 {
        return '8';
    }
    '9'
}

/// The value of a digit character.
fn value_of_digit(c: char) -> (r: Option<u8>)
    ensures
        r == digit_value(c),
{
    if c == '0' {
        return Some(0);
    }
    if c == '1' {
        return Some(1);
    }
    if c == '2' {
        return Some(2);
    }
    if c == '3' {
        return Some(3);
    }
    if c == '4' {
        return Some(4);
    }
    if c == '5' {
        return Some(5);
    }
    if c == '6' {
        return Some(6);
    }
    if c == '7' {
        return Some(7);
    }
    if c == '8' {
        return Some(8);
    }
    if c == '9' {
        return Some(9);
    }
    None
}

/// The decimal writing of a code below a hundred.
pub fn code_string(n: u8) -> (r: String)
    requires
        n < 100,
    ensures
        r@ == decimal(n),
{
    let mut r = String::new();
    if n < 10 {
        push_char(&mut r, digit(n));
    } else {
        push_char(&mut r, digit(n / 10));
        push_char(&mut r, digit(n % 10));
    }
    r
}

/// The code written with one or two decimal digits.
pub fn parse_code_of(s: &str) -> (r: Option<u8>)
    ensures
        r == parse_code(s@),
{
    let cs = chars_of(s);
    if cs.len() == 1 {
        value_of_digit(cs[0])
    } else if cs.len() == 2 {
        match (value_of_digit(cs[0]), value_of_digit(cs[1])) {
            (Some(a), Some(b)) => Some(10 * a + b),
            _ => None,
        }
    } else {
        None
    }
}

/// Codes below a hundred are read back from their decimal writing.
pub proof fn lemma_code_round_trip(n: u8)
    requires
        n < 100,
    ensures
        parse_code(decimal(n)) == Some(n),
{
}

/// The input after taking `c`.
pub fn convert(converter: Converter, input: &str, c: char) -> (r: String)
    ensures
        r@ == converted(converter, input@, c),
{
    match converter {
        Converter::TagStyle => {
            let mut s = string_of(input);
            if 'A' <= c && c <= 'Z' {
                push_char(&mut s, lower_char(c));
            } else if c == ' ' || c == '\t' || c == '\n' || c == '\x0C' || c == '\r' {
                push_char(&mut s, SPACE_REPLACEMENT_CHAR_FOR_TAGS);
            } else {
                push_char(&mut s, c);
            }
            s
        },
        Converter::LowerCase => {
            let mut s = string_of(input);
            push_char(&mut s, lower_char(c));
            s
        },
        Converter::Append => {
            let mut s = string_of(input);
            push_char(&mut s, c);
            s
        },
        Converter::Keep => string_of(input),
        Converter::MenuCode(menu) => code_string(menu_code_of(menu, c)),
    }
}

/// The action that the option with `code` of a menu launches.
fn menu_choice(menu: Menu, code: u8) -> (r: Option<Action>)
    ensures
        opt_action_view(r) == menu_action(menu, code),
{
    match menu {
        Menu::View => match ViewOption::from_code(code) {
            Some(v) => Some(Action::ApplyViewSetting(v)),
            None => None,
        },
        Menu::Order => match Order::from_code(code) {
            Some(o) => Some(Action::ApplyOrderSetting(o)),
            None => None,
        },
        Menu::Change => match Change::from_code(code) {
            Some(c) => Some(
                match c {
                    Change::AddTag => Action::EnterAddTag,
                    Change::Catalog => Action::PickCatalogChange,
                    Change::Category => Action::SelectCategoryForPicture,
                    Change::Cover => Action::ToggleCover,
                    Change::Label => Action::EnterLabel,
                    Change::Name => Action::EnterRename,
                    Change::RemoveTag => Action::EnterRemoveTag,
                    Change::Unlabel => Action::Unlabel,
                    _ => Action::Nothing,
                },
            ),
            None => None,
        },
        Menu::Catalog => match Change::from_code(code) {
            Some(c) => Some(
                match c {
                    Change::AddCategory => Action::EnterNewCategory,
                    Change::MoveCategory => Action::SelectCategoryToMove,
                    Change::RemoveCategory => Action::SelectCategoryToRemove,
                    _ => Action::Nothing,
                },
            ),
            None => None,
        },
        Menu::Find => match Find::from_code(code) {
            Some(f) => Some(Action::EnterFind(f)),
            None => None,
        },
        Menu::Select => match Find::from_code(code) {
            Some(f) => Some(Action::EnterSelect(f)),
            None => None,
        },
    }
}

/// The action that an input launches.
pub fn launch(launcher: Launcher, input: &str) -> (r: Action)
    requires
        launched(launcher, input@) is Some,
    ensures
        Some(r@) == launched(launcher, input@),
{
    match launcher {
        Launcher::Label => Action::Label(string_of(input)),
        Launcher::AddTag => Action::AddTag(string_of(input)),
        Launcher::SelectCategoryAddTarget => Action::SelectCategoryAddTarget(string_of(input)),
        Launcher::RemoveTag => Action::RemoveTag(string_of(input)),
        Launcher::Rename => Action::Rename(string_of(input)),
        Launcher::Find(f) => Action::Find(f, string_of(input)),
        Launcher::Dismiss => Action::Dismiss,
        Launcher::MenuChoice(menu) => {
            let code = parse_code_of(input).unwrap();
            menu_choice(menu, code).unwrap()
        },
    }
}

/// The control of a key name while editing.
pub open spec fn editing_control(name: Seq<char>) -> Option<Control> {
    if default_controls_map().contains_key((name, Mode::Editing)) {
        Some(default_controls_map()[(name, Mode::Editing)])
    } else {
        None
    }
}

/// A key input as contracts speak of it.
pub ghost struct KeyInputView {
    pub prompt: Seq<char>,
    pub completion: Option<Set<Seq<char>>>,
    pub mode: KeyInputMode,
    pub accepter: Accepter,
    pub converter: Converter,
    pub launcher: Launcher,
}

/// A typed character kept or turned into an input, a choice or a dismissal.
pub open spec fn typed_status(v: KeyInputView, input: Seq<char>, c: Option<char>) -> (Seq<char>, Option<Seq<char>>, Option<ActionView>) {
    match v.mode {
        KeyInputMode::Information => (input, None, Some(ActionView::Dismiss)),
        KeyInputMode::Menu => if c is Some && accepts(v.accepter, c->0) {
            (Seq::empty(), None, launched(v.launcher, converted(v.converter, input, c->0)))
        } else {
            (input, None, None)
        },
        KeyInputMode::Entry => if c is Some && accepts(v.accepter, c->0) {
            (converted(v.converter, input, c->0), None, None)
        } else {
            (input, None, None)
        },
    }
}

/// Whether a key can be handled without failing: a launched input must name an action.
pub open spec fn can_handle(v: KeyInputView, input: Seq<char>, name: Option<Seq<char>>, c: Option<char>) -> bool {
    match name {
        None => true,
        Some(n) => match editing_control(n) {
            Some(Control::ConfirmEdition) => launched(v.launcher, input) is Some,
            Some(Control::CancelEdition) | Some(Control::DeleteChar) | Some(Control::Complete) => true,
            _ => v.mode == KeyInputMode::Menu && c is Some && accepts(v.accepter, c->0) ==> launched(
                v.launcher,
                converted(v.converter, input, c->0),
            ) is Some,
            },
    }
}

/// Takes keys into an input: a prompt, the tags that complete it, and the rules of what keys
/// it takes, how, and what it launches.
pub struct KeyInput {
    prompt: String,
    completion_dispenser_opt: Option<CompletionDispenser>,
    key_input_mode: KeyInputMode,
    accepter: Accepter,
    converter: Converter,
    launcher: Launcher,
}

impl View for KeyInput {
    type V = KeyInputView;

    closed spec fn view(&self) -> KeyInputView {
        KeyInputView {
            prompt: self.prompt@,
            completion: match self.completion_dispenser_opt {
                Some(d) => Some(d@),
                None => None,
            },
            mode: self.key_input_mode,
            accepter: self.accepter,
            converter: self.converter,
            launcher: self.launcher,
        }
    }
}

impl KeyInput {
    pub closed spec fn wf(&self) -> bool {
        self.completion_dispenser_opt matches Some(d) ==> d.wf()
    }

    /// A key input with a prompt, the tags that complete it if any, and its rules.
    pub fn new(
        prompt: &str,
        completion_tags_opt: Option<Tags>,
        key_input_mode: KeyInputMode,
        accepter: Accepter,
        converter: Converter,
        launcher: Launcher,
    ) -> (r: Self)
        requires
            completion_tags_opt matches Some(t) ==> t.wf(),
        ensures
            r.wf(),
            r@ == (KeyInputView {
                prompt: prompt@,
                completion: match completion_tags_opt {
                    Some(t) => Some(t@),
                    None => None,
                },
                mode: key_input_mode,
                accepter,
                converter,
                launcher,
            }),
    {
        Self {
            prompt: string_of(prompt),
            completion_dispenser_opt: match completion_tags_opt {
                None => None,
                Some(tags) => Some(CompletionDispenser::new_with(tags)),
            },
            key_input_mode,
            accepter,
            converter,
            launcher,
        }
    }

    pub fn prompt(&self) -> (r: String)
        ensures
            r@ == self@.prompt,
    {
        self.prompt.clone()
    }

    pub fn key_input_mode(&self) -> (r: KeyInputMode)
        ensures
            r == self@.mode,
    {
        self.key_input_mode
    }

    /// The status after pressing `key` on `initial_input`. Escape cancels, Return launches the
    /// input's action, BackSpace deletes the last character, Tab completes the tag being
    /// typed; any other key dismisses an information, chooses in a menu (the input empties
    /// and the choice's action is launched), or is taken into an entry, when the rules take
    /// its character.
    pub fn edit(&self, initial_input: &str, key: &Key) -> (r: KeyInputStatus)
        requires
            self.wf(),
            can_handle(self@, initial_input@, opt_view(key.name), key.unicode),
        ensures
            key.name is None ==> r@ == (initial_input@, None::<Seq<char>>, None::<ActionView>),
            key.name matches Some(name) ==> {
                let c = editing_control(name@);
                &&& c == Some(Control::CancelEdition) ==> r@ == (Seq::<char>::empty(), None::<Seq<char>>, Some(ActionView::Cancel))
                &&& c == Some(Control::ConfirmEdition) ==> r@ == (initial_input@, None::<Seq<char>>, launched(self@.launcher, initial_input@))
                &&& c == Some(Control::DeleteChar) ==> r@ == (
                    if initial_input@.len() == 0 { initial_input@ } else { initial_input@.drop_last() },
                    None::<Seq<char>>,
                    None::<ActionView>,
                )
                &&& c == Some(Control::Complete) ==> completed(self@.completion, initial_input@, r@)
                &&& !(c == Some(Control::CancelEdition) || c == Some(Control::ConfirmEdition) || c == Some(Control::DeleteChar) || c == Some(Control::Complete)) ==>
                    r@ == typed_status(self@, initial_input@, key.unicode)
            },
    {
        match &key.name {
            None => KeyInputStatus::no_change(initial_input),
            Some(key_name) => {
                let controls = default_controls();
                match controls.get(key_name.as_str(), Mode::Editing) {
                    Some(Control::CancelEdition) => {
                        proof {
                            reveal_strlit("");
                        }
                        KeyInputStatus::new("", None, Some(Action::Cancel))
                    },
                    Some(Control::ConfirmEdition) => {
                        let action = launch(self.launcher, initial_input);
                        KeyInputStatus::new(initial_input, None, Some(action))
                    },
                    Some(Control::DeleteChar) => {
                        let input = without_last_char(initial_input);
                        KeyInputStatus::new(input.as_str(), None, None)
                    },
                    Some(Control::Complete) => self.complete(initial_input),
                    _ => match self.key_input_mode {
                        KeyInputMode::Information => KeyInputStatus::new(initial_input, None, Some(Action::Dismiss)),
                        KeyInputMode::Menu => {
                            match key.unicode {
                                Some(ch) => {
                                    if accept(self.accepter, ch) {
                                        let input = convert(self.converter, initial_input, ch);
                                        let action = launch(self.launcher, input.as_str());
                                        proof {
                                            reveal_strlit("");
                                        }
                                        KeyInputStatus::new("", None, Some(action))
                                    } else {
                                        KeyInputStatus::no_change(initial_input)
                                    }
                                },
                                None => KeyInputStatus::no_change(initial_input),
                            }
                        },
                        KeyInputMode::Entry => {
                            match key.unicode {
                                Some(ch) => {
                                    if accept(self.accepter, ch) {
                                        let input = convert(self.converter, initial_input, ch);
                                        KeyInputStatus::new(input.as_str(), None, None)
                                    } else {
                                        KeyInputStatus::no_change(initial_input)
                                    }
                                },
                                None => KeyInputStatus::no_change(initial_input),
                            }
                        },
                    },
                }
            },
        }
    }

    /// The status after asking to complete the tag being typed.
    fn complete(&self, initial_input: &str) -> (r: KeyInputStatus)
        requires
            self.wf(),
        ensures
            completed(self@.completion, initial_input@, r@),
    {
        complete_input(&self.completion_dispenser_opt, initial_input)
    }
}

/// In every menu, a key of the menu launches the option that the key names, whatever the
/// input held: the code that the key is turned into reads back as that option.
pub proof fn lemma_menu_key_launches_its_option(menu: Menu, input: Seq<char>, c: char)
    requires
        menu_key(menu, c),
    ensures
        launched(Launcher::MenuChoice(menu), converted(Converter::MenuCode(menu), input, c))
            == Some(key_choice(menu, c)),
{
    lemma_code_round_trip(menu_code(menu, c));
    lemma_codes_round_trip(order_of_key(c), view_option_of_key(c), find_of_key(c), change_of_key(c));
    lemma_codes_round_trip(order_of_key(c), view_option_of_key(c), find_of_key(c), catalog_change_of_key(c));
}

/// The lower case initial of a name.
pub open spec fn initial(name: Seq<char>) -> char {
    lower(name[0])
}

/// In the find and select menus a key is the initial of the criterion it chooses, and
/// pressing it asks for that criterion; `b` stands apart, choosing the sub category, since
/// `s` chooses some tags.
pub proof fn lemma_find_keys_are_initials(input: Seq<char>, c: char)
    requires
        menu_key(Menu::Find, c),
    ensures
        launched(Launcher::MenuChoice(Menu::Find), converted(Converter::MenuCode(Menu::Find), input, c))
            == Some(ActionView::EnterFind(find_of_key(c))),
        launched(
            Launcher::MenuChoice(Menu::Select),
            converted(Converter::MenuCode(Menu::Select), input, c),
        ) == Some(ActionView::EnterSelect(find_of_key(c))),
        c != 'b' ==> initial(find_name(find_of_key(c))) == c,
        c == 'b' ==> find_of_key(c) == Find::SubCategory,
{
    lemma_menu_key_launches_its_option(Menu::Find, input, c);
    lemma_menu_key_launches_its_option(Menu::Select, input, c);
    reveal_strlit("AllTags");
    reveal_strlit("SubCategory");
    reveal_strlit("Category");
    reveal_strlit("Label");
    reveal_strlit("Name");
    reveal_strlit("FilePath");
    reveal_strlit("SomeTags");
}

/// In the order menu a key is the initial of the order it chooses, but for `a` (category,
/// as `c` chooses the color count), `o` (cover) and `m` (score, as `s` chooses the size).
pub proof fn lemma_order_keys_are_initials(input: Seq<char>, c: char)
    requires
        menu_key(Menu::Order, c),
    ensures
        launched(Launcher::MenuChoice(Menu::Order), converted(Converter::MenuCode(Menu::Order), input, c))
            == Some(ActionView::ApplyOrderSetting(order_of_key(c))),
        c != 'a' && c != 'o' && c != 'm' ==> initial(order_name(order_of_key(c))) == c,
        c == 'a' ==> order_of_key(c) == Order::Category,
        c == 'o' ==> order_of_key(c) == Order::Cover,
        c == 'm' ==> order_of_key(c) == Order::Score,
{
    lemma_menu_key_launches_its_option(Menu::Order, input, c);
    reveal_strlit("Category");
    reveal_strlit("ColorCount");
    reveal_strlit("Cover");
    reveal_strlit("Date");
    reveal_strlit("Label");
    reveal_strlit("Name");
    reveal_strlit("Palette");
    reveal_strlit("Random");
    reveal_strlit("Score");
    reveal_strlit("Size");
    reveal_strlit("Value");
}

/// In the change menu a key is the initial of the change it chooses, but for `t` (add a
/// tag), `a` (the catalog) and `v` (the cover); in the catalog menu every key is the
/// initial of the catalog change it chooses.
pub proof fn lemma_change_keys_are_initials(c: char)
    ensures
        menu_key(Menu::Change, c) && c != 't' && c != 'a' && c != 'v' ==> initial(
            change_name(change_of_key(c)),
        ) == c,
        c == 't' ==> change_of_key(c) == Change::AddTag,
        c == 'a' ==> change_of_key(c) == Change::Catalog,
        c == 'v' ==> change_of_key(c) == Change::Cover,
        menu_key(Menu::Catalog, c) ==> initial(change_name(catalog_change_of_key(c))) == c,
{
    reveal_strlit("AddTag");
    reveal_strlit("Catalog");
    reveal_strlit("Category");
    reveal_strlit("Cover");
    reveal_strlit("Label");
    reveal_strlit("Name");
    reveal_strlit("RemoveTag");
    reveal_strlit("Unlabel");
    reveal_strlit("AddCategory");
    reveal_strlit("MoveCategory");
    reveal_strlit("RemoveCategory");
}

/// In the view menu the digits 1 to 5 choose the grids of as many pictures a row, in
/// order: one picture, then two to five a row.
pub proof fn lemma_view_digits_choose_grids_in_order(c: char)
    requires
        '1' <= c <= '5',
    ensures
        menu_key(Menu::View, c),
        view_option_code(view_option_of_key(c)) + 1 == digit_value(c)->0,
{
}

/// A strictly sorted sequence holds no element twice.
pub proof fn lemma_sorted_no_duplicates(list: Seq<Seq<char>>)
    requires
        strictly_sorted(list),
    ensures
        list.no_duplicates(),
{
    assert forall|i: int, j: int| 0 <= i < list.len() && 0 <= j < list.len() && i != j implies list[i] != list[j] by {
        if i < j {
            crate::text::lemma_lex_irreflexive(list[i]);
        } else {
            crate::text::lemma_lex_irreflexive(list[j]);
        }
    }
}

/// The input without its last character, if it has one.
pub fn without_last_char(s: &str) -> (r: String)
    ensures
        r@ == if s@.len() == 0 { s@ } else { s@.drop_last() },
{
    let cs = chars_of(s);
    let mut r = String::new();
    if cs.len() == 0 {
        return string_of(s);
    }
    let mut i: usize = 0;
    while i + 1 < cs.len()
        invariant
            cs@ == s@,
            cs.len() > 0,
            i + 1 <= cs.len(),
            r@ == s@.take(i as int),
        decreases cs.len() - i,
    {
        push_char(&mut r, cs[i]);
        proof {
            assert(s@.take(i + 1) =~= s@.take(i as int).push(cs@[i as int]));
        }
        i = i + 1;
    }
    proof {
        assert(s@.take(i as int) =~= s@.drop_last());
    }
    r
}

} // verus!
