use crate::entry_kind::EntryKind;
use crate::key_input::{
    accepts, catalog_change_of_key, change_of_key, find_of_key, lower, lower_char, menu_key,
    order_of_key, Accepter, Menu,
};
use crate::model::{change_name, find_name, order_name, Order};
use crate::text::{push_char, string_of};
use vstd::prelude::*;

verus! {

/// Entries that hold a list of words: a space there separates two words by a comma.
pub open spec fn is_list_kind(kind: EntryKind) -> bool {
    ||| kind is FindAllTags
    ||| kind is FindSomeTags
    ||| kind is FindSubCategory
    ||| kind is SelectAllTags
    ||| kind is SelectSomeTags
    ||| kind is SelectSubCategory
}

/// Entries where a key chooses an option, whose name then replaces the entry.
pub open spec fn is_menu_kind(kind: EntryKind) -> bool {
    ||| kind is Order
    ||| kind is Find
    ||| kind is Select
    ||| kind is Change
    ||| kind is View
    ||| kind is Catalog
}

/// The name of the criterion that a key chooses in a find or select entry.
pub open spec fn criterion_text(c: char) -> Option<Seq<char>> {
    if c == 'a' {
        Some("AllTags"@)
    } else if c == 'b' {
        Some("SubCategory"@)
    } else if c == 'c' {
        Some("Category"@)
    } else if c == 'l' {
        Some("Label"@)
    } else if c == 'n' {
        Some("Name"@)
    } else if c == 's' {
        Some("SomeTags"@)
    } else {
        None
    }
}

/// The name of the change that a key chooses in a change entry.
pub open spec fn change_text(c: char) -> Option<Seq<char>> {
    if c == 'a' {
        Some("Catalog"@)
    } else if c == 'c' {
        Some("Category"@)
    } else if c == 'l' {
        Some("Label"@)
    } else if c == 'n' {
        Some("Name"@)
    } else if c == 'r' {
        Some("RemoveTag"@)
    } else if c == 't' {
        Some("AddTag"@)
    } else if c == 'u' {
        Some("Unlabel"@)
    } else if c == 'v' {
        Some("Cover"@)
    } else {
        None
    }
}

/// The name of the view setting that a key chooses in a view entry.
pub open spec fn view_text(c: char) -> Option<Seq<char>> {
    if c == '1' {
        Some("1"@)
    } else if c == '2' {
        Some("2"@)
    } else if c == '3' {
        Some("3"@)
    } else if c == '4' {
        Some("4"@)
    } else if c == '5' {
        Some("5"@)
    } else if c == 't' {
        Some("Thumbs"@)
    } else if c == 'c' {
        Some("Covers"@)
    } else if c == 'p' {
        Some("Path"@)
    } else if c == 'd' {
        Some("Date"@)
    } else if c == 's' {
        Some("Size"@)
    } else {
        None
    }
}

/// The name of the catalog change that a key chooses in a catalog entry.
pub open spec fn catalog_text(c: char) -> Option<Seq<char>> {
    if c == 'a' {
        Some("AddCategory"@)
    } else if c == 'm' {
        Some("MoveCategory"@)
    } else if c == 'r' {
        Some("RemoveCategory"@)
    } else {
        None
    }
}

/// The option that a key chooses in an entry of a menu kind; `None` where it chooses none.
pub open spec fn menu_entry_text(kind: EntryKind, c: char) -> Option<Seq<char>> {
    match kind {
        EntryKind::Order => if menu_key(Menu::Order, c) {
            Some(order_name(order_of_key(c)))
        } else {
            None
        },
        EntryKind::Find | EntryKind::Select => criterion_text(c),
        EntryKind::Change => change_text(c),
        EntryKind::View => view_text(c),
        EntryKind::Catalog => catalog_text(c),
        _ => None,
    }
}

/// Whether an entry of `kind` can take `c`: a space always; in an entry of a menu kind, only
/// a key that chooses an option.
pub open spec fn convertible(kind: EntryKind, c: char) -> bool {
    c == ' ' || !is_menu_kind(kind) || menu_entry_text(kind, c) is Some
}

/// The entry after taking `c`: a space separates words (a comma in a list, a dash elsewhere),
/// a key of a menu entry replaces the entry by the option it chooses, and any other
/// character is appended, an upper case ASCII letter in lower case.
pub open spec fn converted_char(kind: EntryKind, entry: Seq<char>, c: char) -> Seq<char> {
    if c == ' ' {
        if is_list_kind(kind) {
            entry.push(',')
        } else {
            entry.push('-')
        }
    } else if is_menu_kind(kind) {
        menu_entry_text(kind, c)->0
    } else {
        entry.push(lower(c))
    }
}

/// Whether an entry of `kind` takes `c`: in an entry of a menu kind, a key that chooses an
/// option; elsewhere an ASCII letter or digit, a dash, an underscore or a space.
pub open spec fn valid_entry_char_spec(kind: EntryKind, c: char) -> bool {
    if is_menu_kind(kind) {
        menu_entry_text(kind, c) is Some
    } else {
        accepts(Accepter::LabelChars, c)
    }
}

/// An entry of a menu kind takes the keys of the matching menu (the find and select entries
/// all but `f`, the file path), and replaces its text by the name of the option that the
/// same key chooses in that menu: a criterion, a change, a catalog change or an order.
pub proof fn lemma_entry_keys_name_the_menu_choice(entry: Seq<char>, c: char)
    ensures
        valid_entry_char_spec(EntryKind::Find, c) == (menu_key(Menu::Find, c) && c != 'f'),
        valid_entry_char_spec(EntryKind::Select, c) == (menu_key(Menu::Select, c) && c != 'f'),
        valid_entry_char_spec(EntryKind::Change, c) == menu_key(Menu::Change, c),
        valid_entry_char_spec(EntryKind::Catalog, c) == menu_key(Menu::Catalog, c),
        valid_entry_char_spec(EntryKind::Order, c) == menu_key(Menu::Order, c),
        menu_key(Menu::Find, c) && c != 'f' ==> converted_char(EntryKind::Find, entry, c)
            == find_name(find_of_key(c)) && converted_char(EntryKind::Select, entry, c) == find_name(
            find_of_key(c),
        ),
        menu_key(Menu::Change, c) ==> converted_char(EntryKind::Change, entry, c) == change_name(
            change_of_key(c),
        ),
        menu_key(Menu::Catalog, c) ==> converted_char(EntryKind::Catalog, entry, c) == change_name(
            catalog_change_of_key(c),
        ),
        menu_key(Menu::Order, c) ==> converted_char(EntryKind::Order, entry, c) == order_name(
            order_of_key(c),
        ),
{
}

/// The option that a key chooses in an entry of a menu kind, if any.
fn menu_entry_string(kind: &EntryKind, c: char) -> (r: Option<String>)
    ensures
        match r {
            Some(s) => menu_entry_text(*kind, c) == Some(s@),
            None => menu_entry_text(*kind, c) is None,
        },
{
    match kind {
        EntryKind::Order => match c {
            'a' => Some(Order::Category.name()),
            'c' => Some(Order::ColorCount.name()),
            'd' => Some(Order::Date.name()),
            'l' => Some(Order::Label.name()),
            'n' => Some(Order::Name.name()),
            'o' => Some(Order::Cover.name()),
            'm' => Some(Order::Score.name()),
            'p' => Some(Order::Palette.name()),
            'r' => Some(Order::Random.name()),
            's' => Some(Order::Size.name()),
            'v' => Some(Order::Value.name()),
            _ => None,
        },
        EntryKind::Find | EntryKind::Select => match c {
            'a' => Some(string_of("AllTags")),
            'b' => Some(string_of("SubCategory")),
            'c' => Some(string_of("Category")),
            'l' => Some(string_of("Label")),
            'n' => Some(string_of("Name")),
            's' => Some(string_of("SomeTags")),
            _ => None,
        },
        EntryKind::Change => match c {
            'a' => Some(string_of("Catalog")),
            'c' => Some(string_of("Category")),
            'l' => Some(string_of("Label")),
            'n' => Some(string_of("Name")),
            'r' => Some(string_of("RemoveTag")),
            't' => Some(string_of("AddTag")),
            'u' => Some(string_of("Unlabel")),
            'v' => Some(string_of("Cover")),
            _ => None,
        },
        EntryKind::View => match c {
            '1' => Some(string_of("1")),
            '2' => Some(string_of("2")),
            '3' => Some(string_of("3")),
            '4' => Some(string_of("4")),
            '5' => Some(string_of("5")),
            't' => Some(string_of("Thumbs")),
            'c' => Some(string_of("Covers")),
            'p' => Some(string_of("Path")),
            'd' => Some(string_of("Date")),
            's' => Some(string_of("Size")),
            _ => None,
        },
        EntryKind::Catalog => match c {
            'a' => Some(string_of("AddCategory")),
            'm' => Some(string_of("MoveCategory")),
            'r' => Some(string_of("RemoveCategory")),
            _ => None,
        },
        _ => None,
    }
}

/// Whether an entry of `entry_kind` takes `ch`.
pub fn valid_entry_char(entry_kind: &EntryKind, ch: char) -> (r: bool)
    ensures
        r == valid_entry_char_spec(*entry_kind, ch),
{
    match entry_kind {
        EntryKind::Order | EntryKind::Find | EntryKind::Select | EntryKind::Change
        | EntryKind::View | EntryKind::Catalog => menu_entry_string(entry_kind, ch).is_some(),
        _ => ('a' <= ch && ch <= 'z') || ('A' <= ch && ch <= 'Z') || ('0' <= ch && ch <= '9')
            || ch == '-' || ch == '_' || ch == ' ',
    }
}

/// The entry as it stands: every entry is valid.
pub fn entry_validate(entry_kind: EntryKind, entry: &str, ch: char) -> (r: Option<String>)
    ensures
        r matches Some(s) && s@ == entry@,
{
    Some(string_of(entry))
}

/// The entry after typing `ch`, or `None` where an entry of `entry_kind` does not take it.
pub fn append_char(entry_kind: EntryKind, entry: &str, ch: char) -> (r: Option<String>)
    ensures
        valid_entry_char_spec(entry_kind, ch) ==> (r matches Some(s) && s@ == converted_char(
            entry_kind,
            entry@,
            ch,
        )),
        !valid_entry_char_spec(entry_kind, ch) ==> r is None,
{
    if valid_entry_char(&entry_kind, ch) {
        convert_char(entry_kind, entry, ch)
    } else {
        None
    }
}

/// The entry after taking `ch` (see `converted_char`).
pub fn convert_char(entry_kind: EntryKind, entry: &str, ch: char) -> (r: Option<String>)
    requires
        convertible(entry_kind, ch),
    ensures
        r matches Some(s) && s@ == converted_char(entry_kind, entry@, ch),
{
    let mut input = string_of(entry);
    if ch == ' ' {
        match entry_kind {
            EntryKind::FindAllTags | EntryKind::FindSomeTags | EntryKind::FindSubCategory
            | EntryKind::SelectAllTags | EntryKind::SelectSomeTags
            | EntryKind::SelectSubCategory => push_char(&mut input, ','),
            _ => push_char(&mut input, '-'),
        }
        return Some(input);
    }
    match menu_entry_string(&entry_kind, ch) {
        Some(text) => Some(text),
        None => {
            push_char(&mut input, lower_char(ch));
            Some(input)
        },
    }
}

} // verus!
