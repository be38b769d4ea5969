use crate::text::{push_char, string_of};
use vstd::prelude::*;

verus! {

/// The number of stars given to a picture.
#[derive(PartialEq, Eq, Clone, Copy, Debug, Structural)]
pub enum Rank {
    NoStar,
    OneStar,
    TwoStars,
    ThreeStars,
}

/// The number that encodes a rank: its count of stars.
pub open spec fn rank_code(rank: Rank) -> i64 {
    match rank {
        Rank::NoStar => 0,
        Rank::OneStar => 1,
        Rank::TwoStars => 2,
        Rank::ThreeStars => 3,
    }
}

/// The rank that a number of stars stands for, if any.
pub open spec fn rank_from_code(n: i64) -> Option<Rank> {
    if n == 0 {
        Some(Rank::NoStar)
    } else if n == 1 {
        Some(Rank::OneStar)
    } else if n == 2 {
        Some(Rank::TwoStars)
    } else if n == 3 {
        Some(Rank::ThreeStars)
    } else {
        None
    }
}

/// How a rank is shown: a star for each star given.
pub open spec fn rank_text(rank: Rank) -> Seq<char> {
    match rank {
        Rank::NoStar => Seq::empty(),
        Rank::OneStar => seq!['★'],
        Rank::TwoStars => seq!['★', '★'],
        Rank::ThreeStars => seq!['★', '★', '★'],
    }
}

impl Rank {
    /// How the rank is shown (see `rank_text`).
    pub fn to_string(&self) -> (r: String)
        ensures
            r@ == rank_text(*self),
    {
        let mut r = String::new();
        let stars: usize = match self {
            Rank::NoStar => 0,
            Rank::OneStar => 1,
            Rank::TwoStars => 2,
            Rank::ThreeStars => 3,
        };
        let mut i: usize = 0;
        while i < stars
            invariant
                i <= stars,
                stars == rank_text(*self).len(),
                r@ == Seq::new(i as nat, |_k: int| '★'),
                rank_text(*self) == Seq::new(stars as nat, |_k: int| '★'),
            decreases stars - i,
        {
            push_char(&mut r, '★');
            i = i + 1;
            assert(r@ =~= Seq::new(i as nat, |_k: int| '★'));
        }
        r
    }

    pub fn code(&self) -> (r: i64)
        ensures
            r == rank_code(*self),
    {
        match self {
            Rank::NoStar => 0,
            Rank::OneStar => 1,
            Rank::TwoStars => 2,
            Rank::ThreeStars => 3,
        }
    }

    pub fn from_code(n: i64) -> (r: Option<Rank>)
        ensures
            r == rank_from_code(n),
    {
        match n {
            0 => Some(Rank::NoStar),
            1 => Some(Rank::OneStar),
            2 => Some(Rank::TwoStars),
            3 => Some(Rank::ThreeStars),
            _ => None,
        }
    }
}

/// The criterion by which the gallery is sorted.
#[derive(PartialEq, Eq, Clone, Copy, Debug, Structural)]
pub enum Order {
    Category,
    ColorCount,
    Cover,
    Date,
    Label,
    Name,
    Palette,
    Random,
    Score,
    Size,
    Value,
}

/// A setting of the view.
#[derive(PartialEq, Eq, Clone, Copy, Debug, Structural)]
pub enum ViewOption {
    Single,
    Grid2x2,
    Grid3x3,
    Grid4x4,
    Grid5x5,
    Thumbnails,
    Covers,
    Palette,
    FileDate,
    FilePath,
    FileSize,
    FullSize,
    Catalog,
}

/// The criterion by which pictures are found or selected.
#[derive(PartialEq, Eq, Clone, Copy, Debug, Structural)]
pub enum Find {
    AllTags,
    SubCategory,
    Category,
    Label,
    Name,
    FilePath,
    SomeTags,
}

/// A change to make to the selected pictures or to the catalog.
#[derive(PartialEq, Eq, Clone, Copy, Debug, Structural)]
pub enum Change {
    AddTag,
    Catalog,
    Category,
    Cover,
    Label,
    Name,
    RemoveTag,
    Unlabel,
    AddCategory,
    MoveCategory,
    RemoveCategory,
}

/// A label given to pictures.
pub type Label = String;

/// The category of a picture, if it has one.
pub type Category = Option<String>;

/// The rank of each code, in declaration order.
pub open spec fn order_code(order: Order) -> u8 {
    match order {
        Order::Category => 0,
        Order::ColorCount => 1,
        Order::Cover => 2,
        Order::Date => 3,
        Order::Label => 4,
        Order::Name => 5,
        Order::Palette => 6,
        Order::Random => 7,
        Order::Score => 8,
        Order::Size => 9,
        Order::Value => 10,
    }
}

/// The order whose code is `n`, if any.
pub open spec fn order_from_code(n: u8) -> Option<Order> {
    if n == 0 {
        Some(Order::Category)
    } else if n == 1 {
        Some(Order::ColorCount)
    } else if n == 2 {
        Some(Order::Cover)
    } else if n == 3 {
        Some(Order::Date)
    } else if n == 4 {
        Some(Order::Label)
    } else if n == 5 {
        Some(Order::Name)
    } else if n == 6 {
        Some(Order::Palette)
    } else if n == 7 {
        Some(Order::Random)
    } else if n == 8 {
        Some(Order::Score)
    } else if n == 9 {
        Some(Order::Size)
    } else if n == 10 {
        Some(Order::Value)
    } else {
        None
    }
}

/// The name of an order, as it is displayed.
pub open spec fn order_name(order: Order) -> Seq<char> {
    match order {
        Order::Category => "Category"@,
        Order::ColorCount => "ColorCount"@,
        Order::Cover => "Cover"@,
        Order::Date => "Date"@,
        Order::Label => "Label"@,
        Order::Name => "Name"@,
        Order::Palette => "Palette"@,
        Order::Random => "Random"@,
        Order::Score => "Score"@,
        Order::Size => "Size"@,
        Order::Value => "Value"@,
    }
}

impl Order {
    pub fn code(&self) -> (r: u8)
        ensures
            r == order_code(*self),
    {
        match self {
            Order::Category => 0,
            Order::ColorCount => 1,
            Order::Cover => 2,
            Order::Date => 3,
            Order::Label => 4,
            Order::Name => 5,
            Order::Palette => 6,
            Order::Random => 7,
            Order::Score => 8,
            Order::Size => 9,
            Order::Value => 10,
        }
    }

    pub fn from_code(n: u8) -> (r: Option<Order>)
        ensures
            r == order_from_code(n),
    {
        match n {
            0 => Some(Order::Category),
            1 => Some(Order::ColorCount),
            2 => Some(Order::Cover),
            3 => Some(Order::Date),
            4 => Some(Order::Label),
            5 => Some(Order::Name),
            6 => Some(Order::Palette),
            7 => Some(Order::Random),
            8 => Some(Order::Score),
            9 => Some(Order::Size),
            10 => Some(Order::Value),
            _ => None,
        }
    }

    /// The displayed name of the order.
    pub fn name(&self) -> (r: String)
        ensures
            r@ == order_name(*self),
    {
        match self {
            Order::Category => string_of("Category"),
            Order::ColorCount => string_of("ColorCount"),
            Order::Cover => string_of("Cover"),
            Order::Date => string_of("Date"),
            Order::Label => string_of("Label"),
            Order::Name => string_of("Name"),
            Order::Palette => string_of("Palette"),
            Order::Random => string_of("Random"),
            Order::Score => string_of("Score"),
            Order::Size => string_of("Size"),
            Order::Value => string_of("Value"),
        }
    }
}

pub open spec fn view_option_code(v: ViewOption) -> u8 {
    match v {
        ViewOption::Single => 0,
        ViewOption::Grid2x2 => 1,
        ViewOption::Grid3x3 => 2,
        ViewOption::Grid4x4 => 3,
        ViewOption::Grid5x5 => 4,
        ViewOption::Thumbnails => 5,
        ViewOption::Covers => 6,
        ViewOption::Palette => 7,
        ViewOption::FileDate => 8,
        ViewOption::FilePath => 9,
        ViewOption::FileSize => 10,
        ViewOption::FullSize => 11,
        ViewOption::Catalog => 12,
    }
}

pub open spec fn view_option_from_code(n: u8) -> Option<ViewOption> {
    if n == 0 {
        Some(ViewOption::Single)
    } else if n == 1 {
        Some(ViewOption::Grid2x2)
    } else if n == 2 {
        Some(ViewOption::Grid3x3)
    } else if n == 3 {
        Some(ViewOption::Grid4x4)
    } else if n == 4 {
        Some(ViewOption::Grid5x5)
    } else if n == 5 {
        Some(ViewOption::Thumbnails)
    } else if n == 6 {
        Some(ViewOption::Covers)
    } else if n == 7 {
        Some(ViewOption::Palette)
    } else if n == 8 {
        Some(ViewOption::FileDate)
    } else if n == 9 {
        Some(ViewOption::FilePath)
    } else if n == 10 {
        Some(ViewOption::FileSize)
    } else if n == 11 {
        Some(ViewOption::FullSize)
    } else if n == 12 {
        Some(ViewOption::Catalog)
    } else {
        None
    }
}

impl ViewOption {
    pub fn code(&self) -> (r: u8)
        ensures
            r == view_option_code(*self),
    {
        match self {
            ViewOption::Single => 0,
            ViewOption::Grid2x2 => 1,
            ViewOption::Grid3x3 => 2,
            ViewOption::Grid4x4 => 3,
            ViewOption::Grid5x5 => 4,
            ViewOption::Thumbnails => 5,
            ViewOption::Covers => 6,
            ViewOption::Palette => 7,
            ViewOption::FileDate => 8,
            ViewOption::FilePath => 9,
            ViewOption::FileSize => 10,
            ViewOption::FullSize => 11,
            ViewOption::Catalog => 12,
        }
    }

    pub fn from_code(n: u8) -> (r: Option<ViewOption>)
        ensures
            r == view_option_from_code(n),
    {
        match n {
            0 => Some(ViewOption::Single),
            1 => Some(ViewOption::Grid2x2),
            2 => Some(ViewOption::Grid3x3),
            3 => Some(ViewOption::Grid4x4),
            4 => Some(ViewOption::Grid5x5),
            5 => Some(ViewOption::Thumbnails),
            6 => Some(ViewOption::Covers),
            7 => Some(ViewOption::Palette),
            8 => Some(ViewOption::FileDate),
            9 => Some(ViewOption::FilePath),
            10 => Some(ViewOption::FileSize),
            11 => Some(ViewOption::FullSize),
            12 => Some(ViewOption::Catalog),
            _ => None,
        }
    }
}

pub open spec fn find_code(f: Find) -> u8 {
    match f {
        Find::AllTags => 0,
        Find::SubCategory => 1,
        Find::Category => 2,
        Find::Label => 3,
        Find::Name => 4,
        Find::FilePath => 5,
        Find::SomeTags => 6,
    }
}

pub open spec fn find_from_code(n: u8) -> Option<Find> {
    if n == 0 {
        Some(Find::AllTags)
    } else if n == 1 {
        Some(Find::SubCategory)
    } else if n == 2 {
        Some(Find::Category)
    } else if n == 3 {
        Some(Find::Label)
    } else if n == 4 {
        Some(Find::Name)
    } else if n == 5 {
        Some(Find::FilePath)
    } else if n == 6 {
        Some(Find::SomeTags)
    } else {
        None
    }
}

/// The displayed name of a find criterion.
pub open spec fn find_name(f: Find) -> Seq<char> {
    match f {
        Find::AllTags => "AllTags"@,
        Find::SubCategory => "SubCategory"@,
        Find::Category => "Category"@,
        Find::Label => "Label"@,
        Find::Name => "Name"@,
        Find::FilePath => "FilePath"@,
        Find::SomeTags => "SomeTags"@,
    }
}

impl Find {
    pub fn code(&self) -> (r: u8)
        ensures
            r == find_code(*self),
    {
        match self {
            Find::AllTags => 0,
            Find::SubCategory => 1,
            Find::Category => 2,
            Find::Label => 3,
            Find::Name => 4,
            Find::FilePath => 5,
            Find::SomeTags => 6,
        }
    }

    pub fn from_code(n: u8) -> (r: Option<Find>)
        ensures
            r == find_from_code(n),
    {
        match n {
            0 => Some(Find::AllTags),
            1 => Some(Find::SubCategory),
            2 => Some(Find::Category),
            3 => Some(Find::Label),
            4 => Some(Find::Name),
            5 => Some(Find::FilePath),
            6 => Some(Find::SomeTags),
            _ => None,
        }
    }

    /// The displayed name of the criterion.
    pub fn name(&self) -> (r: String)
        ensures
            r@ == find_name(*self),
    {
        match self {
            Find::AllTags => string_of("AllTags"),
            Find::SubCategory => string_of("SubCategory"),
            Find::Category => string_of("Category"),
            Find::Label => string_of("Label"),
            Find::Name => string_of("Name"),
            Find::FilePath => string_of("FilePath"),
            Find::SomeTags => string_of("SomeTags"),
        }
    }
}

/// The name of a change, as the change entry shows it.
pub open spec fn change_name(c: Change) -> Seq<char> {
    match c {
        Change::AddTag => "AddTag"@,
        Change::Catalog => "Catalog"@,
        Change::Category => "Category"@,
        Change::Cover => "Cover"@,
        Change::Label => "Label"@,
        Change::Name => "Name"@,
        Change::RemoveTag => "RemoveTag"@,
        Change::Unlabel => "Unlabel"@,
        Change::AddCategory => "AddCategory"@,
        Change::MoveCategory => "MoveCategory"@,
        Change::RemoveCategory => "RemoveCategory"@,
    }
}

pub open spec fn change_code(c: Change) -> u8 {
    match c {
        Change::AddTag => 0,
        Change::Catalog => 1,
        Change::Category => 2,
        Change::Cover => 3,
        Change::Label => 4,
        Change::Name => 5,
        Change::RemoveTag => 6,
        Change::Unlabel => 7,
        Change::AddCategory => 8,
        Change::MoveCategory => 9,
        Change::RemoveCategory => 10,
    }
}

pub open spec fn change_from_code(n: u8) -> Option<Change> {
    if n == 0 {
        Some(Change::AddTag)
    } else if n == 1 {
        Some(Change::Catalog)
    } else if n == 2 {
        Some(Change::Category)
    } else if n == 3 {
        Some(Change::Cover)
    } else if n == 4 {
        Some(Change::Label)
    } else if n == 5 {
        Some(Change::Name)
    } else if n == 6 {
        Some(Change::RemoveTag)
    } else if n == 7 {
        Some(Change::Unlabel)
    } else if n == 8 {
        Some(Change::AddCategory)
    } else if n == 9 {
        Some(Change::MoveCategory)
    } else if n == 10 {
        Some(Change::RemoveCategory)
    } else {
        None
    }
}

impl Change {
    pub fn code(&self) -> (r: u8)
        ensures
            r == change_code(*self),
    {
        match self {
            Change::AddTag => 0,
            Change::Catalog => 1,
            Change::Category => 2,
            Change::Cover => 3,
            Change::Label => 4,
            Change::Name => 5,
            Change::RemoveTag => 6,
            Change::Unlabel => 7,
            Change::AddCategory => 8,
            Change::MoveCategory => 9,
            Change::RemoveCategory => 10,
        }
    }

    pub fn from_code(n: u8) -> (r: Option<Change>)
        ensures
            r == change_from_code(n),
    {
        match n {
            0 => Some(Change::AddTag),
            1 => Some(Change::Catalog),
            2 => Some(Change::Category),
            3 => Some(Change::Cover),
            4 => Some(Change::Label),
            5 => Some(Change::Name),
            6 => Some(Change::RemoveTag),
            7 => Some(Change::Unlabel),
            8 => Some(Change::AddCategory),
            9 => Some(Change::MoveCategory),
            10 => Some(Change::RemoveCategory),
            _ => None,
        }
    }
}

/// Decoding the code of a value of these enumerations gives the value back.
pub proof fn lemma_codes_round_trip(o: Order, v: ViewOption, f: Find, c: Change)
    ensures
        order_from_code(order_code(o)) == Some(o),
        view_option_from_code(view_option_code(v)) == Some(v),
        find_from_code(find_code(f)) == Some(f),
        change_from_code(change_code(c)) == Some(c),
{
}

/// The segments of `s` between the separator `sep`, from the first to the last.
pub open spec fn split_on(s: Seq<char>, sep: char) -> Seq<Seq<char>>
    decreases s.len(),
{
    if s.len() == 0 {
        seq![Seq::empty()]
    } else {
        let rest = split_on(s.drop_last(), sep);
        if s.last() == sep {
            rest.push(Seq::empty())
        } else {
            rest.update(rest.len() - 1, rest.last().push(s.last()))
        }
    }
}

/// Splitting gives at least one segment.
pub proof fn lemma_split_on_len(s: Seq<char>, sep: char)
    ensures
        split_on(s, sep).len() >= 1,
    decreases s.len(),
{
    if s.len() > 0 {
        lemma_split_on_len(s.drop_last(), sep);
    }
}

/// A set of tags, each a word that pictures can carry.
#[derive(Debug)]
pub struct Tags {
    tags: Vec<String>,
}

impl View for Tags {
    type V = Set<Seq<char>>;

    closed spec fn view(&self) -> Set<Seq<char>> {
        self.tags@.map_values(|t: String| t@).to_set()
    }
}

impl Tags {
    /// The tags, each once, in the order they were added.
    pub closed spec fn items(&self) -> Seq<Seq<char>> {
        self.tags@.map_values(|t: String| t@)
    }

    pub closed spec fn wf(&self) -> bool {
        self.items().no_duplicates()
    }

    /// The tags are those listed, each once.
    pub proof fn lemma_items(&self)
        requires
            self.wf(),
        ensures
            self.items().no_duplicates(),
            self.items().to_set() == self@,
    {
    }

    /// The number of tags.
    pub fn len(&self) -> (r: usize)
        requires
            self.wf(),
        ensures
            r == self@.len(),
    {
        proof {
            self.items().unique_seq_to_set();
        }
        self.tags.len()
    }

    /// The tag at `i` in the order of addition.
    pub fn get(&self, i: usize) -> (r: &String)
        requires
            i < self.items().len(),
        ensures
            r@ == self.items()[i as int],
    {
        &self.tags[i]
    }

    /// Adds a tag unless it is already there.
    pub fn insert(&mut self, tag: String)
        requires
            old(self).wf(),
        ensures
            final(self).wf(),
            final(self)@ == old(self)@.insert(tag@),
    {
        let mut i: usize = 0;
        while i < self.tags.len()
            invariant
                0 <= i <= self.tags.len(),
                self.wf(),
                self@ == old(self)@,
                forall|j: int| 0 <= j < i ==> self.tags@[j]@ != tag@,
            decreases self.tags.len() - i,
        {
            if crate::text::string_eq(&self.tags[i], &tag) {
                proof {
                    assert(self.items()[i as int] == tag@);
                    assert(self@.contains(tag@));
                    assert(self@.insert(tag@) =~= self@);
                }
                return;
            }
            i = i + 1;
        }
        let ghost before = self.tags@;
        self.tags.push(tag);
        proof {
            assert(self.items() == before.map_values(|t: String| t@).push(tag@));
            before.map_values(|t: String| t@).lemma_push_to_set_commute(tag@);
        }
    }

    pub fn len_items(&self) -> (r: usize)
        ensures
            r == self.items().len(),
    {
        self.tags.len()
    }
}

/// The tag set with no tag.
pub fn empty_tags() -> (r: Tags)
    ensures
        r.wf(),
        r@ == Set::<Seq<char>>::empty(),
{
    let r = Tags { tags: Vec::new() };
    proof {
        assert(r.items() =~= Seq::<Seq<char>>::empty());
    }
    r
}

/// The tags written in `s`, separated by commas; empty segments carry no tag.
pub fn tags_from_str(s: &str) -> (r: Tags)
    ensures
        r.wf(),
        r@ == split_on(s@, ',').to_set().remove(Seq::empty()),
{
    let mut tags = empty_tags();
    let mut current = String::new();
    let ghost mut done: Seq<char> = Seq::empty();
    let chars = crate::text::chars_of(s);
    let mut i: usize = 0;
    proof {
        assert(split_on(done, ',') == seq![Seq::<char>::empty()]);
        assert(split_on(done, ',').drop_last().to_set().remove(Seq::empty()) =~= Set::empty());
    }
    while i < chars.len()
        invariant
            chars@ == s@,
            i <= chars.len(),
            done == s@.take(i as int),
            tags.wf(),
            current@ == split_on(done, ',').last(),
            tags@ == split_on(done, ',').drop_last().to_set().remove(Seq::empty()),
            split_on(done, ',').len() >= 1,
        decreases chars.len() - i,
    {
        let c = chars[i];
        let ghost prev = done;
        proof {
            done = s@.take(i + 1);
            assert(done.drop_last() == prev);
            assert(done.last() == c);
        }
        if c == ',' {
            let ghost parts = split_on(prev, ',');
            if !current.as_str().is_empty() {
                let finished = current;
                tags.insert(finished);
                current = String::new();
            } else {
                current = String::new();
            }
            proof {
                assert(split_on(done, ',') == parts.push(Seq::empty()));
                assert(split_on(done, ',').drop_last() == parts);
                assert(parts == parts.drop_last().push(parts.last()));
                parts.drop_last().lemma_push_to_set_commute(parts.last());
                if parts.last().len() == 0 {
                    assert(parts.last() =~= Seq::<char>::empty());
                    assert(parts.to_set().remove(Seq::empty()) =~= parts.drop_last().to_set().remove(Seq::empty()));
                } else {
                    assert(parts.to_set().remove(Seq::empty()) =~= parts.drop_last().to_set().remove(Seq::empty()).insert(parts.last()));
                }
            }
        } else {
            push_char(&mut current, c);
            proof {
                let parts = split_on(prev, ',');
                assert(split_on(done, ',') == parts.update(parts.len() - 1, parts.last().push(c)));
                assert(split_on(done, ',').drop_last() =~= parts.drop_last());
            }
        }
        i = i + 1;
    }
    let ghost parts = split_on(done, ',');
    if !current.as_str().is_empty() {
        tags.insert(current);
    }
    proof {
        assert(done == s@);
        assert(parts == parts.drop_last().push(parts.last()));
        parts.drop_last().lemma_push_to_set_commute(parts.last());
        if parts.last().len() == 0 {
            assert(parts.last() =~= Seq::<char>::empty());
            assert(parts.to_set().remove(Seq::empty()) =~= parts.drop_last().to_set().remove(Seq::empty()));
        } else {
            assert(parts.to_set().remove(Seq::empty()) =~= parts.drop_last().to_set().remove(Seq::empty()).insert(parts.last()));
        }
    }
    tags
}

} // verus!
