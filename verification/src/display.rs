use crate::editor::{join_words, seq_join};
use crate::key_input::lemma_sorted_no_duplicates;
use crate::model::{order_name, rank_text, Order, Rank, Tags};
use crate::text::{
    insert_sorted, lemma_lex_irreflexive, lemma_lex_transitive, push_char, string_of,
    strictly_sorted, views,
};
use vstd::prelude::*;

verus! {

/// The size of a picture file, in bytes.
pub type FileSize = u64;

/// How many pictures a cover stands for, if the picture is a cover.
pub type Cover = Option<usize>;

/// The mark of a cover.
pub const COVER_SYMBOL: &'static str = "⧉";

/// The mark of a picture whose file is small.
pub const SMALL_PICTURE_SYMBOL: &'static str = "▫";

/// Below this size, in bytes, a picture file is small.
pub const PICTURE_SIZE_THRESHOLD: u64 = 100_000;

/// The mark of a picture expanded to the window.
pub const EXPAND_ON_SYMBOL: &'static str = "⤢";

/// The mark of a picture shown at full size.
pub const FULL_SIZE_ON_SYMBOL: &'static str = "⛶";

/// The mark before the order of the gallery.
pub const ORDER_SYMBOL: &'static str = "⇅";

/// How the single view shows its picture.
#[derive(PartialEq, Eq, Clone, Copy, Debug, Structural)]
pub enum ViewMode {
    Normal,
    Expanded,
    FullSize,
}

/// What is known of a picture's image: its size, its category and its tags.
#[derive(Debug)]
pub struct ImageInfo {
    pub size: FileSize,
    pub category_name: Option<String>,
    pub tags: Tags,
}

/// What the title shows of the current picture.
#[derive(Debug)]
pub struct PictureInfo {
    pub file_name: String,
    pub file_path: String,
    pub label: String,
    pub rank: Rank,
    pub cover: Cover,
    pub image_data: Option<ImageInfo>,
    pub modified_time_display: String,
    pub file_size_display: String,
}

/// What the title shows of the view: the patterns that select and find pictures, the
/// settings, the gallery's folder, size and order, the selection and the current picture.
#[derive(Debug)]
pub struct TitleState {
    pub select_pattern: Option<String>,
    pub find_pattern: Option<String>,
    pub covers_only: bool,
    pub folder: Option<String>,
    pub position: usize,
    pub single_view: bool,
    pub single_view_mode: ViewMode,
    pub gallery_len: usize,
    pub pictures_per_row: usize,
    pub selection_count: usize,
    pub order: Order,
    pub file_path_on: bool,
    pub file_date_on: bool,
    pub file_size_on: bool,
    pub picture: PictureInfo,
}

/// The decimal writing of `n`, with no leading zero.
pub open spec fn decimal_text(n: nat) -> Seq<char>
    decreases n,
{
    if n < 10 {
        seq![digit_of(n)]
    } else {
        decimal_text(n / 10).push(digit_of(n % 10))
    }
}

/// The character of a decimal digit.
pub open spec fn digit_of(d: nat) -> char {
    if d == 0 {
        '0'
    } else if d == 1 {
        '1'
    } else if d == 2 {
        '2'
    } else if d == 3 {
        '3'
    } else if d == 4 {
        '4'
    } else if d == 5 {
        '5'
    } else if d == 6 {
        '6'
    } else if d == 7 {
        '7'
    } else if d == 8 {
        '8'
    } else {
        '9'
    }
}

fn digit_char_of(d: usize) -> (c: char)
    requires
        d < 10,
    ensures
        c == digit_of(d as nat),
{
    match d {
        0 => '0',
        1 => '1',
        2 => '2',
        3 => '3',
        4 => '4',
        5 => '5',
        6 => '6',
        7 => '7',
        8 => '8',
        _ => '9',
    }
}

/// Appends the decimal writing of `n`.
fn push_decimal(out: &mut String, n: usize)
    ensures
        final(out)@ == old(out)@ + decimal_text(n as nat),
    decreases n,
{
    if n >= 10 {
        push_decimal(out, n / 10);
    }
    push_char(out, digit_char_of(n % 10));
    proof {
        if n >= 10 {
            assert(decimal_text(n as nat) == decimal_text((n / 10) as nat).push(digit_of((n % 10) as nat)));
        }
    }
}

/// What marks a picture by the size of its file: small, not small, or unknown.
pub open spec fn small_picture_text(size_opt: Option<FileSize>) -> Seq<char> {
    match size_opt {
        Some(size) => if size < PICTURE_SIZE_THRESHOLD {
            SMALL_PICTURE_SYMBOL@
        } else {
            " "@
        },
        None => "?"@,
    }
}

/// The mark of a picture by the size of its file (see `small_picture_text`).
pub fn small_picture_display(size_opt: Option<FileSize>) -> (r: String)
    ensures
        r@ == small_picture_text(size_opt),
{
    match size_opt {
        Some(size) => if size < PICTURE_SIZE_THRESHOLD {
            string_of(SMALL_PICTURE_SYMBOL)
        } else {
            string_of(" ")
        },
        None => string_of("?"),
    }
}

/// What marks a cover: its symbol and how many pictures it stands for; nothing for a
/// picture that is no cover or stands for none.
pub open spec fn cover_text(cover: Cover) -> Seq<char> {
    match cover {
        Some(count) => if count == 0 {
            Seq::empty()
        } else {
            COVER_SYMBOL@ + "("@ + decimal_text(count as nat) + ")"@
        },
        None => Seq::empty(),
    }
}

/// The mark of a cover (see `cover_text`).
fn cover_display(cover: Cover) -> (r: String)
    ensures
        r@ == cover_text(cover),
{
    match cover {
        Some(count) => if count == 0 {
            String::new()
        } else {
            let mut r = string_of(COVER_SYMBOL);
            r.append("(");
            push_decimal(&mut r, count);
            r.append(")");
            r
        },
        None => String::new(),
    }
}

/// The label under a picture: its size mark, its cover mark, the focus mark (a space when
/// it has none), its label and its rank, separated by spaces.
pub open spec fn picture_label_text(
    label: Seq<char>,
    rank: Rank,
    cover: Cover,
    with_focus: Option<char>,
    size_opt: Option<FileSize>,
) -> Seq<char> {
    small_picture_text(size_opt) + cover_text(cover) + seq![' '] + seq![
        match with_focus {
            Some(c) => c,
            None => ' ',
        },
    ] + seq![' '] + label + seq![' '] + rank_text(rank)
}

/// The label under a picture (see `picture_label_text`).
pub fn picture_label_display(
    label: &str,
    rank: Rank,
    cover: Cover,
    with_focus: Option<char>,
    size_opt: Option<FileSize>,
) -> (r: String)
    ensures
        r@ == picture_label_text(label@, rank, cover, with_focus, size_opt),
{
    let mut r = small_picture_display(size_opt);
    let cover_mark = cover_display(cover);
    r.append(cover_mark.as_str());
    push_char(&mut r, ' ');
    push_char(
        &mut r,
        match with_focus {
            Some(c) => c,
            None => ' ',
        },
    );
    push_char(&mut r, ' ');
    r.append(label);
    push_char(&mut r, ' ');
    let rank_mark = rank.to_string();
    r.append(rank_mark.as_str());
    proof {
        assert(r@ =~= picture_label_text(label@, rank, cover, with_focus, size_opt));
    }
    r
}

/// The upper case of a text (std's `str::to_uppercase`, by Unicode's case mapping).
pub uninterp spec fn uppercase_of(s: Seq<char>) -> Seq<char>;

/// The upper case of a text (std's `str::to_uppercase`): Unicode's full case mapping, which
/// may change the length; the contract names the result and states nothing more of it.
#[verifier::external_body]
fn to_uppercase(s: &str) -> (r: String)
    ensures
        r@ == uppercase_of(s@),
{
    s.to_uppercase()
}

/// A text in brackets, or nothing.
pub open spec fn bracketed_text(pattern: Option<String>) -> Seq<char> {
    match pattern {
        Some(p) => "["@ + p@ + "]"@,
        None => Seq::empty(),
    }
}

fn bracketed(pattern: &Option<String>) -> (r: String)
    ensures
        r@ == bracketed_text(*pattern),
{
    match pattern {
        Some(p) => {
            let mut r = string_of("[");
            r.append(p.as_str());
            r.append("]");
            r
        },
        None => String::new(),
    }
}

/// A text where a setting is on, nothing where it is off.
pub open spec fn when_on(on: bool, text: Seq<char>) -> Seq<char> {
    if on {
        text
    } else {
        Seq::empty()
    }
}

fn string_when_on(on: bool, text: &str) -> (r: String)
    ensures
        r@ == when_on(on, text@),
{
    if on {
        string_of(text)
    } else {
        String::new()
    }
}

/// The mark of the single view's mode; nothing in a grid or in the normal mode.
pub open spec fn view_mode_text(state: TitleState) -> Seq<char> {
    if state.single_view {
        match state.single_view_mode {
            ViewMode::Normal => Seq::empty(),
            ViewMode::Expanded => EXPAND_ON_SYMBOL@,
            ViewMode::FullSize => FULL_SIZE_ON_SYMBOL@,
        }
    } else {
        Seq::empty()
    }
}

fn view_mode_display(view_state: &TitleState) -> (r: String)
    ensures
        r@ == view_mode_text(*view_state),
{
    if view_state.single_view {
        match view_state.single_view_mode {
            ViewMode::Normal => String::new(),
            ViewMode::Expanded => string_of(EXPAND_ON_SYMBOL),
            ViewMode::FullSize => string_of(FULL_SIZE_ON_SYMBOL),
        }
    } else {
        String::new()
    }
}

/// Whether the page of the grid can be numbered without overflow.
pub open spec fn page_countable(state: TitleState) -> bool {
    !state.single_view ==> {
        &&& state.pictures_per_row > 0
        &&& state.pictures_per_row * state.pictures_per_row <= usize::MAX
        &&& state.position < usize::MAX
        &&& state.gallery_len < usize::MAX
    }
}

/// The page of the grid that shows `position`, out of the gallery's pages: `n/total`;
/// nothing in the single view.
pub open spec fn page_text(state: TitleState, position: usize) -> Seq<char> {
    if state.single_view {
        Seq::empty()
    } else {
        let page_size = state.pictures_per_row * state.pictures_per_row;
        let number = 1 + position as int / page_size;
        let total = if state.gallery_len <= page_size {
            1
        } else {
            1 + state.gallery_len as int / page_size
        };
        decimal_text(number as nat) + "/"@ + decimal_text(total as nat)
    }
}

fn page_display(view_state: &TitleState, position: usize) -> (r: String)
    requires
        page_countable(*view_state),
        !view_state.single_view ==> position < usize::MAX,
    ensures
        r@ == page_text(*view_state, position),
{
    if view_state.single_view {
        String::new()
    } else {
        let len = view_state.gallery_len;
        let pictures_per_row = view_state.pictures_per_row;
        let page_size = pictures_per_row * pictures_per_row;
        proof {
            assert(page_size >= 1) by (nonlinear_arith)
                requires
                    pictures_per_row > 0,
                    page_size == pictures_per_row * pictures_per_row,
            ;
        }
        let number = 1 + position / page_size;
        let total = if len <= page_size {
            1
        } else {
            1 + (len / page_size)
        };
        let mut r = String::new();
        push_decimal(&mut r, number);
        r.append("/");
        push_decimal(&mut r, total);
        r
    }
}

/// The name of the picture's file, or its path where paths are shown.
pub open spec fn name_text(state: TitleState) -> Seq<char> {
    if state.file_path_on {
        state.picture.file_path@
    } else {
        state.picture.file_name@
    }
}

fn name_display(view_state: &TitleState) -> (r: String)
    ensures
        r@ == name_text(*view_state),
{
    if view_state.file_path_on {
        view_state.picture.file_path.clone()
    } else {
        view_state.picture.file_name.clone()
    }
}

/// The order of the gallery, after its mark.
pub open spec fn order_text(state: TitleState) -> Seq<char> {
    ORDER_SYMBOL@ + order_name(state.order)
}

fn order_display(view_state: &TitleState) -> (r: String)
    ensures
        r@ == order_text(*view_state),
{
    let mut r = string_of(ORDER_SYMBOL);
    let name = view_state.order.name();
    r.append(name.as_str());
    r
}

/// The folder that the gallery shows, if it shows one.
pub open spec fn directory_text(state: TitleState) -> Seq<char> {
    match state.folder {
        Some(f) => f@,
        None => Seq::empty(),
    }
}

fn directory_display(view_state: &TitleState) -> (r: String)
    ensures
        r@ == directory_text(*view_state),
{
    match &view_state.folder {
        Some(f) => f.clone(),
        None => String::new(),
    }
}

/// The picture's label in angle brackets, or nothing for no label.
pub open spec fn label_text(state: TitleState) -> Seq<char> {
    if state.picture.label@.len() > 0 {
        "<"@ + state.picture.label@ + ">"@
    } else {
        Seq::empty()
    }
}

fn label_display(view_state: &TitleState) -> (r: String)
    ensures
        r@ == label_text(*view_state),
{
    let label = &view_state.picture.label;
    let chars = crate::text::chars_of(label.as_str());
    if chars.len() > 0 {
        let mut r = string_of("<");
        r.append(label.as_str());
        r.append(">");
        r
    } else {
        String::new()
    }
}

/// The picture's category in upper case after `#`, or nothing.
pub open spec fn category_text(picture: PictureInfo) -> Seq<char> {
    match picture.image_data {
        Some(data) => match data.category_name {
            Some(name) => "#"@ + uppercase_of(name@),
            None => Seq::empty(),
        },
        None => Seq::empty(),
    }
}

fn category_display(picture: &PictureInfo) -> (r: String)
    ensures
        r@ == category_text(*picture),
{
    match &picture.image_data {
        Some(data) => match &data.category_name {
            Some(name) => {
                let mut r = string_of("#");
                let upper = to_uppercase(name.as_str());
                r.append(upper.as_str());
                r
            },
            None => String::new(),
        },
        None => String::new(),
    }
}

/// The tags of a set in increasing order.
pub open spec fn sorted_list(tags: Set<Seq<char>>) -> Seq<Seq<char>> {
    choose|list: Seq<Seq<char>>| strictly_sorted(list) && list.to_set() == tags
}

/// Two strictly increasing sequences of the same elements are the same sequence.
pub proof fn lemma_sorted_unique(a: Seq<Seq<char>>, b: Seq<Seq<char>>)
    requires
        strictly_sorted(a),
        strictly_sorted(b),
        a.to_set() == b.to_set(),
    ensures
        a == b,
    decreases a.len(),
{
    if a.len() == 0 {
        if b.len() > 0 {
            assert(b.to_set().contains(b[0]));
        }
        assert(a =~= b);
    } else {
        assert(a.to_set().contains(a[0]));
        assert(b.len() > 0);
        assert(b.to_set().contains(b[0]));
        let j = choose|j: int| 0 <= j < b.len() && b[j] == a[0];
        let i = choose|i: int| 0 <= i < a.len() && a[i] == b[0];
        if a[0] != b[0] {
            assert(i > 0 && j > 0);
            lemma_lex_transitive(a[0], b[0], a[0]);
            lemma_lex_irreflexive(a[0]);
        }
        lemma_sorted_no_duplicates(a);
        lemma_sorted_no_duplicates(b);
        let ra = a.drop_first();
        let rb = b.drop_first();
        assert(ra.to_set() =~= a.to_set().remove(a[0])) by {
            assert forall|e: Seq<char>| #[trigger] ra.to_set().contains(e) implies a.to_set().remove(a[0]).contains(e) by {
                let k = choose|k: int| 0 <= k < ra.len() && ra[k] == e;
                assert(a[k + 1] == e);
                assert(lex_lt_of(a, 0, k + 1));
                lemma_lex_irreflexive(a[0]);
            }
            assert forall|e: Seq<char>| #[trigger] a.to_set().remove(a[0]).contains(e) implies ra.to_set().contains(e) by {
                let k = choose|k: int| 0 <= k < a.len() && a[k] == e;
                assert(k > 0);
                assert(ra[k - 1] == e);
            }
        }
        assert(rb.to_set() =~= b.to_set().remove(b[0])) by {
            assert forall|e: Seq<char>| #[trigger] rb.to_set().contains(e) implies b.to_set().remove(b[0]).contains(e) by {
                let k = choose|k: int| 0 <= k < rb.len() && rb[k] == e;
                assert(b[k + 1] == e);
                assert(lex_lt_of(b, 0, k + 1));
                lemma_lex_irreflexive(b[0]);
            }
            assert forall|e: Seq<char>| #[trigger] b.to_set().remove(b[0]).contains(e) implies rb.to_set().contains(e) by {
                let k = choose|k: int| 0 <= k < b.len() && b[k] == e;
                assert(k > 0);
                assert(rb[k - 1] == e);
            }
        }
        lemma_sorted_unique(ra, rb);
        assert(a =~= seq![a[0]] + ra);
        assert(b =~= seq![b[0]] + rb);
    }
}

/// An element of a strictly increasing sequence comes before any later one.
spec fn lex_lt_of(v: Seq<Seq<char>>, i: int, j: int) -> bool {
    crate::text::lex_lt(v[i], v[j])
}

/// The tags between bars, in increasing order, or nothing for no tag.
pub open spec fn tag_text(picture: PictureInfo) -> Seq<char> {
    match picture.image_data {
        Some(data) => if data.tags@.len() == 0 {
            Seq::empty()
        } else {
            "| "@ + seq_join(sorted_list(data.tags@), " "@) + " |"@
        },
        None => Seq::empty(),
    }
}

/// The tags in increasing order.
fn sorted_tags(tags: &Tags) -> (r: Vec<String>)
    requires
        tags.wf(),
    ensures
        strictly_sorted(views(r@)),
        views(r@).to_set() == tags@,
{
    let mut r: Vec<String> = Vec::new();
    let n = tags.len_items();
    let mut i: usize = 0;
    proof {
        tags.lemma_items();
        assert(views(r@).to_set() =~= tags.items().take(0).to_set());
    }
    while i < n
        invariant
            n == tags.items().len(),
            i <= n,
            tags.wf(),
            tags.items().no_duplicates(),
            tags.items().to_set() == tags@,
            strictly_sorted(views(r@)),
            views(r@).to_set() == tags.items().take(i as int).to_set(),
        decreases n - i,
    {
        let tag = tags.get(i).clone();
        proof {
            if views(r@).contains(tag@) {
                let k = choose|k: int| 0 <= k < views(r@).len() && views(r@)[k] == tag@;
                assert(views(r@).to_set().contains(tag@));
                let m = choose|m: int| 0 <= m < i && tags.items().take(i as int)[m] == tag@;
                assert(tags.items()[m] == tags.items()[i as int]);
            }
        }
        insert_sorted(&mut r, tag);
        proof {
            assert(tags.items().take(i + 1) =~= tags.items().take(i as int).push(tags.items()[i as int]));
            tags.items().take(i as int).lemma_push_to_set_commute(tags.items()[i as int]);
        }
        i = i + 1;
    }
    proof {
        assert(tags.items().take(n as int) =~= tags.items());
    }
    r
}

fn tag_display(picture: &PictureInfo) -> (r: String)
    requires
        picture.image_data matches Some(data) ==> data.tags.wf(),
    ensures
        r@ == tag_text(*picture),
{
    match &picture.image_data {
        None => String::new(),
        Some(data) => {
            if data.tags.len() == 0 {
                String::new()
            } else {
                let labels = sorted_tags(&data.tags);
                proof {
                    let l = views(labels@);
                    let c = sorted_list(data.tags@);
                    assert(strictly_sorted(l) && l.to_set() == data.tags@);
                    lemma_sorted_unique(l, c);
                }
                let mut r = string_of("| ");
                let joined = join_words(&labels, " ");
                r.append(joined.as_str());
                r.append(" |");
                r
            }
        },
    }
}

/// The number of selected pictures in brackets, or nothing for no selection.
pub open spec fn selected_count_text(state: TitleState) -> Seq<char> {
    if state.selection_count == 0 {
        Seq::empty()
    } else {
        "["@ + decimal_text(state.selection_count as nat) + "]"@
    }
}

fn selected_count_display(view_state: &TitleState) -> (r: String)
    ensures
        r@ == selected_count_text(*view_state),
{
    if view_state.selection_count == 0 {
        String::new()
    } else {
        let mut r = string_of("[");
        push_decimal(&mut r, view_state.selection_count);
        r.append("]");
        r
    }
}

/// The title of the window: the select and find patterns, the covers mark, the folder, the
/// current picture's number, the page, the selection count and the order, then the
/// picture's cover mark, name, label, rank, category, tags, date and size, the view mode
/// mark and the size mark.
pub open spec fn title_text(state: TitleState) -> Seq<char> {
    let p = state.picture;
    bracketed_text(state.select_pattern) + bracketed_text(state.find_pattern) + when_on(
        state.covers_only,
        COVER_SYMBOL@,
    ) + " "@ + directory_text(state) + " #"@ + decimal_text(state.position as nat) + " "@
        + page_text(state, state.position) + " "@ + selected_count_text(state) + " "@
        + order_text(state) + "                     "@ + cover_text(p.cover) + " "@ + name_text(
        state,
    ) + " "@ + label_text(state) + " "@ + rank_text(p.rank) + " "@ + category_text(p) + " "@
        + tag_text(p) + " "@ + when_on(state.file_date_on, p.modified_time_display@) + " "@
        + when_on(state.file_size_on, p.file_size_display@) + " "@ + view_mode_text(state)
        + small_picture_text(
        match p.image_data {
            Some(data) => Some(data.size),
            None => None,
        },
    ) + " "@
}

/// The title of the window (see `title_text`).
pub fn title_display(view_state: &TitleState) -> (r: String)
    requires
        page_countable(*view_state),
        view_state.picture.image_data matches Some(data) ==> data.tags.wf(),
    ensures
        r@ == title_text(*view_state),
{
    let select = bracketed(&view_state.select_pattern);
    let pattern = bracketed(&view_state.find_pattern);
    let covers_only = string_when_on(view_state.covers_only, COVER_SYMBOL);
    let picture = &view_state.picture;
    let folder = directory_display(view_state);
    let position = view_state.position;
    let page = page_display(view_state, position);
    let sel_count = selected_count_display(view_state);
    let order = order_display(view_state);
    let small = small_picture_display(
        match &picture.image_data {
            Some(data) => Some(data.size),
            None => None,
        },
    );
    let cover = cover_display(picture.cover);
    let name = name_display(view_state);
    let label = label_display(view_state);
    let rank = picture.rank.to_string();
    let category = category_display(picture);
    let tags = tag_display(picture);
    let date = string_when_on(view_state.file_date_on, picture.modified_time_display.as_str());
    let size = string_when_on(view_state.file_size_on, picture.file_size_display.as_str());
    let view = view_mode_display(view_state);
    let mut r = select;
    r.append(pattern.as_str());
    r.append(covers_only.as_str());
    r.append(" ");
    r.append(folder.as_str());
    r.append(" #");
    push_decimal(&mut r, position);
    r.append(" ");
    r.append(page.as_str());
    r.append(" ");
    r.append(sel_count.as_str());
    r.append(" ");
    r.append(order.as_str());
    r.append("                     ");
    r.append(cover.as_str());
    r.append(" ");
    r.append(name.as_str());
    r.append(" ");
    r.append(label.as_str());
    r.append(" ");
    r.append(rank.as_str());
    r.append(" ");
    r.append(category.as_str());
    r.append(" ");
    r.append(tags.as_str());
    r.append(" ");
    r.append(date.as_str());
    r.append(" ");
    r.append(size.as_str());
    r.append(" ");
    r.append(view.as_str());
    r.append(small.as_str());
    r.append(" ");
    r
}

} // verus!
