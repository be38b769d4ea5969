use gsr::display::{
    title_display, ImageInfo, PictureInfo, TitleState, ViewMode, COVER_SYMBOL, EXPAND_ON_SYMBOL,
    ORDER_SYMBOL,
};
use gsr::model::{tags_from_str, Order, Rank};

fn picture() -> PictureInfo {
    PictureInfo {
        file_name: "a.jpg".to_string(),
        file_path: "/p/a.jpg".to_string(),
        label: "sea".to_string(),
        rank: Rank::TwoStars,
        cover: None,
        image_data: Some(ImageInfo {
            size: 200_000,
            category_name: Some("animals".to_string()),
            tags: tags_from_str("dog,cat"),
        }),
        modified_time_display: "2024-01-01".to_string(),
        file_size_display: "195K".to_string(),
    }
}

fn state() -> TitleState {
    TitleState {
        select_pattern: Some("tag:cat".to_string()),
        find_pattern: None,
        covers_only: false,
        folder: Some("holidays".to_string()),
        position: 5,
        single_view: false,
        single_view_mode: ViewMode::Normal,
        gallery_len: 10,
        pictures_per_row: 2,
        selection_count: 3,
        order: Order::Name,
        file_path_on: false,
        file_date_on: true,
        file_size_on: false,
        picture: picture(),
    }
}

#[test]
fn the_title_shows_the_view_and_the_current_picture() {
    let expected = format!(
        "[tag:cat] holidays #5 2/3 [3] {}Name{}a.jpg <sea> ★★ #ANIMALS | cat dog | 2024-01-01{}",
        ORDER_SYMBOL,
        " ".repeat(22),
        " ".repeat(4)
    );
    assert_eq!(expected, title_display(&state()));
}

#[test]
fn the_single_view_title_has_no_page_and_shows_the_view_mode() {
    let mut s = state();
    s.single_view = true;
    s.single_view_mode = ViewMode::Expanded;
    s.covers_only = true;
    s.selection_count = 0;
    s.select_pattern = None;
    s.find_pattern = Some("x".to_string());
    s.file_path_on = true;
    s.file_size_on = true;
    s.picture.cover = Some(2);
    s.picture.label = String::new();
    s.picture.image_data = None;
    let expected = format!(
        "[x]{} holidays #5   {}Name{}{}(2) /p/a.jpg  ★★   2024-01-01 195K {}? ",
        COVER_SYMBOL,
        ORDER_SYMBOL,
        " ".repeat(21),
        COVER_SYMBOL,
        EXPAND_ON_SYMBOL
    );
    assert_eq!(expected, title_display(&s));
}

#[test]
fn the_page_counts_the_whole_gallery() {
    let mut s = state();
    s.gallery_len = 4;
    s.position = 0;
    s.selection_count = 0;
    let title = title_display(&s);
    assert!(title.contains(" #0 1/1  "));
    s.gallery_len = 9;
    s.position = 8;
    assert!(title_display(&s).contains(" #8 3/3  "));
}
