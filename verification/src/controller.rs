use crate::control::Control;
use crate::model::ViewOption;
use vstd::prelude::*;

verus! {

/// What applying a view setting asks of the window.
#[derive(PartialEq, Eq, Clone, Copy, Debug, Structural)]
pub enum ViewSettingRequest {
    /// activate the action bound to a control
    Control(Control),
    /// show or hide a detail of the picture file in the title
    ToggleDisplayOption(ViewOption),
    /// expand the picture or not
    ToggleExpand,
    /// show the catalog of categories
    ViewCatalog,
}

/// The request that applying `view_option` makes: a grid size or a view is set through the
/// control that toggles it, the file details are toggled in the title, full size expands the
/// picture, and the catalog is shown.
pub open spec fn view_setting_request_of(view_option: ViewOption) -> ViewSettingRequest {
    match view_option {
        ViewOption::Single => ViewSettingRequest::Control(Control::ToggleSingleView),
        ViewOption::Grid2x2 => ViewSettingRequest::Control(Control::ToggleTwoByTwoView),
        ViewOption::Grid3x3 => ViewSettingRequest::Control(Control::TogglePicturesPerRow(3)),
        ViewOption::Grid4x4 => ViewSettingRequest::Control(Control::TogglePicturesPerRow(4)),
        ViewOption::Grid5x5 => ViewSettingRequest::Control(Control::TogglePicturesPerRow(5)),
        ViewOption::Thumbnails => ViewSettingRequest::Control(Control::ToggleThumbView),
        ViewOption::Covers => ViewSettingRequest::Control(Control::ToggleCoverSelection),
        ViewOption::Palette => ViewSettingRequest::Control(Control::TogglePalette),
        ViewOption::FilePath | ViewOption::FileDate | ViewOption::FileSize => {
            ViewSettingRequest::ToggleDisplayOption(view_option)
        },
        ViewOption::FullSize => ViewSettingRequest::ToggleExpand,
        ViewOption::Catalog => ViewSettingRequest::ViewCatalog,
    }
}

/// The request that applying `view_option` makes (see `view_setting_request_of`).
pub fn view_setting_request(view_option: ViewOption) -> (r: ViewSettingRequest)
    ensures
        r == view_setting_request_of(view_option),
{
    match view_option {
        ViewOption::Single => ViewSettingRequest::Control(Control::ToggleSingleView),
        ViewOption::Grid2x2 => ViewSettingRequest::Control(Control::ToggleTwoByTwoView),
        ViewOption::Grid3x3 => ViewSettingRequest::Control(Control::TogglePicturesPerRow(3)),
        ViewOption::Grid4x4 => ViewSettingRequest::Control(Control::TogglePicturesPerRow(4)),
        ViewOption::Grid5x5 => ViewSettingRequest::Control(Control::TogglePicturesPerRow(5)),
        ViewOption::Thumbnails => ViewSettingRequest::Control(Control::ToggleThumbView),
        ViewOption::Covers => ViewSettingRequest::Control(Control::ToggleCoverSelection),
        ViewOption::Palette => ViewSettingRequest::Control(Control::TogglePalette),
        ViewOption::FilePath | ViewOption::FileDate | ViewOption::FileSize => {
            ViewSettingRequest::ToggleDisplayOption(view_option)
        },
        ViewOption::FullSize => ViewSettingRequest::ToggleExpand,
        ViewOption::Catalog => ViewSettingRequest::ViewCatalog,
    }
}

} // verus!
