//! The utilities under one roof, for callers that do not care which of
//! them depend on the platform.

pub use crate::common_utils::{
    color32_to_reversed_u32, fetch_pic, get_current_background_color, is_image_url_valid,
    load_image_from_path, set_test_image_from_path,
};
pub use crate::windows_os_utils::{set_background_color, set_pic_as_wallpaper};
