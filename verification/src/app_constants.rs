use vstd::prelude::*;

verus! {

/// Fixed values shared by every component.
#[derive(Clone, Copy)]
pub struct AppConstants {}

impl AppConstants {
    pub const APP_NAME: &'static str = "pics2wall";

    pub const APP_VERSION: &'static str = "v0.1 (experimental)";

    pub const APP_DEVELOPER: &'static str = "mikrob";

    pub const APP_DEVELOPER_WEBSITE: &'static str = "http://mikrob.it";

    /// Seconds between two wake-ups of the scheduler.
    pub const TICK_INTERVAL: u64 = 5;

    /// Smallest accepted update interval, and the granularity of all others.
    pub const AUTO_UPDATE_MIN_INTERVAL: u64 = 60;

    /// Directory that receives the image handed to the desktop.
    pub const WALLPAPER_IMAGE_FILE_LOCATION: &'static str = "data/";

    /// Stem of the image file inside that directory, up to and including the dot.
    pub const WALLPAPER_IMAGE_FILE_STEM: &'static str = "current.";

    pub const BLANK_TEST_IMAGE_FILE_LOCATION: &'static str =
        "resources\\unknown_fetch_status_test_page.jpg";

    pub const FAILED_TEST_IMAGE_FILE_LOCATION: &'static str =
        "resources\\failed_fetch_status_test_page.jpg";

    pub const IN_PROGRESS_TEST_IMAGE_FILE_LOCATION: &'static str =
        "resources\\in_progress_fetch_status_test_page.jpg";

    pub const CONFIG_FILE_LOCATION: &'static str = "config.json";

    pub const LOG_FILE_LOCATION: &'static str = "log/";

    /// Address that a fresh configuration points at.
    pub const DEFAULT_IMAGE_ADDRESS: &'static str =
        "https://www.mikrob.it/blank_online_test_page.jpg";

    /// Layout of the timestamp recorded after each fetch.
    pub const FETCH_TIME_FORMAT: &'static str = "%Y-%m-%d %H:%M:%S";

    pub const LICENSE_TEXT: &'static str =
        "Copyright \u{a9} 2022 mikrob\n\n\nPermission is hereby granted, free of charge, to any person obtaining a copy of this software and associated documentation files (the \"Software\"), to deal in the Software without restriction, including without limitation the rights to use, copy, modify, merge, publish, distribute, sublicense, and/or sell copies of the Software, and to permit persons to whom the Software is furnished to do so, subject to the following conditions:\n\n\nThe above copyright notice and this permission notice shall be included in all copies or substantial portions of the Software.\n\n\nTHE SOFTWARE IS PROVIDED \"AS IS\", WITHOUT WARRANTY OF ANY KIND, EXPRESS OR IMPLIED, INCLUDING BUT NOT LIMITED TO THE WARRANTIES OF MERCHANTABILITY, FITNESS FOR A PARTICULAR PURPOSE AND NONINFRINGEMENT. IN NO EVENT SHALL THE AUTHORS OR COPYRIGHT HOLDERS BE LIABLE FOR ANY CLAIM, DAMAGES OR OTHER LIABILITY, WHETHER IN AN ACTION OF CONTRACT, TORT OR OTHERWISE, ARISING FROM, OUT OF OR IN CONNECTION WITH THE SOFTWARE OR THE USE OR OTHER DEALINGS IN THE SOFTWARE.";
}

} // verus!
