//! What is handed to the desktop: the request to show the current image,
//! and the request to change the background colour. Carrying them out is
//! left to the caller.

use crate::app_gui::{Activity, Enum, MyApp, MyAppView};
use crate::common_utils::{
    color32_to_reversed_u32, current_image_path, current_image_path_for, reversed_color,
};
use crate::text::{decimal_digits, u64_to_decimal};
use vstd::prelude::*;
use vstd::string::*;

verus! {

/// The desktop did not take the image.
#[derive(Clone, Copy, Debug, PartialEq, Eq, Structural)]
pub enum ApplyError {
    OsCallError,
}

/// The value that the desktop keeps for a fit style.
pub open spec fn style_text(style: Enum) -> Seq<char> {
    match style {
        Enum::Center => "0"@,
        Enum::Fit => "6"@,
        Enum::Stretch => "2"@,
    }
}

pub fn wallpaper_style_value(style: Enum) -> (text: &'static str)
    ensures
        text@ == style_text(style),
{
    match style {
        Enum::Center => "0",
        Enum::Fit => "6",
        Enum::Stretch => "2",
    }
}

/// What the desktop is asked to show: the image file, relative to the
/// working directory, the fit style, and the values that the desktop keeps
/// for tiling and for that style.
#[derive(Debug, PartialEq, Eq)]
pub struct WallpaperRequest {
    pub path: String,
    pub style: Enum,
    pub tile_value: String,
    pub style_value: String,
}

pub struct WallpaperRequestView {
    pub path: Seq<char>,
    pub style: Enum,
    pub tile_value: Seq<char>,
    pub style_value: Seq<char>,
}

impl View for WallpaperRequest {
    type V = WallpaperRequestView;

    open spec fn view(&self) -> WallpaperRequestView {
        WallpaperRequestView {
            path: self.path@,
            style: self.style,
            tile_value: self.tile_value@,
            style_value: self.style_value@,
        }
    }
}

impl Clone for WallpaperRequest {
    fn clone(&self) -> (copy: Self)
        ensures
            copy@ == self@,
    {
        Self {
            path: self.path.clone(),
            style: self.style,
            tile_value: self.tile_value.clone(),
            style_value: self.style_value.clone(),
        }
    }
}

impl MyAppView {
    /// The request that puts the current image on the desktop: the file kept
    /// by the last fetch, never tiled, in the configured style.
    pub open spec fn wallpaper_request(self) -> WallpaperRequestView {
        WallpaperRequestView {
            path: current_image_path(self.config.file_type),
            style: self.config.wallpaper_fit_style,
            tile_value: "0"@,
            style_value: style_text(self.config.wallpaper_fit_style),
        }
    }

    /// The state while the desktop is being set.
    pub open spec fn wallpaper_started(self) -> MyAppView {
        MyAppView { status: Activity::Setting, ..self }
    }

    /// The state once the desktop has answered.
    pub open spec fn wallpaper_finished(self) -> MyAppView {
        MyAppView { status: Activity::Idle, ..self }
    }
}

/// Marks the start of setting the desktop and returns what to ask of it.
pub fn set_pic_as_wallpaper(my_app: &mut MyApp) -> (request: WallpaperRequest)
    ensures
        final(my_app)@ == old(my_app)@.wallpaper_started(),
        request@ == old(my_app)@.wallpaper_request(),
{
    my_app.status = Activity::Setting;
    WallpaperRequest {
        path: current_image_path_for(my_app.config.file_type.as_str()),
        style: my_app.config.wallpaper_fit_style,
        tile_value: "0".to_owned(),
        style_value: wallpaper_style_value(my_app.config.wallpaper_fit_style).to_owned(),
    }
}

/// Takes note of the desktop's answer: the worker is idle again whatever
/// the answer, and a refusal is handed back as an error.
pub fn finish_wallpaper(my_app: &mut MyApp, applied: bool) -> (result: Result<(), ApplyError>)
    ensures
        final(my_app)@ == old(my_app)@.wallpaper_finished(),
        result is Ok <==> applied,
        result matches Err(e) ==> e == ApplyError::OsCallError,
{
    my_app.status = Activity::Idle;
    if applied {
        Ok(())
    } else {
        Err(ApplyError::OsCallError)
    }
}

/// What the desktop is asked for when the background colour changes: the
/// text it keeps, and the number it applies at once.
#[derive(Debug, PartialEq, Eq)]
pub struct BackgroundColorRequest {
    pub stored_value: String,
    pub system_color: u32,
}

impl Clone for BackgroundColorRequest {
    fn clone(&self) -> (copy: Self)
        ensures
            copy.stored_value@ == self.stored_value@,
            copy.system_color == self.system_color,
    {
        Self { stored_value: self.stored_value.clone(), system_color: self.system_color }
    }
}

/// The text kept for a colour: red, green and blue in decimal, separated
/// by single spaces.
pub open spec fn color_text(color: [u8; 3]) -> Seq<char> {
    decimal_digits(color@[0] as nat) + " "@ + decimal_digits(color@[1] as nat) + " "@
        + decimal_digits(color@[2] as nat)
}

pub fn set_background_color(color: [u8; 3]) -> (request: BackgroundColorRequest)
    ensures
        request.stored_value@ == color_text(color),
        request.system_color == reversed_color(color),
{
    let red = u64_to_decimal(color[0] as u64);
    let green = u64_to_decimal(color[1] as u64);
    let blue = u64_to_decimal(color[2] as u64);
    let stored_value = red.concat(" ").concat(green.as_str()).concat(" ").concat(blue.as_str());
    BackgroundColorRequest { stored_value, system_color: color32_to_reversed_u32(color) }
}

} // verus!
