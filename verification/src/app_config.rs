//! The persisted configuration: its default, the rules it must meet before
//! auto-update may run, and what is made of a stored copy when it is read back.

use crate::app_constants::AppConstants;
use crate::app_gui::Enum;
use crate::common_utils::{is_image_url_valid, url_shape_valid};
use crate::text::{decimal_digits, has_prefix, u64_to_decimal};
use vstd::prelude::*;
use vstd::string::*;

verus! {

/// Why a stored configuration was not taken over.
#[derive(Clone, Copy, Debug, PartialEq, Eq, Structural)]
pub enum ConfigError {
    /// The stored copy is missing or cannot be read.
    IoError,
    /// The stored copy is not a configuration.
    ParseError,
    /// The stored copy asks for an interval below the minimum.
    ValidationError,
}

/// The rule that a configuration breaks.
#[derive(Clone, Copy, Debug, PartialEq, Eq, Structural)]
pub enum ConfigIssue {
    /// The interval is zero or not a multiple of the minimum.
    Interval,
    /// The address is not an `http` or `https` URL.
    AddressScheme,
    /// The address does not end like a JPEG or PNG file.
    AddressSuffix,
}

impl ConfigIssue {
    /// The sentence that tells a user which rule is broken.
    pub open spec fn message_text(self) -> Seq<char> {
        match self {
            ConfigIssue::Interval => "The auto-update interval must be divisible by "@
                + decimal_digits(AppConstants::AUTO_UPDATE_MIN_INTERVAL as nat) + " seconds"@,
            ConfigIssue::AddressScheme => "The image address must be a valid http or https URL "@
                + "directly pointing to an image"@,
            ConfigIssue::AddressSuffix => "Supported image formats / suffixes: .jpg, .jpeg, .png"@,
        }
    }

    pub fn message(self) -> (text: String)
        ensures
            text@ == self.message_text(),
    {
        match self {
            ConfigIssue::Interval => {
                let minimum = u64_to_decimal(AppConstants::AUTO_UPDATE_MIN_INTERVAL);
                "The auto-update interval must be divisible by ".to_owned().concat(
                    minimum.as_str(),
                ).concat(" seconds")
            },
            ConfigIssue::AddressScheme => {
                "The image address must be a valid http or https URL ".to_owned().concat(
                    "directly pointing to an image",
                )
            },
            ConfigIssue::AddressSuffix => {
                "Supported image formats / suffixes: .jpg, .jpeg, .png".to_owned()
            },
        }
    }
}

#[derive(Debug, PartialEq, Eq)]
pub struct AppConfig {
    pub image_address: String,
    pub auto_update_interval: u64,
    pub is_auto_update_active: bool,
    pub wallpaper_fit_style: Enum,
    pub file_type: String,
}

pub struct AppConfigView {
    pub image_address: Seq<char>,
    pub auto_update_interval: u64,
    pub is_auto_update_active: bool,
    pub wallpaper_fit_style: Enum,
    pub file_type: Seq<char>,
}

impl View for AppConfig {
    type V = AppConfigView;

    open spec fn view(&self) -> AppConfigView {
        AppConfigView {
            image_address: self.image_address@,
            auto_update_interval: self.auto_update_interval,
            is_auto_update_active: self.is_auto_update_active,
            wallpaper_fit_style: self.wallpaper_fit_style,
            file_type: self.file_type@,
        }
    }
}

impl Clone for AppConfig {
    fn clone(&self) -> (copy: Self)
        ensures
            copy@ == self@,
    {
        Self {
            image_address: self.image_address.clone(),
            auto_update_interval: self.auto_update_interval,
            is_auto_update_active: self.is_auto_update_active,
            wallpaper_fit_style: self.wallpaper_fit_style,
            file_type: self.file_type.clone(),
        }
    }
}

/// An interval is usable when it is a positive multiple of the minimum.
pub open spec fn interval_valid(seconds: u64) -> bool {
    seconds > 0 && seconds % AppConstants::AUTO_UPDATE_MIN_INTERVAL == 0
}

pub fn is_interval_valid(seconds: u64) -> (valid: bool)
    ensures
        valid == interval_valid(seconds),
{
    seconds > 0 && seconds % AppConstants::AUTO_UPDATE_MIN_INTERVAL == 0
}

impl AppConfigView {
    /// The configuration that is used when none is stored.
    pub open spec fn initial() -> AppConfigView {
        AppConfigView {
            image_address: AppConstants::DEFAULT_IMAGE_ADDRESS@,
            auto_update_interval: AppConstants::AUTO_UPDATE_MIN_INTERVAL,
            is_auto_update_active: false,
            wallpaper_fit_style: Enum::Center,
            file_type: Seq::empty(),
        }
    }

    /// Auto-update may run on this configuration.
    pub open spec fn valid(self) -> bool {
        interval_valid(self.auto_update_interval) && url_shape_valid(self.image_address)
    }

    /// The first rule that the configuration breaks, if any: the interval is
    /// looked at first, then the scheme of the address, then its suffix.
    pub open spec fn issue(self) -> Option<ConfigIssue> {
        if !interval_valid(self.auto_update_interval) {
            Some(ConfigIssue::Interval)
        } else if !("http://"@.is_prefix_of(self.image_address) || "https://"@.is_prefix_of(
            self.image_address,
        )) {
            Some(ConfigIssue::AddressScheme)
        } else if !url_shape_valid(self.image_address) {
            Some(ConfigIssue::AddressSuffix)
        } else {
            None
        }
    }

    /// What reading a stored configuration yields: the stored one, unless
    /// reading failed or its interval is below the minimum.
    pub open spec fn checked(read: Result<AppConfigView, ConfigError>) -> Result<
        AppConfigView,
        ConfigError,
    > {
        match read {
            Ok(stored) => if stored.auto_update_interval
                >= AppConstants::AUTO_UPDATE_MIN_INTERVAL {
                Ok(stored)
            } else {
                Err(ConfigError::ValidationError)
            },
            Err(e) => Err(e),
        }
    }

    /// The configuration in force after a read: the checked one, or the default.
    pub open spec fn loaded(read: Result<AppConfigView, ConfigError>) -> AppConfigView {
        match Self::checked(read) {
            Ok(stored) => stored,
            Err(_) => Self::initial(),
        }
    }
}

/// The view of what was read.
pub open spec fn read_view(read: Result<AppConfig, ConfigError>) -> Result<
    AppConfigView,
    ConfigError,
> {
    match read {
        Ok(stored) => Ok(stored@),
        Err(e) => Err(e),
    }
}

impl AppConfig {
    pub fn default() -> (config: Self)
        ensures
            config@ == AppConfigView::initial(),
    {
        Self {
            image_address: AppConstants::DEFAULT_IMAGE_ADDRESS.to_owned(),
            auto_update_interval: AppConstants::AUTO_UPDATE_MIN_INTERVAL,
            is_auto_update_active: false,
            wallpaper_fit_style: Enum::Center,
            file_type: String::new(),
        }
    }

    /// Whether auto-update may run on this configuration.
    pub fn validate(&self) -> (valid: bool)
        ensures
            valid == self@.valid(),
    {
        is_interval_valid(self.auto_update_interval) && is_image_url_valid(
            self.image_address.as_str(),
        )
    }

    /// The first rule that this configuration breaks, if any.
    pub fn issue(&self) -> (found: Option<ConfigIssue>)
        ensures
            found == self@.issue(),
            found is None <==> self@.valid(),
    {
        let address = self.image_address.as_str();
        if !is_interval_valid(self.auto_update_interval) {
            Some(ConfigIssue::Interval)
        } else if !(has_prefix(address, "http://") || has_prefix(address, "https://")) {
            Some(ConfigIssue::AddressScheme)
        } else if !is_image_url_valid(address) {
            Some(ConfigIssue::AddressSuffix)
        } else {
            None
        }
    }

    /// Judges what was read from the store: a read that failed keeps its
    /// error, and a stored interval below the minimum is a validation error.
    pub fn check_loaded(read: Result<AppConfig, ConfigError>) -> (checked: Result<
        AppConfig,
        ConfigError,
    >)
        ensures
            read_view(checked) == AppConfigView::checked(read_view(read)),
    {
        match read {
            Ok(stored) => {
                if stored.auto_update_interval >= AppConstants::AUTO_UPDATE_MIN_INTERVAL {
                    Ok(stored)
                } else {
                    Err(ConfigError::ValidationError)
                }
            },
            Err(e) => Err(e),
        }
    }

    /// The configuration to start with, given what was read from the store:
    /// the stored one if it passed the check, the default otherwise.
    pub fn load_app_config(read: Result<AppConfig, ConfigError>) -> (config: Self)
        ensures
            config@ == AppConfigView::loaded(read_view(read)),
    {
        match Self::check_loaded(read) {
            Ok(stored) => stored,
            Err(_) => Self::default(),
        }
    }
}

/// Reading back a configuration that was stored intact yields that
/// configuration, unless its interval is below the minimum: then it yields
/// the default.
pub proof fn lemma_load_returns_stored(stored: AppConfigView)
    ensures
        stored.auto_update_interval >= AppConstants::AUTO_UPDATE_MIN_INTERVAL
            ==> AppConfigView::loaded(Ok(stored)) == stored,
        stored.auto_update_interval < AppConstants::AUTO_UPDATE_MIN_INTERVAL
            ==> AppConfigView::loaded(Ok(stored)) == AppConfigView::initial(),
{
}

/// A read that failed yields the default, whatever the failure.
pub proof fn lemma_failed_read_yields_default(e: ConfigError)
    ensures
        AppConfigView::loaded(Err(e)) == AppConfigView::initial(),
{
}

} // verus!
