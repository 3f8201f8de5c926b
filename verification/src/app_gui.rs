//! The state that the interactive surface and the background worker share,
//! and the rules by which the surface may change it.

use crate::app_config::{
    interval_valid, is_interval_valid, AppConfig, AppConfigView, ConfigIssue,
};
use crate::app_constants::AppConstants;
use crate::common_utils::{is_image_url_valid, url_shape_valid};
use crate::preview::{PreviewImage, PreviewImageView};
use crate::text::{
    decimal_digits, lemma_decimal_round_trip, parse_u64, parsed_u64, u64_to_decimal,
};
use vstd::prelude::*;
use vstd::string::*;

verus! {

/// How an image is laid out on the desktop.
#[derive(Clone, Copy, Debug, PartialEq, Eq, Structural)]
pub enum Enum {
    Center,
    Fit,
    Stretch,
}

impl Enum {
    pub open spec fn label_text(self) -> Seq<char> {
        match self {
            Enum::Center => "Center"@,
            Enum::Fit => "Fit"@,
            Enum::Stretch => "Stretch"@,
        }
    }

    /// The word shown for this style.
    pub fn label(self) -> (text: &'static str)
        ensures
            text@ == self.label_text(),
    {
        match self {
            Enum::Center => "Center",
            Enum::Fit => "Fit",
            Enum::Stretch => "Stretch",
        }
    }
}

/// What the background worker is doing.
#[derive(Clone, Copy, Debug, PartialEq, Eq, Structural)]
pub enum Activity {
    Idle,
    Fetching,
    Setting,
}

/// How the most recent fetch ended.
#[derive(Clone, Copy, Debug, PartialEq, Eq, Structural)]
pub enum FetchResult {
    NotRun,
    Succeeded,
    Failed,
}

impl Activity {
    pub open spec fn label_text(self) -> Seq<char> {
        match self {
            Activity::Idle => "Idle"@,
            Activity::Fetching => "Fetching"@,
            Activity::Setting => "Setting"@,
        }
    }

    /// The word shown for this activity.
    pub fn label(self) -> (text: &'static str)
        ensures
            text@ == self.label_text(),
    {
        match self {
            Activity::Idle => "Idle",
            Activity::Fetching => "Fetching",
            Activity::Setting => "Setting",
        }
    }
}

impl FetchResult {
    pub open spec fn label_text(self) -> Seq<char> {
        match self {
            FetchResult::NotRun => "N/A"@,
            FetchResult::Succeeded => "Succeeded"@,
            FetchResult::Failed => "Failed"@,
        }
    }

    /// The word shown for this result.
    pub fn label(self) -> (text: &'static str)
        ensures
            text@ == self.label_text(),
    {
        match self {
            FetchResult::NotRun => "N/A",
            FetchResult::Succeeded => "Succeeded",
            FetchResult::Failed => "Failed",
        }
    }
}

#[derive(Debug, PartialEq, Eq)]
pub struct MyApp {
    pub config: AppConfig,
    pub status: Activity,
    pub last_fetch_result: FetchResult,
    pub last_fetch_time: Option<String>,
    pub test_image: PreviewImage,
    pub autoupdate_interval_input_string: String,
    pub is_form_valid: bool,
    pub is_diagnostic_image_shown: bool,
    pub is_license_info_shown: bool,
    pub is_test_image_fetch_requested: bool,
}

pub struct MyAppView {
    pub config: AppConfigView,
    pub status: Activity,
    pub last_fetch_result: FetchResult,
    pub last_fetch_time: Option<Seq<char>>,
    pub test_image: PreviewImageView,
    pub autoupdate_interval_input_string: Seq<char>,
    pub is_form_valid: bool,
    pub is_diagnostic_image_shown: bool,
    pub is_license_info_shown: bool,
    pub is_test_image_fetch_requested: bool,
}

impl View for MyApp {
    type V = MyAppView;

    open spec fn view(&self) -> MyAppView {
        MyAppView {
            config: self.config@,
            status: self.status,
            last_fetch_result: self.last_fetch_result,
            last_fetch_time: match self.last_fetch_time {
                Some(at) => Some(at@),
                None => None,
            },
            test_image: self.test_image@,
            autoupdate_interval_input_string: self.autoupdate_interval_input_string@,
            is_form_valid: self.is_form_valid,
            is_diagnostic_image_shown: self.is_diagnostic_image_shown,
            is_license_info_shown: self.is_license_info_shown,
            is_test_image_fetch_requested: self.is_test_image_fetch_requested,
        }
    }
}

/// What a user can ask of the shared state.
#[derive(Debug, PartialEq, Eq)]
pub enum Intent {
    EditImageAddress(String),
    EditIntervalInput(String),
    PickFitStyle(Enum),
    CheckForm,
    ResetConfiguration,
    ToggleAutoUpdate,
    RequestTestFetch,
    ShowTestImage,
    ToggleLicenseInfo,
}

pub enum IntentView {
    EditImageAddress(Seq<char>),
    EditIntervalInput(Seq<char>),
    PickFitStyle(Enum),
    CheckForm,
    ResetConfiguration,
    ToggleAutoUpdate,
    RequestTestFetch,
    ShowTestImage,
    ToggleLicenseInfo,
}

impl View for Intent {
    type V = IntentView;

    open spec fn view(&self) -> IntentView {
        match self {
            Intent::EditImageAddress(address) => IntentView::EditImageAddress(address@),
            Intent::EditIntervalInput(text) => IntentView::EditIntervalInput(text@),
            Intent::PickFitStyle(style) => IntentView::PickFitStyle(*style),
            Intent::CheckForm => IntentView::CheckForm,
            Intent::ResetConfiguration => IntentView::ResetConfiguration,
            Intent::ToggleAutoUpdate => IntentView::ToggleAutoUpdate,
            Intent::RequestTestFetch => IntentView::RequestTestFetch,
            Intent::ShowTestImage => IntentView::ShowTestImage,
            Intent::ToggleLicenseInfo => IntentView::ToggleLicenseInfo,
        }
    }
}

impl Clone for MyApp {
    fn clone(&self) -> (copy: Self)
        ensures
            copy@ == self@,
    {
        Self {
            config: self.config.clone(),
            status: self.status,
            last_fetch_result: self.last_fetch_result,
            last_fetch_time: match &self.last_fetch_time {
                Some(at) => Some(at.clone()),
                None => None,
            },
            test_image: self.test_image.clone(),
            autoupdate_interval_input_string: self.autoupdate_interval_input_string.clone(),
            is_form_valid: self.is_form_valid,
            is_diagnostic_image_shown: self.is_diagnostic_image_shown,
            is_license_info_shown: self.is_license_info_shown,
            is_test_image_fetch_requested: self.is_test_image_fetch_requested,
        }
    }
}

impl MyAppView {
    /// The state at start: nothing fetched, nothing requested, the interval
    /// field showing the configured interval.
    pub open spec fn initial(config: AppConfigView, blank: PreviewImageView) -> MyAppView {
        MyAppView {
            config,
            status: Activity::Idle,
            last_fetch_result: FetchResult::NotRun,
            last_fetch_time: None,
            test_image: blank,
            autoupdate_interval_input_string: decimal_digits(config.auto_update_interval as nat),
            is_form_valid: true,
            is_diagnostic_image_shown: false,
            is_license_info_shown: false,
            is_test_image_fetch_requested: false,
        }
    }

    /// The interval that the form holds, if the form as a whole is acceptable:
    /// the interval field reads as a positive multiple of the minimum and the
    /// address has the shape of an image URL.
    pub open spec fn accepted_interval(self) -> Option<u64> {
        match parsed_u64(self.autoupdate_interval_input_string) {
            Some(seconds) => if interval_valid(seconds) && url_shape_valid(
                self.config.image_address,
            ) {
                Some(seconds)
            } else {
                None
            },
            None => None,
        }
    }

    /// The state after the form was looked at: an acceptable interval is
    /// taken over into the configuration, and the form is marked accordingly.
    pub open spec fn form_checked(self) -> MyAppView {
        match self.accepted_interval() {
            Some(seconds) => MyAppView {
                config: AppConfigView { auto_update_interval: seconds, ..self.config },
                is_form_valid: true,
                ..self
            },
            None => MyAppView { is_form_valid: false, ..self },
        }
    }

    /// The state after the configuration was reset: what a user can edit
    /// is back at its default, and the interval field shows the default
    /// interval. The extension of the image last kept is the worker's to
    /// write and stays. Nothing changes while auto-update is on.
    pub open spec fn reset(self) -> MyAppView {
        if self.config.is_auto_update_active {
            self
        } else {
            MyAppView {
                config: AppConfigView {
                    file_type: self.config.file_type,
                    ..AppConfigView::initial()
                },
                autoupdate_interval_input_string: decimal_digits(
                    AppConfigView::initial().auto_update_interval as nat,
                ),
                ..self
            }
        }
    }

    /// Auto-update is on only under a configuration that meets its rules.
    pub open spec fn sound(self) -> bool {
        self.config.is_auto_update_active ==> self.config.valid()
    }

    /// The state after an edit of the image address: the new address is in
    /// place, unless auto-update is on, when nothing may be edited.
    pub open spec fn address_edited(self, address: Seq<char>) -> MyAppView {
        if self.config.is_auto_update_active {
            self
        } else {
            MyAppView { config: AppConfigView { image_address: address, ..self.config }, ..self }
        }
    }

    /// The state after an edit of the interval field.
    pub open spec fn interval_input_edited(self, text: Seq<char>) -> MyAppView {
        if self.config.is_auto_update_active {
            self
        } else {
            MyAppView { autoupdate_interval_input_string: text, ..self }
        }
    }

    /// The state after another fit style was picked.
    pub open spec fn fit_style_edited(self, style: Enum) -> MyAppView {
        if self.config.is_auto_update_active {
            self
        } else {
            MyAppView {
                config: AppConfigView { wallpaper_fit_style: style, ..self.config },
                ..self
            }
        }
    }

    /// Auto-update may be switched on: the form is acceptable and the
    /// configuration meets its rules.
    pub open spec fn may_start(self) -> bool {
        self.is_form_valid && self.config.valid()
    }

    /// The state after the auto-update switch was pressed: a running
    /// auto-update stops; a stopped one starts only where it may, and brings
    /// the preview up.
    pub open spec fn toggled(self) -> MyAppView {
        if self.config.is_auto_update_active {
            MyAppView {
                config: AppConfigView { is_auto_update_active: false, ..self.config },
                ..self
            }
        } else if self.may_start() {
            MyAppView {
                config: AppConfigView { is_auto_update_active: true, ..self.config },
                is_diagnostic_image_shown: true,
                ..self
            }
        } else {
            self
        }
    }

    /// The state after a user's intent was carried out.
    pub open spec fn performed(self, intent: IntentView) -> MyAppView {
        match intent {
            IntentView::EditImageAddress(address) => self.address_edited(address),
            IntentView::EditIntervalInput(text) => self.interval_input_edited(text),
            IntentView::PickFitStyle(style) => self.fit_style_edited(style),
            IntentView::CheckForm => self.form_checked(),
            IntentView::ResetConfiguration => self.reset(),
            IntentView::ToggleAutoUpdate => self.toggled(),
            IntentView::RequestTestFetch => self.test_fetch_requested(),
            IntentView::ShowTestImage => MyAppView { is_diagnostic_image_shown: true, ..self },
            IntentView::ToggleLicenseInfo => MyAppView {
                is_license_info_shown: !self.is_license_info_shown,
                ..self
            },
        }
    }

    /// A test fetch may be asked for: the worker is idle, the form is
    /// acceptable and auto-update is off.
    pub open spec fn may_request_test_fetch(self) -> bool {
        self.status == Activity::Idle && self.is_form_valid && !self.config.is_auto_update_active
    }

    /// The state after a test fetch was asked for.
    pub open spec fn test_fetch_requested(self) -> MyAppView {
        if self.may_request_test_fetch() {
            MyAppView {
                is_test_image_fetch_requested: true,
                is_diagnostic_image_shown: true,
                ..self
            }
        } else {
            self
        }
    }
}

/// At start the form agrees with the configuration: looking at it changes
/// nothing in the configuration, and marks the form acceptable exactly when
/// the configuration meets its rules.
pub proof fn lemma_fresh_form_agrees_with_configuration(
    config: AppConfigView,
    blank: PreviewImageView,
)
    ensures
        MyAppView::initial(config, blank).form_checked() == (MyAppView {
            is_form_valid: config.valid(),
            ..MyAppView::initial(config, blank)
        }),
{
    lemma_decimal_round_trip(config.auto_update_interval);
}

/// Nothing a user can ask for switches auto-update on under a
/// configuration that breaks its rules, nor touches what the worker reports:
/// the activity, the outcome and moment of the last fetch, the picture on
/// show and the extension of the image last kept. A request for a test
/// fetch is placed by the user, never taken back.
pub proof fn lemma_surface_keeps_to_its_side(app: MyAppView, intent: IntentView)
    ensures
        app.sound() ==> app.performed(intent).sound(),
        app.performed(intent).status == app.status,
        app.performed(intent).last_fetch_result == app.last_fetch_result,
        app.performed(intent).last_fetch_time == app.last_fetch_time,
        app.performed(intent).test_image == app.test_image,
        app.performed(intent).config.file_type == app.config.file_type,
        app.is_test_image_fetch_requested ==> app.performed(intent).is_test_image_fetch_requested,
{
}

/// What a user is told while the configuration does not allow auto-update:
/// a heading, then the three rules, numbered, one to a line.
pub open spec fn validation_text() -> Seq<char> {
    "Auto-update cannot be started, the configuration is incorrect.\n1. "@
        + ConfigIssue::Interval.message_text() + "\n2. "@
        + ConfigIssue::AddressScheme.message_text() + "\n3. "@
        + ConfigIssue::AddressSuffix.message_text()
}

pub fn validation_message() -> (text: String)
    ensures
        text@ == validation_text(),
{
    let first = ConfigIssue::Interval.message();
    let second = ConfigIssue::AddressScheme.message();
    let third = ConfigIssue::AddressSuffix.message();
    "Auto-update cannot be started, the configuration is incorrect.\n1. ".to_owned().concat(
        first.as_str(),
    ).concat("\n2. ").concat(second.as_str()).concat("\n3. ").concat(third.as_str())
}

/// Where the log is kept.
pub open spec fn log_file_text() -> Seq<char> {
    AppConstants::LOG_FILE_LOCATION@ + AppConstants::APP_NAME@ + ".log"@
}

pub fn log_file_path() -> (path: String)
    ensures
        path@ == log_file_text(),
{
    AppConstants::LOG_FILE_LOCATION.to_owned().concat(AppConstants::APP_NAME).concat(".log")
}

impl MyApp {
    /// The state at start, around the configuration that was loaded and the
    /// image shown before anything was fetched.
    pub fn default(loaded_config: AppConfig, blank: PreviewImage) -> (app: Self)
        ensures
            app@ == MyAppView::initial(loaded_config@, blank@),
    {
        let interval_text = u64_to_decimal(loaded_config.auto_update_interval);
        Self {
            config: loaded_config,
            status: Activity::Idle,
            last_fetch_result: FetchResult::NotRun,
            last_fetch_time: None,
            test_image: blank,
            autoupdate_interval_input_string: interval_text,
            is_form_valid: true,
            is_diagnostic_image_shown: false,
            is_license_info_shown: false,
            is_test_image_fetch_requested: false,
        }
    }

    /// Puts a new image address in place. Refused while auto-update is on.
    pub fn set_image_address(&mut self, address: String) -> (taken: bool)
        ensures
            final(self)@ == old(self)@.address_edited(address@),
            taken == !old(self)@.config.is_auto_update_active,
            old(self)@.sound() ==> final(self)@.sound(),
    {
        if self.config.is_auto_update_active {
            false
        } else {
            self.config.image_address = address;
            true
        }
    }

    /// Puts a new text into the interval field. Refused while auto-update
    /// is on.
    pub fn set_interval_input(&mut self, text: String) -> (taken: bool)
        ensures
            final(self)@ == old(self)@.interval_input_edited(text@),
            taken == !old(self)@.config.is_auto_update_active,
            old(self)@.sound() ==> final(self)@.sound(),
    {
        if self.config.is_auto_update_active {
            false
        } else {
            self.autoupdate_interval_input_string = text;
            true
        }
    }

    /// Picks another fit style. Refused while auto-update is on.
    pub fn set_fit_style(&mut self, style: Enum) -> (taken: bool)
        ensures
            final(self)@ == old(self)@.fit_style_edited(style),
            taken == !old(self)@.config.is_auto_update_active,
            old(self)@.sound() ==> final(self)@.sound(),
    {
        if self.config.is_auto_update_active {
            false
        } else {
            self.config.wallpaper_fit_style = style;
            true
        }
    }

    /// Looks at the form: takes an acceptable interval over into the
    /// configuration and records whether the form is acceptable.
    pub fn validate_form(&mut self)
        ensures
            final(self)@ == old(self)@.form_checked(),
            old(self)@.sound() ==> final(self)@.sound(),
            final(self)@.is_form_valid ==> final(self)@.config.valid(),
    {
        let accepted = match parse_u64(self.autoupdate_interval_input_string.as_str()) {
            Some(seconds) => {
                if is_interval_valid(seconds) && is_image_url_valid(
                    self.config.image_address.as_str(),
                ) {
                    Some(seconds)
                } else {
                    None
                }
            },
            None => None,
        };
        match accepted {
            Some(seconds) => {
                self.config.auto_update_interval = seconds;
                self.is_form_valid = true;
            },
            None => {
                self.is_form_valid = false;
            },
        }
    }

    /// Puts the default configuration in place and shows its interval in
    /// the form. Refused while auto-update is on.
    pub fn reset_configuration(&mut self) -> (taken: bool)
        ensures
            final(self)@ == old(self)@.reset(),
            taken == !old(self)@.config.is_auto_update_active,
            old(self)@.sound() ==> final(self)@.sound(),
    {
        if self.config.is_auto_update_active {
            false
        } else {
            let mut fresh = AppConfig::default();
            fresh.file_type = self.config.file_type.clone();
            self.autoupdate_interval_input_string = u64_to_decimal(fresh.auto_update_interval);
            self.config = fresh;
            true
        }
    }

    /// Presses the auto-update switch. Returns whether the switch moved.
    pub fn toggle_auto_update(&mut self) -> (moved: bool)
        ensures
            final(self)@ == old(self)@.toggled(),
            moved == (old(self)@.config.is_auto_update_active || old(self)@.may_start()),
            final(self)@.sound(),
    {
        if self.config.is_auto_update_active {
            self.config.is_auto_update_active = false;
            true
        } else if self.is_form_valid && self.config.validate() {
            self.config.is_auto_update_active = true;
            self.is_diagnostic_image_shown = true;
            true
        } else {
            false
        }
    }

    /// Carries out a user's intent.
    pub fn perform(&mut self, intent: Intent)
        ensures
            final(self)@ == old(self)@.performed(intent@),
    {
        match intent {
            Intent::EditImageAddress(address) => {
                self.set_image_address(address);
            },
            Intent::EditIntervalInput(text) => {
                self.set_interval_input(text);
            },
            Intent::PickFitStyle(style) => {
                self.set_fit_style(style);
            },
            Intent::CheckForm => {
                self.validate_form();
            },
            Intent::ResetConfiguration => {
                self.reset_configuration();
            },
            Intent::ToggleAutoUpdate => {
                self.toggle_auto_update();
            },
            Intent::RequestTestFetch => {
                self.request_test_fetch();
            },
            Intent::ShowTestImage => {
                self.show_test_image();
            },
            Intent::ToggleLicenseInfo => {
                self.toggle_license_info();
            },
        }
    }

    /// Whether the configuration may be edited: only while auto-update is off.
    pub fn is_configurable(&self) -> (editable: bool)
        ensures
            editable == !self@.config.is_auto_update_active,
    {
        !self.config.is_auto_update_active
    }

    /// The words on the auto-update switch.
    pub fn auto_update_button_label(&self) -> (text: &'static str)
        ensures
            text@ == (if self@.config.is_auto_update_active {
                "Stop auto-update"@
            } else {
                "Start auto-update"@
            }),
    {
        if self.config.is_auto_update_active {
            "Stop auto-update"
        } else {
            "Start auto-update"
        }
    }

    /// The moment of the last fetch as shown: the text on record, or
    /// `N/A` while nothing has been fetched.
    pub fn last_fetch_time_label(&self) -> (text: String)
        ensures
            text@ == (match self@.last_fetch_time {
                Some(at) => at,
                None => "N/A"@,
            }),
    {
        match &self.last_fetch_time {
            Some(at) => at.clone(),
            None => "N/A".to_owned(),
        }
    }

    /// Brings the preview up.
    pub fn show_test_image(&mut self)
        ensures
            final(self)@ == (MyAppView { is_diagnostic_image_shown: true, ..old(self)@ }),
    {
        self.is_diagnostic_image_shown = true;
    }

    /// Brings the license text up, or takes it down.
    pub fn toggle_license_info(&mut self)
        ensures
            final(self)@ == (MyAppView {
                is_license_info_shown: !old(self)@.is_license_info_shown,
                ..old(self)@
            }),
    {
        self.is_license_info_shown = !self.is_license_info_shown;
    }

    /// Whether a test fetch may be asked for now.
    pub fn can_request_test_fetch(&self) -> (allowed: bool)
        ensures
            allowed == self@.may_request_test_fetch(),
    {
        self.status == Activity::Idle && self.is_form_valid && !self.config.is_auto_update_active
    }

    /// Asks the worker for one test fetch, where that is allowed. Returns
    /// whether the request was placed.
    pub fn request_test_fetch(&mut self) -> (placed: bool)
        ensures
            final(self)@ == old(self)@.test_fetch_requested(),
            placed == old(self)@.may_request_test_fetch(),
            old(self)@.sound() ==> final(self)@.sound(),
    {
        if self.can_request_test_fetch() {
            self.is_test_image_fetch_requested = true;
            self.is_diagnostic_image_shown = true;
            true
        } else {
            false
        }
    }
}

} // verus!
