//! 3-D Secure card verification.

use crate::common::enums::{Version, Result, Status};
use crate::common::traits::{LiqPayResponse};
use vstd::prelude::*;

verus! {

/// Represents the depth of a browser color.
#[derive(Clone, Copy, Debug, PartialEq, Eq, Structural)]
pub enum BrowserColorDepth {
    One,
    Two,
    Four,
    Eight,
    Fifteen,
    Sixteen,
    TwentyFour,
    ThirtyTwo,
    FortyEight,
}

/// Represents additional 3D Secure information.
#[derive(Debug)]
pub struct ThreeDsInfo {
    pub notification_url: String,
    pub browser_language: String,
    pub three_ds_requestor_url: String,
    pub browser_screen_height: String,
    pub browser_color_depth: BrowserColorDepth,
    pub browser_screen_width: String,
    pub browser_accept_header: String,
    pub browser_tz: i16,
    pub browser_user_agent: String,
    pub browser_java_script_enabled: Option<bool>,
    pub browser_java_enabled: Option<bool>,
}

impl ThreeDsInfo {
    /// Constructs a new instance of additional 3D Secure information.
    /// The browser's offset from UTC is given in hours and kept in minutes,
    /// with the sign the gateway expects (UTC+2 becomes `-120`).
    pub fn new(
        notification_url: String,
        browser_language: String,
        three_ds_requestor_url: String,
        browser_screen_height: String,
        browser_screen_width: String,
        browser_color_depth: BrowserColorDepth,
        browser_accept_header: String,
        browser_tz_compared_to_utc: i8,
        browser_user_agent: String,
    ) -> (r: Self)
        ensures
            r.notification_url == notification_url,
            r.browser_language == browser_language,
            r.three_ds_requestor_url == three_ds_requestor_url,
            r.browser_screen_height == browser_screen_height,
            r.browser_color_depth == browser_color_depth,
            r.browser_screen_width == browser_screen_width,
            r.browser_accept_header == browser_accept_header,
            r.browser_tz == -60 * browser_tz_compared_to_utc,
            r.browser_user_agent == browser_user_agent,
            r.browser_java_script_enabled is None,
            r.browser_java_enabled is None,
    {
        let hours: i16 = browser_tz_compared_to_utc as i16;
        let browser_tz: i16 = -(hours * 60);
        Self {
            notification_url,
            browser_language,
            three_ds_requestor_url,
            browser_screen_height,
            browser_color_depth,
            browser_screen_width,
            browser_accept_header,
            browser_tz,
            browser_user_agent,
            browser_java_script_enabled: None,
            browser_java_enabled: None,
        }
    }

    /// Sets JavaScript execution in a customer's browser to disabled.
    pub fn disable_java_script(self) -> (r: Self)
        ensures
            r.notification_url == self.notification_url,
            r.browser_language == self.browser_language,
            r.three_ds_requestor_url == self.three_ds_requestor_url,
            r.browser_screen_height == self.browser_screen_height,
            r.browser_color_depth == self.browser_color_depth,
            r.browser_screen_width == self.browser_screen_width,
            r.browser_accept_header == self.browser_accept_header,
            r.browser_tz == self.browser_tz,
            r.browser_user_agent == self.browser_user_agent,
            r.browser_java_script_enabled == Some(false),
            r.browser_java_enabled == self.browser_java_enabled,
    {
        let mut r = self;
        r.browser_java_script_enabled = Some(false);
        r
    }

    /// Sets Java execution in a customer's browser to enabled.
    pub fn enable_java(self) -> (r: Self)
        ensures
            r.notification_url == self.notification_url,
            r.browser_language == self.browser_language,
            r.three_ds_requestor_url == self.three_ds_requestor_url,
            r.browser_screen_height == self.browser_screen_height,
            r.browser_color_depth == self.browser_color_depth,
            r.browser_screen_width == self.browser_screen_width,
            r.browser_accept_header == self.browser_accept_header,
            r.browser_tz == self.browser_tz,
            r.browser_user_agent == self.browser_user_agent,
            r.browser_java_script_enabled == self.browser_java_script_enabled,
            r.browser_java_enabled == Some(true),
    {
        let mut r = self;
        r.browser_java_enabled = Some(true);
        r
    }
}


/// Represents an MPI status.
#[derive(Clone, Copy, Debug, PartialEq, Eq, Structural)]
pub enum MpiStatus {
    /// In 3DS Version 1.0 represents the support for 3D Secure,
    /// in Version 2.0 - no additional verification required.
    Y,
    /// In Version 2.0 means no additional verification required.
    A,
    /// in Version 2.0 means that required additional verification.
    C,
    /// In 3DS Version 1.0 represents the lack of required 3DS verification,
    /// in Version 2.0 means client verification failed.
    N,
    /// In both 3DS Version 1.0 and  2.0 represents the failed card verification.
    U,
}

/// Represents the response to a 3D Secure card verification operation.
#[derive(Debug)]
pub struct MpiResponse {
    /// Represents the status of the request.
    /// Possible values are `error` - incorrect data, `failure` - payment failed.
    pub status: Status,
    /// Represents the result of the request.
    pub result: Option<Result>,
    /// Represents a required parameter for ACS authentication.
    pub mpi_req_md: Option<String>,
    /// Represents a required parameter for ACS authentication.
    pub mpi_re1q_pareq: Option<String>,
    /// Represents a #D Secure confirmation page URL.
    pub mpi_req_url: Option<String>,
    /// Represents a status of 3D Secure verification.
    pub mpi_status: Option<MpiStatus>,
    /// Contains the value "2.0" if the second version is supported, otherwise empty.
    pub mpi_version: Option<String>,
    /// Represents the authentication form if the second version is supported.
    pub mpi_form: Option<String>,
    /// Represents the required parameter for authentication for N and Y statuses.
    pub mpi_cres: Option<String>,
    /// Holds an error code.
    pub error_code: Option<String>,
    /// Holds an error description.
    pub error_description: Option<String>,
}

impl LiqPayResponse for MpiResponse {}

}
