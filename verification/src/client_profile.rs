//! Settings of a client: the signing algorithm, the language of error
//! messages, and the HTTP profile.

use crate::http_profile::{HttpProfile, HttpProfileView};
use vstd::prelude::*;

verus! {

/// Client settings.
#[derive(Clone, Debug)]
pub struct ClientProfile {
    pub http_profile: HttpProfile,
    pub sign_method: String,
    pub language: String,
    pub disable_region_breaker: bool,
    pub debug: bool,
}

/// What a [`ClientProfile`] holds, as mathematical values.
pub struct ClientProfileView {
    pub http_profile: HttpProfileView,
    pub sign_method: Seq<char>,
    pub language: Seq<char>,
    pub disable_region_breaker: bool,
    pub debug: bool,
}

impl View for ClientProfile {
    type V = ClientProfileView;

    open spec fn view(&self) -> ClientProfileView {
        ClientProfileView {
            http_profile: self.http_profile@,
            sign_method: self.sign_method@,
            language: self.language@,
            disable_region_breaker: self.disable_region_breaker,
            debug: self.debug,
        }
    }
}

impl Default for ClientProfile {
    /// The default HTTP profile, signed with TC3-HMAC-SHA256, messages in
    /// Chinese, the region breaker disabled and debugging off.
    fn default() -> (profile: Self)
        ensures
            profile@ == ClientProfile::default_view(),
            profile.http_profile.well_formed(),
    {
        ClientProfile {
            http_profile: HttpProfile::default(),
            sign_method: "TC3-HMAC-SHA256".to_owned(),
            language: "zh-CN".to_owned(),
            disable_region_breaker: true,
            debug: false,
        }
    }
}

impl ClientProfile {
    /// The model of the default profile.
    pub open spec fn default_view() -> ClientProfileView {
        ClientProfileView {
            http_profile: HttpProfile::default_view(),
            sign_method: "TC3-HMAC-SHA256"@,
            language: "zh-CN"@,
            disable_region_breaker: true,
            debug: false,
        }
    }

    /// Returns the profile with the debug flag set to `debug` and every other
    /// setting as it was.
    pub fn set_debug(self, debug: bool) -> (profile: Self)
        ensures
            profile.debug == debug,
            profile.http_profile == self.http_profile,
            profile.sign_method == self.sign_method,
            profile.language == self.language,
            profile.disable_region_breaker == self.disable_region_breaker,
    {
        let mut profile = self;
        profile.debug = debug;
        profile
    }
}

} // verus!
