//! The configuration model: the data shape collected from the user, built
//! once per run, immutable once built and consumed exactly once by the
//! application pipeline.

use vstd::prelude::*;

verus! {

/// The locale chosen for the system, as a locale identifier string
/// (a language/region/encoding tag).
pub struct Locale {
    pub locale: String,
}

/// The timezone chosen for the system, naming one zoneinfo entry
/// (a region/city pair).
pub struct Timezone {
    pub data: String,
}

/// The requested swap file. `size` is a byte count; zero means that no
/// swap file is requested.
pub struct SwapFile {
    pub size: u64,
}

/// One user-submitted first-boot configuration.
///
/// Field invariants are enforced upstream by the validators before a value
/// is built, and the pipeline does not re-check them: the username passed
/// `validate_username`, the optional full name passed
/// `vaildation_fullname`, the hostname passed `validate_hostname`, the
/// password is non-empty, and the locale is drawn from the bundled
/// supported-locale list.
pub struct OobeConfig {
    pub locale: Locale,
    pub user: String,
    pub pwd: String,
    pub fullname: Option<String>,
    pub hostname: String,
    pub rtc_as_localtime: bool,
    pub timezone: Timezone,
    pub swapfile: SwapFile,
}

/// The mathematical content of a configuration: each string as its
/// character sequence, the swap size as its byte count.
pub struct ConfigView {
    pub locale: Seq<char>,
    pub user: Seq<char>,
    pub pwd: Seq<char>,
    pub fullname: Option<Seq<char>>,
    pub hostname: Seq<char>,
    pub rtc_as_localtime: bool,
    pub timezone: Seq<char>,
    pub swap_size: u64,
}

impl View for OobeConfig {
    type V = ConfigView;

    open spec fn view(&self) -> ConfigView {
        ConfigView {
            locale: self.locale.locale@,
            user: self.user@,
            pwd: self.pwd@,
            fullname: match self.fullname {
                Option::Some(f) => Option::Some(f@),
                Option::None => Option::None,
            },
            hostname: self.hostname@,
            rtc_as_localtime: self.rtc_as_localtime,
            timezone: self.timezone.data@,
            swap_size: self.swapfile.size,
        }
    }
}

/// An error reported back to a front-end command surface, reduced to one
/// message string propagated verbatim from the failing step.
pub struct CommandError(pub String);

impl CommandError {
    /// The propagated message.
    pub fn message(&self) -> (r: &String)
        ensures
            r@ == self.0@,
    {
        &self.0
    }
}

} // verus!
