//! The slice of the application settings this subsystem reads and edits:
//! which core binary is selected and whether the privileged
//! traffic-interception feature is requested.

use crate::extstr::SmartText;
use crate::extstr::smart_as_str;
use crate::extstr::smart_chars;
use crate::extstr::smart_clone;
use crate::extstr::smart_from_str;
use vstd::prelude::*;

verus! {

/// The allow-list of supported core binaries: a requested identifier is
/// accepted exactly when it is one of these.
pub open spec fn spec_is_valid_core(name: Seq<char>) -> bool {
    name == "verge-mihomo"@ || name == "verge-mihomo-alpha"@
}

/// Decide whether `name` is a supported core binary.
pub fn is_valid_core(name: &str) -> (b: bool)
    ensures
        b == spec_is_valid_core(name@),
{
    let owned = name.to_owned();
    let mihomo = String::from_str("verge-mihomo");
    let alpha = String::from_str("verge-mihomo-alpha");
    owned == mihomo || owned == alpha
}

/// The settings state, as the coordinator sees it.
pub ghost struct ConfigModel {
    /// The selected core binary, if one was ever chosen.
    pub clash_core: Option<Seq<char>>,
    /// Whether the privileged traffic-interception feature is requested.
    pub enable_tun_mode: Option<bool>,
}

/// The settings this subsystem consults: the selected core binary and the
/// flag that makes startup wait for the privileged service.
pub struct CoreConfig {
    clash_core: Option<SmartText>,
    enable_tun_mode: Option<bool>,
}

impl View for CoreConfig {
    type V = ConfigModel;

    closed spec fn view(&self) -> ConfigModel {
        ConfigModel {
            clash_core: match self.clash_core {
                Some(s) => Some(smart_chars(s)),
                None => None,
            },
            enable_tun_mode: self.enable_tun_mode,
        }
    }
}

/// The core binary the configuration resolves to: the selected one when it
/// is set and supported, else the default.
pub open spec fn spec_resolved_core(c: ConfigModel) -> Seq<char> {
    match c.clash_core {
        Some(name) => if spec_is_valid_core(name) {
            name
        } else {
            "verge-mihomo"@
        },
        None => "verge-mihomo"@,
    }
}

impl CoreConfig {
    /// Build the settings state handed over by the host application.
    pub fn new(clash_core: Option<SmartText>, enable_tun_mode: Option<bool>) -> (c: CoreConfig)
        ensures
            c@.clash_core == match clash_core {
                Some(s) => Some(smart_chars(s)),
                None => None::<Seq<char>>,
            },
            c@.enable_tun_mode == enable_tun_mode,
    {
        CoreConfig { clash_core, enable_tun_mode }
    }

    /// The core binary to spawn or hand to the service: the configured
    /// selection when it is supported, else the default.
    pub fn get_valid_clash_core(&self) -> (r: SmartText)
        ensures
            smart_chars(r) == spec_resolved_core(self@),
    {
        match &self.clash_core {
            Some(s) => {
                if is_valid_core(smart_as_str(s)) {
                    smart_clone(s)
                } else {
                    smart_from_str("verge-mihomo")
                }
            },
            None => smart_from_str("verge-mihomo"),
        }
    }

    /// Whether startup must wait for the privileged service before picking
    /// a mode: the traffic-interception feature defaults to off.
    pub fn tun_mode_enabled(&self) -> (b: bool)
        ensures
            b == (self@.enable_tun_mode == Some(true)),
    {
        match self.enable_tun_mode {
            Some(b) => b,
            None => false,
        }
    }

    /// Commit a new core selection into the settings.
    pub fn set_clash_core(&mut self, core: SmartText)
        ensures
            final(self)@.clash_core == Some(smart_chars(core)),
            final(self)@.enable_tun_mode == old(self)@.enable_tun_mode,
    {
        self.clash_core = Some(core);
    }
}

} // verus!
