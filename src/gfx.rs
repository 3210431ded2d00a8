//! Graphics modes and the action that switching to one requires.
use vstd::prelude::*;

verus! {

/// The graphics vendor modes.
#[derive(Debug, Clone, Copy, PartialEq, Eq, Structural)]
pub enum GfxVendors {
    Nvidia,
    Integrated,
    Compute,
    Hybrid,
}

/// What the user must do for a mode change to take effect.
#[derive(Debug, Clone, Copy, PartialEq, Eq, Structural)]
pub enum GfxCtrlAction {
    Reboot,
    RestartX,
    NoAction,
}

#[derive(Debug, Clone, Copy, PartialEq, Eq, Structural)]
pub enum GfxError {
    ParseVendor,
}

/// The lowercase form of a text, as `str::to_lowercase` gives it.
pub uninterp spec fn lower_of(s: Seq<char>) -> Seq<char>;

/// Relies on `str::to_lowercase`: the result depends on the characters
/// alone, and an empty text stays empty.
#[verifier::external_body]
fn lowercase(s: &str) -> (r: String)
    ensures
        r@ == lower_of(s@),
        s@.len() == 0 ==> r@.len() == 0,
{
    s.to_lowercase()
}

/// Whether two texts are equal.
fn same_text(a: &str, b: &str) -> (r: bool)
    ensures
        r == (a@ == b@),
{
    a.to_owned() == b.to_owned()
}

/// The vendor mode named by lowercase `t`, a trailing newline allowed.
pub open spec fn vendor_of(t: Seq<char>) -> Result<GfxVendors, GfxError> {
    if t == "nvidia"@ || t == "nvidia\n"@ {
        Ok(GfxVendors::Nvidia)
    } else if t == "hybrid"@ || t == "hybrid\n"@ {
        Ok(GfxVendors::Hybrid)
    } else if t == "compute"@ || t == "compute\n"@ {
        Ok(GfxVendors::Compute)
    } else if t == "integrated"@ || t == "integrated\n"@ {
        Ok(GfxVendors::Integrated)
    } else {
        Err(GfxError::ParseVendor)
    }
}

/// The action named by lowercase `t`.
pub open spec fn action_of(t: Seq<char>) -> Result<GfxCtrlAction, GfxError> {
    if t == "reboot"@ {
        Ok(GfxCtrlAction::Reboot)
    } else if t == "restartx"@ {
        Ok(GfxCtrlAction::RestartX)
    } else if t == "none"@ {
        Ok(GfxCtrlAction::NoAction)
    } else {
        Err(GfxError::ParseVendor)
    }
}

impl GfxVendors {
    /// The mode named by `t`, which is already in lowercase.
    pub fn from_lowercase(t: &str) -> (r: Result<GfxVendors, GfxError>)
        ensures
            r == vendor_of(t@),
    {
        if same_text(t, "nvidia") || same_text(t, "nvidia\n") {
            Ok(GfxVendors::Nvidia)
        } else if same_text(t, "hybrid") || same_text(t, "hybrid\n") {
            Ok(GfxVendors::Hybrid)
        } else if same_text(t, "compute") || same_text(t, "compute\n") {
            Ok(GfxVendors::Compute)
        } else if same_text(t, "integrated") || same_text(t, "integrated\n") {
            Ok(GfxVendors::Integrated)
        } else {
            Err(GfxError::ParseVendor)
        }
    }

    /// The mode named by `s`, in any case.
    pub fn parse(s: &str) -> (r: Result<GfxVendors, GfxError>)
        ensures
            r == vendor_of(lower_of(s@)),
    {
        let t = lowercase(s);
        Self::from_lowercase(t.as_str())
    }

    pub open spec fn spec_name(self) -> Seq<char> {
        match self {
            GfxVendors::Nvidia => "nvidia"@,
            GfxVendors::Hybrid => "hybrid"@,
            GfxVendors::Compute => "compute"@,
            GfxVendors::Integrated => "integrated"@,
        }
    }

    pub fn as_str(&self) -> (r: &'static str)
        ensures
            r@ == self.spec_name(),
    {
        match self {
            GfxVendors::Nvidia => "nvidia",
            GfxVendors::Hybrid => "hybrid",
            GfxVendors::Compute => "compute",
            GfxVendors::Integrated => "integrated",
        }
    }
}

impl GfxCtrlAction {
    /// The action named by `t`, which is already in lowercase.
    pub fn from_lowercase(t: &str) -> (r: Result<GfxCtrlAction, GfxError>)
        ensures
            r == action_of(t@),
    {
        if same_text(t, "reboot") {
            Ok(GfxCtrlAction::Reboot)
        } else if same_text(t, "restartx") {
            Ok(GfxCtrlAction::RestartX)
        } else if same_text(t, "none") {
            Ok(GfxCtrlAction::NoAction)
        } else {
            Err(GfxError::ParseVendor)
        }
    }

    /// The action named by `s`, in any case.
    pub fn parse(s: &str) -> (r: Result<GfxCtrlAction, GfxError>)
        ensures
            r == action_of(lower_of(s@)),
    {
        let t = lowercase(s);
        Self::from_lowercase(t.as_str())
    }

    pub open spec fn spec_name(self) -> Seq<char> {
        match self {
            GfxCtrlAction::Reboot => "reboot"@,
            GfxCtrlAction::RestartX => "restartx"@,
            GfxCtrlAction::NoAction => "none"@,
        }
    }

    pub fn as_str(&self) -> (r: &'static str)
        ensures
            r@ == self.spec_name(),
    {
        match self {
            GfxCtrlAction::Reboot => "reboot",
            GfxCtrlAction::RestartX => "restartx",
            GfxCtrlAction::NoAction => "none",
        }
    }
}

impl std::str::FromStr for GfxVendors {
    type Err = GfxError;

    fn from_str(s: &str) -> Result<GfxVendors, GfxError> {
        GfxVendors::parse(s)
    }
}

impl std::str::FromStr for GfxCtrlAction {
    type Err = GfxError;

    fn from_str(s: &str) -> Result<GfxCtrlAction, GfxError> {
        GfxCtrlAction::parse(s)
    }
}

} // verus!
