//! What differs between the supported desktop platforms: script names, the
//! environment marker, the interpreter that runs scripts, the path separator.
use vstd::prelude::*;

verus! {

/// The target platform, chosen once at start-up.
#[derive(PartialEq, Eq, Structural, Clone, Copy, Debug)]
pub enum Platform {
    MacOs,
    Windows,
}

impl Platform {
    /// The script that starts the backend.
    pub fn launcher_script(&self) -> (r: &'static str)
        ensures
            r@ == launcher_name(*self),
    {
        match self {
            Platform::MacOs => "runlivuals_macos.sh",
            Platform::Windows => "runlivuals.bat",
        }
    }

    /// The script that installs the backend's environment.
    pub fn installer_script(&self) -> (r: &'static str)
        ensures
            r@ == installer_name(*self),
    {
        match self {
            Platform::MacOs => "install_macos.sh",
            Platform::Windows => "install.bat",
        }
    }

    /// The separator between path components, as text.
    pub fn separator(&self) -> (r: &'static str)
        ensures
            r@ == seq![separator_of(*self)],
    {
        match self {
            Platform::MacOs => {
                proof {
                    reveal_strlit("/");
                }
                "/"
            },
            Platform::Windows => {
                proof {
                    reveal_strlit("\\");
                }
                "\\"
            },
        }
    }
}

pub open spec fn launcher_name(p: Platform) -> Seq<char> {
    match p {
        Platform::MacOs => "runlivuals_macos.sh"@,
        Platform::Windows => "runlivuals.bat"@,
    }
}

pub open spec fn installer_name(p: Platform) -> Seq<char> {
    match p {
        Platform::MacOs => "install_macos.sh"@,
        Platform::Windows => "install.bat"@,
    }
}

pub open spec fn separator_of(p: Platform) -> char {
    match p {
        Platform::MacOs => '/',
        Platform::Windows => '\\',
    }
}

} // verus!
