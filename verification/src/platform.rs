//! What differs between the operating systems the tray runs on.

use vstd::prelude::*;

verus! {

/// An operating system family.
#[derive(Clone, Copy, Debug, PartialEq, Eq, Structural)]
pub enum Platform {
    Windows,
    MacOs,
    Linux,
}

/// How the application's window is brought up.
#[derive(Clone, Copy, Debug, PartialEq, Eq, Structural)]
pub enum OpenStrategy {
    /// Start the program again.
    Relaunch,
    /// Ask the instance that already runs to show itself.
    Activate,
    /// Ask the instance that already runs, and start the program again if
    /// that fails.
    ActivateOrRelaunch,
}

impl Platform {
    /// Whether the local service pushes session counts on this platform.
    pub open spec fn feeds_session_count(self) -> bool {
        self == Platform::Windows
    }

    /// Whether a left click on the icon opens the application.
    pub open spec fn opens_on_click(self) -> bool {
        self == Platform::Windows
    }

    /// How "Open" is carried out. A build without the embedded user
    /// interface (`embedded_ui` false) always starts the program again.
    pub open spec fn open_strategy_of(self, embedded_ui: bool) -> OpenStrategy {
        if !embedded_ui {
            OpenStrategy::Relaunch
        } else {
            match self {
                Platform::Windows => OpenStrategy::Relaunch,
                Platform::MacOs => OpenStrategy::Activate,
                Platform::Linux => OpenStrategy::ActivateOrRelaunch,
            }
        }
    }

    /// Where the installed icon lies, relative to the executable's directory.
    pub open spec fn installed_icon_path_text(self) -> Seq<char> {
        match self {
            Platform::Windows => "data\\flutter_assets\\assets\\icon.png"@,
            Platform::MacOs => "../Frameworks/App.framework/Resources/flutter_assets/assets/icon.png"@,
            Platform::Linux => "data/flutter_assets/assets/icon.png"@,
        }
    }

    /// Tells whether the session-count feed runs on this platform.
    pub fn has_session_feed(self) -> (b: bool)
        ensures
            b == self.feeds_session_count(),
    {
        match self {
            Platform::Windows => true,
            _ => false,
        }
    }

    /// Tells whether a left click on the icon opens the application.
    pub fn handles_click(self) -> (b: bool)
        ensures
            b == self.opens_on_click(),
    {
        match self {
            Platform::Windows => true,
            _ => false,
        }
    }

    /// Picks the way "Open" is carried out.
    pub fn open_strategy(self, embedded_ui: bool) -> (s: OpenStrategy)
        ensures
            s == self.open_strategy_of(embedded_ui),
    {
        if !embedded_ui {
            OpenStrategy::Relaunch
        } else {
            match self {
                Platform::Windows => OpenStrategy::Relaunch,
                Platform::MacOs => OpenStrategy::Activate,
                Platform::Linux => OpenStrategy::ActivateOrRelaunch,
            }
        }
    }

    /// The path of the installed icon, relative to the directory of the
    /// running executable.
    pub fn installed_icon_path(self) -> (path: &'static str)
        ensures
            path@ == self.installed_icon_path_text(),
    {
        match self {
            Platform::Windows => "data\\flutter_assets\\assets\\icon.png",
            Platform::MacOs => "../Frameworks/App.framework/Resources/flutter_assets/assets/icon.png",
            Platform::Linux => "data/flutter_assets/assets/icon.png",
        }
    }
}

impl OpenStrategy {
    /// Whether the running instance is asked first.
    pub open spec fn asks_running_instance(self) -> bool {
        self != OpenStrategy::Relaunch
    }

    /// Whether the program is started again, given how asking the running
    /// instance went (`activated`; not read where nothing is asked).
    pub open spec fn relaunches(self, activated: bool) -> bool {
        match self {
            OpenStrategy::Relaunch => true,
            OpenStrategy::Activate => false,
            OpenStrategy::ActivateOrRelaunch => !activated,
        }
    }

    /// Tells whether to ask the running instance to show itself.
    pub fn activates_first(self) -> (b: bool)
        ensures
            b == self.asks_running_instance(),
    {
        match self {
            OpenStrategy::Relaunch => false,
            _ => true,
        }
    }

    /// Tells whether to start the program again.
    pub fn needs_relaunch(self, activated: bool) -> (b: bool)
        ensures
            b == self.relaunches(activated),
    {
        match self {
            OpenStrategy::Relaunch => true,
            OpenStrategy::Activate => false,
            OpenStrategy::ActivateOrRelaunch => !activated,
        }
    }
}

} // verus!
