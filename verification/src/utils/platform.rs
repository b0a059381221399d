//! The platform probe: which operating system runs, on which host, and
//! what that system says of itself.

use crate::snapshot::Snapshot;
use crate::text::{
    after_last, decode_utf8_lossy, last_segment, remove_char, trim, trimmed, utf8_lossy,
    without_char,
};
use crate::types::{CoreError, CoreErrorKind, CoreErrorModel};
use vstd::prelude::*;

verus! {

// ---------------------------------------------------------------------------
// Enumerations
// ---------------------------------------------------------------------------

/// The operating system family.
#[derive(Clone, Copy, Debug, PartialEq, Eq, Structural)]
pub enum Platform {
    Windows,
    MacOS,
    Linux,
    Unknown,
}

impl Platform {
    /// The family that a platform name stands for.
    pub open spec fn of_name(name: Seq<char>) -> Platform {
        if name == "windows"@ {
            Platform::Windows
        } else if name == "macos"@ {
            Platform::MacOS
        } else if name == "linux"@ {
            Platform::Linux
        } else {
            Platform::Unknown
        }
    }

    /// The name under which the family is shown.
    pub open spec fn label(self) -> Seq<char> {
        match self {
            Platform::Windows => "Windows"@,
            Platform::MacOS => "macOS"@,
            Platform::Linux => "Linux"@,
            Platform::Unknown => "Unknown"@,
        }
    }

    /// Tells the family from the name that the system gives its platform.
    pub fn from_name(name: &String) -> (platform: Platform)
        ensures
            platform == Platform::of_name(name@),
    {
        if *name == String::from_str("windows") {
            Platform::Windows
        } else if *name == String::from_str("macos") {
            Platform::MacOS
        } else if *name == String::from_str("linux") {
            Platform::Linux
        } else {
            Platform::Unknown
        }
    }

    /// The label as a string.
    pub fn to_string(&self) -> (s: String)
        ensures
            s@ == self.label(),
    {
        match self {
            Platform::Windows => String::from_str("Windows"),
            Platform::MacOS => String::from_str("macOS"),
            Platform::Linux => String::from_str("Linux"),
            Platform::Unknown => String::from_str("Unknown"),
        }
    }
}

/// The kind of chip in a Mac.
#[derive(Clone, Copy, Debug, PartialEq, Eq, Structural)]
pub enum ChipType {
    Intel,
    AppleSilicon,
}

impl ChipType {
    /// The name under which the chip type is shown.
    pub open spec fn label(self) -> Seq<char> {
        match self {
            ChipType::Intel => "x86_64"@,
            ChipType::AppleSilicon => "Apple Silicon"@,
        }
    }

    /// The label as a string.
    pub fn to_string(&self) -> (s: String)
        ensures
            s@ == self.label(),
    {
        match self {
            ChipType::Intel => String::from_str("x86_64"),
            ChipType::AppleSilicon => String::from_str("Apple Silicon"),
        }
    }
}

/// The graphics session of a Linux desktop.
#[derive(Clone, Copy, Debug, PartialEq, Eq, Structural)]
pub enum GraphicsPlatform {
    X11,
    Wayland,
    Unknown,
}

impl GraphicsPlatform {
    /// The graphics platform that a session type stands for.
    pub open spec fn of_session(session: Seq<char>) -> GraphicsPlatform {
        if session == "x11"@ {
            GraphicsPlatform::X11
        } else if session == "wayland"@ {
            GraphicsPlatform::Wayland
        } else {
            GraphicsPlatform::Unknown
        }
    }

    /// The name under which the graphics platform is shown.
    pub open spec fn label(self) -> Seq<char> {
        match self {
            GraphicsPlatform::X11 => "X11"@,
            GraphicsPlatform::Wayland => "Wayland"@,
            GraphicsPlatform::Unknown => "Unknown"@,
        }
    }

    /// Tells the graphics platform from the session type.
    pub fn from_session(session: &String) -> (graphics: GraphicsPlatform)
        ensures
            graphics == GraphicsPlatform::of_session(session@),
    {
        if *session == String::from_str("x11") {
            GraphicsPlatform::X11
        } else if *session == String::from_str("wayland") {
            GraphicsPlatform::Wayland
        } else {
            GraphicsPlatform::Unknown
        }
    }

    /// The label as a string.
    pub fn to_string(&self) -> (s: String)
        ensures
            s@ == self.label(),
    {
        match self {
            GraphicsPlatform::X11 => String::from_str("X11"),
            GraphicsPlatform::Wayland => String::from_str("Wayland"),
            GraphicsPlatform::Unknown => String::from_str("Unknown"),
        }
    }
}

// ---------------------------------------------------------------------------
// What is read from the system
// ---------------------------------------------------------------------------

/// The entries of the OS release file that the probe reads.
#[derive(Debug, PartialEq, Eq)]
pub struct OsRelease {
    pub id: String,
    pub id_like: String,
    pub name: String,
    pub pretty_name: String,
    pub version: String,
    pub version_id: String,
    pub version_codename: String,
    pub bug_report_url: String,
    pub support_url: String,
    pub home_url: String,
    pub privacy_policy_url: String,
    /// The entry `DOCUMENTATION_URL` as it stands in the file, if it is there.
    pub documentation_url: Option<String>,
}

/// What the Linux probe reads: the OS release file, or why it could not
/// be read, and the environment.
#[derive(Debug, PartialEq, Eq)]
pub struct LinuxFacts {
    pub release: Result<OsRelease, String>,
    /// `XDG_SESSION_TYPE`, or why it could not be had.
    pub session_type: Result<String, String>,
    /// `XDG_CURRENT_DESKTOP`.
    pub current_desktop: Option<String>,
    /// `DESKTOP_SESSION`.
    pub desktop_session: Option<String>,
    /// `SHELL`.
    pub shell: Option<String>,
}

/// What the macOS probe reads.
#[derive(Debug, PartialEq, Eq)]
pub struct MacOSFacts {
    /// What `sw_vers -productVersion` printed, where it ran.
    pub product_version: Option<Vec<u8>>,
    pub chip_type: ChipType,
    /// `SHELL`.
    pub shell: Option<String>,
}

/// What the probe of the operating system at hand reads.
#[derive(Debug, PartialEq, Eq)]
pub enum OsFacts {
    Windows,
    MacOS(MacOSFacts),
    Linux(LinuxFacts),
}

// ---------------------------------------------------------------------------
// What the probe returns
// ---------------------------------------------------------------------------

/// What Windows says of itself.
#[derive(Clone, Copy, Debug, PartialEq, Eq, Structural)]
pub struct WindowsInfo {}

/// What macOS says of itself.
#[derive(Debug, PartialEq, Eq)]
pub struct MacOSInfo {
    /// The macOS version.
    pub macos_version: String,
    /// The chip type.
    pub chip_type: ChipType,
    /// The user's shell.
    pub shell: String,
}

/// What a Linux distribution says of itself.
#[derive(Debug, PartialEq, Eq)]
pub struct LinuxInfo {
    /// The identifier of the distribution.
    pub id: String,
    /// The identifier of the distribution that this one derives from.
    pub id_like: String,
    /// The name of the release, without the version.
    pub name: String,
    /// The name of the release, with the version.
    pub pretty_name: String,
    /// The version of the release.
    pub version: String,
    /// The version of the release, with further details.
    pub version_id: String,
    /// The codename of the version.
    pub version_codename: String,
    /// The graphics platform of the session.
    pub graphics_platform: GraphicsPlatform,
    /// The desktop environment.
    pub desktop: String,
    /// The user's shell.
    pub shell: String,
    /// The bug report URL.
    pub bug_report_url: String,
    /// The support URL.
    pub support_url: String,
    /// The home URL.
    pub home_url: String,
    /// The privacy policy URL.
    pub privacy_policy_url: String,
    /// The documentation URL.
    pub documentation_url: String,
}

/// The part of the platform snapshot that depends on the operating system.
#[derive(Debug, PartialEq, Eq)]
pub enum OsInfo {
    Windows(WindowsInfo),
    MacOS(MacOSInfo),
    Linux(LinuxInfo),
}

/// The platform of the machine.
#[derive(Debug, PartialEq, Eq)]
pub struct PlatformInfo {
    /// The operating system family.
    pub platform: Platform,
    /// The host name.
    pub hostname: String,
    /// The architecture of the operating system.
    pub os_arch: String,
    /// The kernel version.
    pub kernel: String,
    /// What the operating system says of itself.
    pub os_info: OsInfo,
}

/// What a `MacOSInfo` says: its fields, with texts and lists as sequences.
pub ghost struct MacOSInfoModel {
    pub macos_version: Seq<char>,
    pub chip_type: ChipType,
    pub shell: Seq<char>,
}

/// What a `LinuxInfo` says: its fields, with texts and lists as sequences.
pub ghost struct LinuxInfoModel {
    pub id: Seq<char>,
    pub id_like: Seq<char>,
    pub name: Seq<char>,
    pub pretty_name: Seq<char>,
    pub version: Seq<char>,
    pub version_id: Seq<char>,
    pub version_codename: Seq<char>,
    pub graphics_platform: GraphicsPlatform,
    pub desktop: Seq<char>,
    pub shell: Seq<char>,
    pub bug_report_url: Seq<char>,
    pub support_url: Seq<char>,
    pub home_url: Seq<char>,
    pub privacy_policy_url: Seq<char>,
    pub documentation_url: Seq<char>,
}

/// What a `OsInfo` says: its fields, with texts and lists as sequences.
pub ghost enum OsInfoModel {
    Windows,
    MacOS(MacOSInfoModel),
    Linux(LinuxInfoModel),
}

/// What a `PlatformInfo` says: its fields, with texts and lists as sequences.
pub ghost struct PlatformInfoModel {
    pub platform: Platform,
    pub hostname: Seq<char>,
    pub os_arch: Seq<char>,
    pub kernel: Seq<char>,
    pub os_info: OsInfoModel,
}

impl DeepView for WindowsInfo {
    type V = WindowsInfo;

    open spec fn deep_view(&self) -> WindowsInfo {
        *self
    }
}

impl DeepView for MacOSInfo {
    type V = MacOSInfoModel;

    open spec fn deep_view(&self) -> MacOSInfoModel {
        MacOSInfoModel {
            macos_version: self.macos_version@,
            chip_type: self.chip_type,
            shell: self.shell@,
        }
    }
}

impl DeepView for LinuxInfo {
    type V = LinuxInfoModel;

    open spec fn deep_view(&self) -> LinuxInfoModel {
        LinuxInfoModel {
            id: self.id@,
            id_like: self.id_like@,
            name: self.name@,
            pretty_name: self.pretty_name@,
            version: self.version@,
            version_id: self.version_id@,
            version_codename: self.version_codename@,
            graphics_platform: self.graphics_platform,
            desktop: self.desktop@,
            shell: self.shell@,
            bug_report_url: self.bug_report_url@,
            support_url: self.support_url@,
            home_url: self.home_url@,
            privacy_policy_url: self.privacy_policy_url@,
            documentation_url: self.documentation_url@,
        }
    }
}

impl DeepView for OsInfo {
    type V = OsInfoModel;

    open spec fn deep_view(&self) -> OsInfoModel {
        match self {
            OsInfo::Windows(_) => OsInfoModel::Windows,
            OsInfo::MacOS(info) => OsInfoModel::MacOS(info.deep_view()),
            OsInfo::Linux(info) => OsInfoModel::Linux(info.deep_view()),
        }
    }
}

impl DeepView for PlatformInfo {
    type V = PlatformInfoModel;

    open spec fn deep_view(&self) -> PlatformInfoModel {
        PlatformInfoModel {
            platform: self.platform,
            hostname: self.hostname@,
            os_arch: self.os_arch@,
            kernel: self.kernel@,
            os_info: self.os_info.deep_view(),
        }
    }
}

impl Snapshot for WindowsInfo {
    fn duplicate(&self) -> (copy: WindowsInfo) {
        *self
    }
}

impl Snapshot for MacOSInfo {
    fn duplicate(&self) -> (copy: MacOSInfo) {
        MacOSInfo {
            macos_version: self.macos_version.clone(),
            chip_type: self.chip_type,
            shell: self.shell.clone(),
        }
    }
}

impl Snapshot for LinuxInfo {
    fn duplicate(&self) -> (copy: LinuxInfo) {
        LinuxInfo {
            id: self.id.clone(),
            id_like: self.id_like.clone(),
            name: self.name.clone(),
            pretty_name: self.pretty_name.clone(),
            version: self.version.clone(),
            version_id: self.version_id.clone(),
            version_codename: self.version_codename.clone(),
            graphics_platform: self.graphics_platform,
            desktop: self.desktop.clone(),
            shell: self.shell.clone(),
            bug_report_url: self.bug_report_url.clone(),
            support_url: self.support_url.clone(),
            home_url: self.home_url.clone(),
            privacy_policy_url: self.privacy_policy_url.clone(),
            documentation_url: self.documentation_url.clone(),
        }
    }
}

impl Snapshot for OsInfo {
    fn duplicate(&self) -> (copy: OsInfo) {
        match self {
            OsInfo::Windows(info) => OsInfo::Windows(info.duplicate()),
            OsInfo::MacOS(info) => OsInfo::MacOS(info.duplicate()),
            OsInfo::Linux(info) => OsInfo::Linux(info.duplicate()),
        }
    }
}

impl Snapshot for PlatformInfo {
    fn duplicate(&self) -> (copy: PlatformInfo) {
        PlatformInfo {
            platform: self.platform,
            hostname: self.hostname.clone(),
            os_arch: self.os_arch.clone(),
            kernel: self.kernel.clone(),
            os_info: self.os_info.duplicate(),
        }
    }
}

// ---------------------------------------------------------------------------
// The model
// ---------------------------------------------------------------------------

/// A text that may be missing, with `Unknown` in its place.
pub open spec fn or_unknown(text: Option<String>) -> Seq<char> {
    match text {
        Some(t) => t@,
        None => "Unknown"@,
    }
}

/// The name of the shell: what follows the last `/` of its path.
pub open spec fn shell_name(shell: Option<String>) -> Seq<char> {
    after_last(or_unknown(shell), '/')
}

/// The desktop environment: the current desktop, else the desktop session,
/// else `Unknown`.
pub open spec fn desktop_name(
    current_desktop: Option<String>,
    desktop_session: Option<String>,
) -> Seq<char> {
    match current_desktop {
        Some(d) => d@,
        None => or_unknown(desktop_session),
    }
}

/// The documentation URL: the entry without its quotes; empty where the
/// file has no such entry.
pub open spec fn documentation_url_of(entry: Option<String>) -> Seq<char> {
    match entry {
        Some(url) => without_char(url@, '"'),
        None => Seq::empty(),
    }
}

/// Why the Linux probe fails, if it does: the release file comes first,
/// then the session type.
pub open spec fn linux_failure(facts: LinuxFacts) -> Option<Seq<char>> {
    match facts.release {
        Err(message) => Some(message@),
        Ok(_) => match facts.session_type {
            Err(message) => Some(message@),
            Ok(_) => None,
        },
    }
}

/// What the Linux facts say.
pub open spec fn linux_model(facts: LinuxFacts) -> LinuxInfoModel {
    let release = facts.release->Ok_0;
    LinuxInfoModel {
        id: release.id@,
        id_like: release.id_like@,
        name: release.name@,
        pretty_name: release.pretty_name@,
        version: release.version@,
        version_id: release.version_id@,
        version_codename: release.version_codename@,
        graphics_platform: GraphicsPlatform::of_session(facts.session_type->Ok_0@),
        desktop: desktop_name(facts.current_desktop, facts.desktop_session),
        shell: shell_name(facts.shell),
        bug_report_url: release.bug_report_url@,
        support_url: release.support_url@,
        home_url: release.home_url@,
        privacy_policy_url: release.privacy_policy_url@,
        documentation_url: documentation_url_of(release.documentation_url),
    }
}

/// The macOS version: what the version tool printed, trimmed; `Unknown`
/// where it did not run.
pub open spec fn macos_version_of(product_version: Option<Vec<u8>>) -> Seq<char> {
    match product_version {
        Some(printed) => trimmed(utf8_lossy(printed@)),
        None => "Unknown"@,
    }
}

/// What the macOS facts say.
pub open spec fn macos_model(facts: MacOSFacts) -> MacOSInfoModel {
    MacOSInfoModel {
        macos_version: macos_version_of(facts.product_version),
        chip_type: facts.chip_type,
        shell: shell_name(facts.shell),
    }
}

/// Why the probe of the operating system at hand fails, if it does.
pub open spec fn os_failure(facts: OsFacts) -> Option<Seq<char>> {
    match facts {
        OsFacts::Linux(linux) => linux_failure(linux),
        _ => None,
    }
}

/// What the facts of the operating system at hand say.
pub open spec fn os_model(facts: OsFacts) -> OsInfoModel {
    match facts {
        OsFacts::Windows => OsInfoModel::Windows,
        OsFacts::MacOS(macos) => OsInfoModel::MacOS(macos_model(macos)),
        OsFacts::Linux(linux) => OsInfoModel::Linux(linux_model(linux)),
    }
}

/// The kernel version; empty where the system told none.
pub open spec fn kernel_of(kernel: Option<String>) -> Seq<char> {
    match kernel {
        Some(k) => k@,
        None => Seq::empty(),
    }
}

// ---------------------------------------------------------------------------
// The code
// ---------------------------------------------------------------------------

fn text_or_unknown(text: &Option<String>) -> (s: String)
    ensures
        s@ == or_unknown(*text),
{
    match text {
        Some(t) => t.clone(),
        None => String::from_str("Unknown"),
    }
}

/// The name of the shell from the path in `SHELL`.
pub fn shell_from(shell: &Option<String>) -> (name: String)
    ensures
        name@ == shell_name(*shell),
{
    let path = text_or_unknown(shell);
    last_segment(path.as_str(), '/')
}

/// The desktop environment from `XDG_CURRENT_DESKTOP` and `DESKTOP_SESSION`.
pub fn desktop_from(current_desktop: &Option<String>, desktop_session: &Option<String>) -> (name:
    String)
    ensures
        name@ == desktop_name(*current_desktop, *desktop_session),
{
    match current_desktop {
        Some(d) => d.clone(),
        None => text_or_unknown(desktop_session),
    }
}

impl WindowsInfo {
    /// What Windows says of itself: nothing so far, and never a failure.
    pub fn get() -> (r: Result<WindowsInfo, CoreError>)
        ensures
            r == Ok::<WindowsInfo, CoreError>(WindowsInfo {  }),
    {
        Ok(WindowsInfo {  })
    }
}

impl MacOSInfo {
    /// The snapshot from the text that the version tool printed, if it
    /// ran, the chip type and the shell path.
    pub fn from_text(printed: Option<String>, chip_type: ChipType, shell: &Option<String>) -> (info:
        MacOSInfo)
        ensures
            info.deep_view() == (MacOSInfoModel {
                macos_version: match printed {
                    Some(text) => trimmed(text@),
                    None => "Unknown"@,
                },
                chip_type,
                shell: shell_name(*shell),
            }),
    {
        let macos_version = match printed {
            Some(text) => trim(text.as_str()),
            None => String::from_str("Unknown"),
        };
        MacOSInfo { macos_version, chip_type, shell: shell_from(shell) }
    }

    /// What macOS says of itself; the probe never fails.
    pub fn get(facts: MacOSFacts) -> (r: Result<MacOSInfo, CoreError>)
        ensures
            r matches Ok(info) && info.deep_view() == macos_model(facts),
    {
        let printed = match &facts.product_version {
            Some(bytes) => Some(decode_utf8_lossy(bytes.as_slice())),
            None => None,
        };
        Ok(MacOSInfo::from_text(printed, facts.chip_type, &facts.shell))
    }
}

impl LinuxInfo {
    /// What the Linux distribution says of itself. The probe fails, with
    /// the catch-all error kind, where the release file could not be read or
    /// the session type could not be had.
    pub fn get(facts: LinuxFacts) -> (r: Result<LinuxInfo, CoreError>)
        ensures
            match r {
                Ok(info) => linux_failure(facts) is None && info.deep_view() == linux_model(facts),
                Err(e) => linux_failure(facts) matches Some(detail) && e.deep_view() == (
                CoreErrorModel { kind: CoreErrorKind::Error, detail }),
            },
    {
        let desktop = desktop_from(&facts.current_desktop, &facts.desktop_session);
        let shell = shell_from(&facts.shell);
        let release = match facts.release {
            Ok(release) => release,
            Err(message) => {
                return Err(CoreError::new(CoreErrorKind::Error, message));
            },
        };
        let session = match facts.session_type {
            Ok(session) => session,
            Err(message) => {
                return Err(CoreError::new(CoreErrorKind::Error, message));
            },
        };
        let documentation_url = match &release.documentation_url {
            Some(url) => remove_char(url.as_str(), '"'),
            None => String::new(),
        };
        Ok(
            LinuxInfo {
                id: release.id,
                id_like: release.id_like,
                name: release.name,
                pretty_name: release.pretty_name,
                version: release.version,
                version_id: release.version_id,
                version_codename: release.version_codename,
                graphics_platform: GraphicsPlatform::from_session(&session),
                desktop,
                shell,
                bug_report_url: release.bug_report_url,
                support_url: release.support_url,
                home_url: release.home_url,
                privacy_policy_url: release.privacy_policy_url,
                documentation_url,
            },
        )
    }
}

impl PlatformInfo {
    /// The platform snapshot: the family told from the platform name, host
    /// name and architecture as they are, the kernel version or an empty
    /// text, and what the operating system at hand says of itself. The probe
    /// fails exactly where the probe of that operating system fails, with
    /// its error.
    pub fn get(
        hostname: String,
        os_arch: String,
        kernel: Option<String>,
        platform_name: &String,
        os: OsFacts,
    ) -> (r: Result<PlatformInfo, CoreError>)
        ensures
            match r {
                Ok(info) => os_failure(os) is None && info.deep_view() == (PlatformInfoModel {
                    platform: Platform::of_name(platform_name@),
                    hostname: hostname@,
                    os_arch: os_arch@,
                    kernel: kernel_of(kernel),
                    os_info: os_model(os),
                }),
                Err(e) => os_failure(os) matches Some(detail) && e.deep_view() == (CoreErrorModel {
                    kind: CoreErrorKind::Error,
                    detail,
                }),
            },
    {
        let platform = Platform::from_name(platform_name);
        let kernel = match kernel {
            Some(k) => k,
            None => String::new(),
        };
        let os_info = match os {
            OsFacts::Windows => match WindowsInfo::get() {
                Ok(info) => OsInfo::Windows(info),
                Err(e) => {
                    return Err(e);
                },
            },
            OsFacts::MacOS(facts) => match MacOSInfo::get(facts) {
                Ok(info) => OsInfo::MacOS(info),
                Err(e) => {
                    return Err(e);
                },
            },
            OsFacts::Linux(facts) => match LinuxInfo::get(facts) {
                Ok(info) => OsInfo::Linux(info),
                Err(e) => {
                    return Err(e);
                },
            },
        };
        Ok(PlatformInfo { platform, hostname, os_arch, kernel, os_info })
    }
}

} // verus!
