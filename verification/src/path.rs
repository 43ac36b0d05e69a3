//! Path strings under an explicit platform convention.

use vstd::prelude::*;
use vstd::string::*;

verus! {

/// The path convention of the machine the pipeline runs on.
#[derive(Clone, Copy, Debug, PartialEq, Eq, Structural)]
pub enum Platform {
    /// `/` separates components; executables carry no suffix.
    Unix,
    /// `\` separates components, `/` is understood too; executables end in `.exe`.
    Windows,
}

impl Platform {
    /// The text put between two components.
    pub open spec fn separator_spec(self) -> Seq<char> {
        match self {
            Platform::Unix => "/"@,
            Platform::Windows => "\\"@,
        }
    }

    /// Whether `c` ends a component.
    pub open spec fn is_separator_spec(self, c: char) -> bool {
        c == '/' || (self == Platform::Windows && c == '\\')
    }

    /// What is appended to a package name to name its executable.
    pub open spec fn exe_suffix_spec(self) -> Seq<char> {
        match self {
            Platform::Unix => Seq::empty(),
            Platform::Windows => ".exe"@,
        }
    }

    /// The text put between two components.
    pub fn separator(self) -> (s: &'static str)
        ensures
            s@ == self.separator_spec(),
    {
        match self {
            Platform::Unix => "/",
            Platform::Windows => "\\",
        }
    }

    /// Whether `c` ends a component.
    pub fn is_separator(self, c: char) -> (b: bool)
        ensures
            b == self.is_separator_spec(c),
    {
        match self {
            Platform::Unix => c == '/',
            Platform::Windows => c == '/' || c == '\\',
        }
    }
}

/// `part` placed under `base`: a `part` that starts at a root stands alone,
/// and a separator is added only where `base` does not already end in one.
pub open spec fn join_spec(base: Seq<char>, part: Seq<char>, platform: Platform) -> Seq<char> {
    if part.len() > 0 && platform.is_separator_spec(part[0]) {
        part
    } else if base.len() == 0 || platform.is_separator_spec(base.last()) {
        base + part
    } else {
        base + platform.separator_spec() + part
    }
}

/// Joins two path strings.
pub fn join(base: &str, part: &str, platform: Platform) -> (out: String)
    ensures
        out@ == join_spec(base@, part@, platform),
{
    let part_len: usize = part.unicode_len();
    if part_len > 0 && platform.is_separator(part.get_char(0)) {
        return String::from_str(part);
    }
    let base_len: usize = base.unicode_len();
    let mut out = String::from_str(base);
    if base_len > 0 && !platform.is_separator(base.get_char(base_len - 1)) {
        out.append(platform.separator());
    }
    out.append(part);
    out
}

/// The name of the executable built from package `package`.
pub open spec fn binary_name_spec(package: Seq<char>, platform: Platform) -> Seq<char> {
    package + platform.exe_suffix_spec()
}

/// Names the executable of a package: the package name itself, with `.exe`
/// appended under the Windows convention.
pub fn binary_name(package: &str, platform: Platform) -> (out: String)
    ensures
        out@ == binary_name_spec(package@, platform),
        platform == Platform::Unix ==> out@ == package@,
        platform == Platform::Windows ==> out@ == package@ + ".exe"@,
{
    let mut out = String::from_str(package);
    match platform {
        Platform::Unix => {},
        Platform::Windows => {
            out.append(".exe");
        },
    }
    out
}

/// The build configuration.
#[derive(Clone, Copy, Debug, PartialEq, Eq, Structural)]
pub enum Profile {
    /// Optimised.
    Release,
    /// Not optimised.
    Debug,
}

impl Profile {
    /// The directory under `target` that holds this profile's artifacts.
    pub open spec fn dir_name_spec(self) -> Seq<char> {
        match self {
            Profile::Release => "release"@,
            Profile::Debug => "debug"@,
        }
    }

    /// The directory under `target` that holds this profile's artifacts.
    pub fn dir_name(self) -> (s: &'static str)
        ensures
            s@ == self.dir_name_spec(),
    {
        match self {
            Profile::Release => "release",
            Profile::Debug => "debug",
        }
    }

    /// What `from_name` makes of a profile's name.
    pub open spec fn from_name_spec(name: Seq<char>) -> Option<Profile> {
        if name == "release"@ {
            Some(Profile::Release)
        } else if name == "debug"@ {
            Some(Profile::Debug)
        } else {
            None
        }
    }

    /// Reads a profile from its name: `release` or `debug`, nothing else.
    pub fn from_name(name: &str) -> (p: Option<Profile>)
        ensures
            p == Profile::from_name_spec(name@),
    {
        let owned = String::from_str(name);
        if owned == String::from_str("release") {
            Some(Profile::Release)
        } else if owned == String::from_str("debug") {
            Some(Profile::Debug)
        } else {
            None
        }
    }
}

/// Where the build leaves the executable:
/// `project_path/target/<profile>/<binary name>`.
pub open spec fn artifact_path_spec(
    project_path: Seq<char>,
    profile: Profile,
    package: Seq<char>,
    platform: Platform,
) -> Seq<char> {
    join_spec(
        join_spec(join_spec(project_path, "target"@, platform), profile.dir_name_spec(), platform),
        binary_name_spec(package, platform),
        platform,
    )
}

/// Computes the expected location of the compiled binary. Nothing is looked
/// up on disk: whether the file exists shows when it is copied.
pub fn artifact_path(project_path: &str, profile: Profile, package: &str, platform: Platform) -> (out:
    String)
    ensures
        out@ == artifact_path_spec(project_path@, profile, package@, platform),
{
    let target = join(project_path, "target", platform);
    let dir = join(target.as_str(), profile.dir_name(), platform);
    let name = binary_name(package, platform);
    join(dir.as_str(), name.as_str(), platform)
}

} // verus!
