//! How the program was installed.
use vstd::prelude::*;
use vstd::string::*;

verus! {

/// How the program was installed: by `cargo install`, or as a downloaded binary.
#[derive(Debug, Clone, Copy, PartialEq, Eq, Structural)]
pub enum InstallMethod {
    Cargo,
    StandaloneBinary,
}

/// The name of an install method.
pub open spec fn method_name(method: InstallMethod) -> Seq<char> {
    match method {
        InstallMethod::Cargo => "Cargo"@,
        InstallMethod::StandaloneBinary => "StandaloneBinary"@,
    }
}

impl InstallMethod {
    /// The name of the install method.
    pub fn name(self) -> (name: &'static str)
        ensures
            name@ == method_name(self),
    {
        match self {
            InstallMethod::Cargo => "Cargo",
            InstallMethod::StandaloneBinary => "StandaloneBinary",
        }
    }
}

/// A path, as the bytes of its components from the root down.
#[derive(Debug)]
pub struct PathParts {
    pub parts: Vec<Vec<u8>>,
}

impl View for PathParts {
    type V = Seq<Seq<u8>>;

    open spec fn view(&self) -> Seq<Seq<u8>> {
        self.parts@.map_values(|part: Vec<u8>| part@)
    }
}

/// The view of a path that may be missing.
pub open spec fn path_view(path: Option<PathParts>) -> Option<Seq<Seq<u8>>> {
    match path {
        Some(path) => Some(path@),
        None => None,
    }
}

/// The environment variables that tell where `cargo` keeps its files, each as a path.
#[derive(Debug)]
pub struct HomePaths {
    pub cargo_home: Option<PathParts>,
    pub home: Option<PathParts>,
    pub user_profile: Option<PathParts>,
}

/// `HomePaths` by their views.
pub struct HomePathsView {
    pub cargo_home: Option<Seq<Seq<u8>>>,
    pub home: Option<Seq<Seq<u8>>>,
    pub user_profile: Option<Seq<Seq<u8>>>,
}

impl View for HomePaths {
    type V = HomePathsView;

    open spec fn view(&self) -> HomePathsView {
        HomePathsView {
            cargo_home: path_view(self.cargo_home),
            home: path_view(self.home),
            user_profile: path_view(self.user_profile),
        }
    }
}

/// The bytes of a path component.
pub open spec fn part(name: Seq<char>) -> Seq<u8> {
    vstd::utf8::encode_utf8(name)
}

/// The directory of the programs that `cargo` installs: below its own home if that is set, else
/// below `.cargo` in the home directory, else below `.cargo` in the user profile.
pub open spec fn cargo_bin(homes: HomePathsView) -> Option<Seq<Seq<u8>>> {
    match (homes.cargo_home, homes.home, homes.user_profile) {
        (Some(path), _, _) => Some(path.push(part("bin"@))),
        (None, Some(path), _) => Some(path.push(part(".cargo"@)).push(part("bin"@))),
        (None, None, Some(path)) => Some(path.push(part(".cargo"@)).push(part("bin"@))),
        (None, None, None) => None,
    }
}

/// How the program at `executable` was installed: by `cargo` if it lies in a build directory or
/// below the directory of `cargo`'s programs.
pub open spec fn method_of(executable: Seq<Seq<u8>>, homes: HomePathsView) -> InstallMethod {
    if executable.contains(part("target"@)) {
        InstallMethod::Cargo
    } else {
        match cargo_bin(homes) {
            Some(bin) if bin.is_prefix_of(executable) => InstallMethod::Cargo,
            _ => InstallMethod::StandaloneBinary,
        }
    }
}

fn same_bytes(a: &[u8], b: &[u8]) -> (same: bool)
    ensures
        same == (a@ == b@),
{
    if a.len() != b.len() {
        return false;
    }
    let mut i: usize = 0;
    while i < a.len()
        invariant
            i <= a@.len() == b@.len(),
            forall|j: int| 0 <= j < i ==> a@[j] == b@[j],
        decreases a@.len() - i,
    {
        if a[i] != b[i] {
            return false;
        }
        i += 1;
    }
    assert(a@ == b@);
    true
}

impl PathParts {
    /// Whether one of the components is `name`.
    fn has_part(&self, name: &str) -> (has: bool)
        ensures
            has == self@.contains(part(name@)),
    {
        let wanted = name.as_bytes();
        let mut i: usize = 0;
        while i < self.parts.len()
            invariant
                i <= self.parts@.len(),
                wanted@ == part(name@),
                forall|j: int| 0 <= j < i ==> #[trigger] self@[j] != wanted@,
            decreases self.parts@.len() - i,
        {
            if same_bytes(self.parts[i].as_slice(), wanted) {
                assert(self@[i as int] == wanted@);
                return true;
            }
            i += 1;
        }
        false
    }

    /// Whether the path begins with the components of `prefix`.
    fn starts_with(&self, prefix: &PathParts) -> (starts: bool)
        ensures
            starts == prefix@.is_prefix_of(self@),
    {
        if prefix.parts.len() > self.parts.len() {
            return false;
        }
        let mut i: usize = 0;
        while i < prefix.parts.len()
            invariant
                i <= prefix.parts@.len() <= self.parts@.len(),
                forall|j: int| 0 <= j < i ==> #[trigger] prefix@[j] == self@[j],
            decreases prefix.parts@.len() - i,
        {
            if !same_bytes(prefix.parts[i].as_slice(), self.parts[i].as_slice()) {
                assert(prefix@[i as int] != self@.subrange(0, prefix@.len() as int)[i as int]);
                return false;
            }
            i += 1;
        }
        assert(prefix@ == self@.subrange(0, prefix@.len() as int));
        true
    }

    /// The path with one more component.
    fn joined(self, name: &str) -> (path: PathParts)
        ensures
            path@ == self@.push(part(name@)),
    {
        let ghost before = self@;
        let mut parts = self.parts;
        parts.push(name.as_bytes_vec());
        let path = PathParts { parts };
        assert(path@ == before.push(part(name@)));
        path
    }
}

/// Tells how the program at `executable` was installed.
pub fn detect_install_method(executable: &PathParts, homes: HomePaths) -> (method: InstallMethod)
    ensures
        method == method_of(executable@, homes@),
{
    if executable.has_part("target") {
        return InstallMethod::Cargo;
    }
    let cargo_home: Option<PathParts> = match homes.cargo_home {
        Some(path) => Some(path),
        None => match homes.home {
            Some(home) => Some(home.joined(".cargo")),
            None => match homes.user_profile {
                Some(profile) => Some(profile.joined(".cargo")),
                None => None,
            },
        },
    };
    if let Some(home) = cargo_home {
        let bin = home.joined("bin");
        if executable.starts_with(&bin) {
            return InstallMethod::Cargo;
        }
    }
    InstallMethod::StandaloneBinary
}

/// A program in a build directory counts as installed by `cargo`, wherever `cargo` keeps its files.
pub proof fn build_directories_count_as_cargo(executable: Seq<Seq<u8>>, homes: HomePathsView)
    requires
        executable.contains(part("target"@)),
    ensures
        method_of(executable, homes) is Cargo,
{
}

/// Where no home is known, only a program in a build directory counts as installed by `cargo`.
pub proof fn without_home_only_builds_count(executable: Seq<Seq<u8>>, homes: HomePathsView)
    requires
        homes.cargo_home is None,
        homes.home is None,
        homes.user_profile is None,
    ensures
        method_of(executable, homes) is Cargo <==> executable.contains(part("target"@)),
{
}

/// A path is seen as the bytes of its components, in order.
pub proof fn paths_are_seen_as_their_parts(path: PathParts, i: int)
    requires
        0 <= i < path.parts@.len(),
    ensures
        path@.len() == path.parts@.len(),
        path@[i] == path.parts@[i]@,
{
}

/// The home paths are seen each as its own path.
pub proof fn homes_are_seen_as_their_paths(homes: HomePaths)
    ensures
        homes.cargo_home is None <==> homes@.cargo_home is None,
        homes.home is None <==> homes@.home is None,
        homes.user_profile is None <==> homes@.user_profile is None,
        homes.cargo_home matches Some(path) ==> homes@.cargo_home == Some(path@),
        homes.home matches Some(path) ==> homes@.home == Some(path@),
        homes.user_profile matches Some(path) ==> homes@.user_profile == Some(path@),
{
}

/// A program at any depth below `bin` in `cargo`'s home, or below `.cargo/bin` in the home directory
/// or, without one, in the user profile, was installed by `cargo`. `cargo`'s own home comes before
/// the home directory, and that before the user profile.
pub proof fn programs_below_cargo_bin_count_as_cargo(
    homes: HomePathsView,
    base: Seq<Seq<u8>>,
    rest: Seq<Seq<u8>>,
)
    ensures
        homes.cargo_home == Some(base) ==> method_of(
            base + seq![vstd::utf8::encode_utf8("bin"@)] + rest,
            homes,
        ) is Cargo,
        homes.cargo_home is None && (homes.home == Some(base) || homes.home is None
            && homes.user_profile == Some(base)) ==> method_of(
            base + seq![vstd::utf8::encode_utf8(".cargo"@), vstd::utf8::encode_utf8("bin"@)] + rest,
            homes,
        ) is Cargo,
{
    let bin = vstd::utf8::encode_utf8("bin"@);
    let hidden = vstd::utf8::encode_utf8(".cargo"@);
    let one = base + seq![bin] + rest;
    let two = base + seq![hidden, bin] + rest;
    assert(one.subrange(0, base.len() as int + 1) == base.push(bin));
    assert(two.subrange(0, base.len() as int + 2) == base.push(hidden).push(bin));
}

/// A program that counts as installed by `cargo` lies in a build directory or below `cargo`'s
/// programs: the one path that the homes give begins its own.
pub proof fn only_programs_below_cargo_bin_count(executable: Seq<Seq<u8>>, homes: HomePathsView)
    requires
        method_of(executable, homes) is Cargo,
        !executable.contains(vstd::utf8::encode_utf8("target"@)),
    ensures
        ({
            let bin = vstd::utf8::encode_utf8("bin"@);
            let hidden = vstd::utf8::encode_utf8(".cargo"@);
            &&& homes.cargo_home matches Some(base) ==> {
                &&& base.len() < executable.len()
                &&& executable.take(base.len() as int) == base
                &&& executable[base.len() as int] == bin
            }
            &&& homes.cargo_home is None ==> {
                let base = if homes.home is Some {
                    homes.home
                } else {
                    homes.user_profile
                };
                &&& base is Some
                &&& base->0.len() + 1 < executable.len()
                &&& executable.take(base->0.len() as int) == base->0
                &&& executable[base->0.len() as int] == hidden
                &&& executable[base->0.len() as int + 1] == bin
            }
        }),
{
    let bin = cargo_bin(homes)->0;
    assert(executable.subrange(0, bin.len() as int) == bin);
    let base = if homes.cargo_home is Some {
        homes.cargo_home->0
    } else if homes.home is Some {
        homes.home->0
    } else {
        homes.user_profile->0
    };
    assert forall|i: int| 0 <= i < bin.len() implies executable[i] == #[trigger] bin[i] by {
        assert(executable.subrange(0, bin.len() as int)[i] == executable[i]);
    }
    assert(bin[base.len() as int] == executable[base.len() as int]);
    assert(homes.cargo_home is None ==> bin[base.len() as int + 1] == executable[base.len() as int
        + 1]);
    assert(executable.take(base.len() as int) =~= base) by {
        assert forall|i: int| 0 <= i < base.len() implies executable[i] == base[i] by {
            assert(bin[i] == base[i]);
        }
    }
}

/// A program in a directory `target`, at any depth, counts as installed by `cargo`.
pub proof fn targets_count_as_cargo(
    before: Seq<Seq<u8>>,
    after: Seq<Seq<u8>>,
    homes: HomePathsView,
)
    ensures
        method_of(before + seq![vstd::utf8::encode_utf8("target"@)] + after, homes) is Cargo,
{
    let path = before + seq![vstd::utf8::encode_utf8("target"@)] + after;
    assert(path[before.len() as int] == part("target"@));
    assert(path.contains(part("target"@)));
}

/// The install methods are told by their names.
pub proof fn methods_are_named(method: InstallMethod)
    ensures
        method is Cargo ==> method_name(method) == "Cargo"@,
        method is StandaloneBinary ==> method_name(method) == "StandaloneBinary"@,
{
}

} // verus!
