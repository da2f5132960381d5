//! The path prober: the default locations of the asset directory on each
//! platform, and the search for the first of them that exists.
//!
//! The prober never touches the host. What exists is handed to it as a
//! [`DirectorySnapshot`], taken by the caller.

use crate::platform::Platform;
use crate::text::same_text;
use vstd::prelude::*;

verus! {

/// Asset directory below the 32-bit Program Files root on Windows.
pub const WINDOWS_X86_PAKS: &'static str =
    "C:\\Program Files (x86)\\Steam\\steamapps\\common\\GUILTY GEAR STRIVE\\RED\\Content\\Paks\\";

/// Asset directory below the Program Files root on Windows.
pub const WINDOWS_PAKS: &'static str =
    "C:\\Program Files\\Steam\\steamapps\\common\\GUILTY GEAR STRIVE\\RED\\Content\\Paks\\";

/// Asset directory of a Steam installed under `/Applications` on macOS.
pub const MACOS_APPLICATIONS_PAKS: &'static str =
    "/Applications/Steam.app/steamapps/common/GUILTY GEAR STRIVE/RED/Content/Paks/";

/// Asset directory of a per-user Steam on macOS, relative to the home directory.
pub const MACOS_HOME_PAKS: &'static str =
    "/Library/Application Support/Steam/steamapps/common/GUILTY GEAR STRIVE/RED/Content/Paks/";

/// Asset directory of a direct Steam install on Linux, relative to the home directory.
pub const LINUX_HOME_PAKS: &'static str =
    "/.local/share/Steam/steamapps/common/GUILTY GEAR STRIVE/RED/Content/Paks/";

/// Asset directory of a Flatpak Steam install on Linux, relative to the home directory.
pub const LINUX_FLATPAK_PAKS: &'static str =
    "/.var/app/com.valvesoftware.Steam/.local/share/Steam/steamapps/common/GUILTY GEAR STRIVE/RED/Content/Paks/";

/// The home directory to build candidates from: the resolved one, or the
/// empty text where it could not be resolved.
pub open spec fn home_or_empty(home: Option<Seq<char>>) -> Seq<char> {
    match home {
        Some(dir) => dir,
        None => Seq::empty(),
    }
}

/// The default candidates of `platform`, most preferred first.
pub open spec fn candidates(platform: Platform, home: Seq<char>) -> Seq<Seq<char>> {
    match platform {
        Platform::Windows => seq![WINDOWS_X86_PAKS@, WINDOWS_PAKS@],
        Platform::Macos => seq![MACOS_APPLICATIONS_PAKS@, home + MACOS_HOME_PAKS@],
        Platform::Linux => seq![home + LINUX_HOME_PAKS@, home + LINUX_FLATPAK_PAKS@],
        Platform::Other => Seq::empty(),
    }
}

/// The first of `paths` that `dirs` holds, if any.
pub open spec fn first_directory(paths: Seq<Seq<char>>, dirs: Set<Seq<char>>) -> Option<
    Seq<char>,
>
    decreases paths.len(),
{
    if paths.len() == 0 {
        None
    } else if dirs.contains(paths.first()) {
        Some(paths.first())
    } else {
        first_directory(paths.drop_first(), dirs)
    }
}

/// `home` followed by `tail`.
fn under_home(home: &str, tail: &str) -> (path: String)
    ensures
        path@ == home@ + tail@,
{
    let mut path = String::from_str(home);
    path.append(tail);
    path
}

/// Lists the default locations of the asset directory on `platform`, most
/// preferred first. `home` is the user's home directory where it could be
/// resolved; an unresolved one counts as the empty text.
pub fn candidate_paths(platform: Platform, home: Option<&str>) -> (paths: Vec<String>)
    ensures
        paths.deep_view() == candidates(platform, home_or_empty(home.deep_view())),
        paths.len() == platform.candidate_count(),
{
    let home_dir = match home {
        Some(dir) => dir,
        None => "",
    };
    let mut paths: Vec<String> = Vec::new();
    match platform {
        Platform::Windows => {
            paths.push(String::from_str(WINDOWS_X86_PAKS));
            paths.push(String::from_str(WINDOWS_PAKS));
        },
        Platform::Macos => {
            paths.push(String::from_str(MACOS_APPLICATIONS_PAKS));
            paths.push(under_home(home_dir, MACOS_HOME_PAKS));
        },
        Platform::Linux => {
            paths.push(under_home(home_dir, LINUX_HOME_PAKS));
            paths.push(under_home(home_dir, LINUX_FLATPAK_PAKS));
        },
        Platform::Other => {},
    }
    proof {
        reveal_strlit("");
    }
    paths
}

/// The directories that exist on the host, as observed by the caller at one
/// moment.
#[derive(Debug)]
pub struct DirectorySnapshot {
    dirs: Vec<String>,
}

impl View for DirectorySnapshot {
    type V = Set<Seq<char>>;

    closed spec fn view(&self) -> Set<Seq<char>> {
        Set::new(|path: Seq<char>| exists|i: int| 0 <= i < self.dirs.len() && self.dirs[i]@ == path)
    }
}

impl DirectorySnapshot {
    /// A snapshot in which no directory exists.
    pub fn new() -> (snapshot: Self)
        ensures
            snapshot@ == Set::<Seq<char>>::empty(),
    {
        DirectorySnapshot { dirs: Vec::new() }
    }

    /// Records that `path` is a directory.
    pub fn record(&mut self, path: &str)
        ensures
            final(self)@ == old(self)@.insert(path@),
    {
        self.dirs.push(String::from_str(path));
        proof {
            let before = old(self).dirs;
            let after = self.dirs;
            assert forall|p: Seq<char>| final(self)@.contains(p) <==> old(self)@.insert(
                path@,
            ).contains(p) by {
                if old(self)@.contains(p) {
                    let i = choose|i: int| 0 <= i < before.len() && before[i]@ == p;
                    assert(after[i]@ == p);
                }
                if p == path@ {
                    assert(after[before.len() as int]@ == p);
                }
            }
        }
    }

    /// Tells whether `path` was recorded as a directory.
    pub fn is_dir(&self, path: &str) -> (found: bool)
        ensures
            found == self@.contains(path@),
    {
        let mut i: usize = 0;
        while i < self.dirs.len()
            invariant
                i <= self.dirs.len(),
                forall|j: int| 0 <= j < i ==> self.dirs[j]@ != path@,
            decreases self.dirs.len() - i,
        {
            if same_text(self.dirs[i].as_str(), path) {
                return true;
            }
            i += 1;
        }
        false
    }
}

/// Returns the first of `paths` that is a directory in `dirs`, or nothing
/// where none is.
pub fn probe(paths: &Vec<String>, dirs: &DirectorySnapshot) -> (hit: Option<String>)
    ensures
        hit.deep_view() == first_directory(paths.deep_view(), dirs@),
{
    let ghost all = paths.deep_view();
    let mut i: usize = 0;
    assert(all.skip(0) =~= all);
    while i < paths.len()
        invariant
            i <= paths.len(),
            all == paths.deep_view(),
            first_directory(all, dirs@) == first_directory(all.skip(i as int), dirs@),
        decreases paths.len() - i,
    {
        if dirs.is_dir(paths[i].as_str()) {
            return Some(paths[i].clone());
        }
        assert(all.skip(i as int).drop_first() =~= all.skip(i as int + 1));
        i += 1;
    }
    None
}

/// The probe is order-respecting: the candidate at `index` is returned
/// where it exists and none before it does.
pub proof fn lemma_first_directory_prefers_earlier(
    paths: Seq<Seq<char>>,
    dirs: Set<Seq<char>>,
    index: int,
)
    requires
        0 <= index < paths.len(),
        dirs.contains(paths[index]),
        forall|j: int| 0 <= j < index ==> !dirs.contains(paths[j]),
    ensures
        first_directory(paths, dirs) == Some(paths[index]),
    decreases paths.len(),
{
    if index > 0 {
        let rest = paths.drop_first();
        assert forall|j: int| 0 <= j < index - 1 implies !dirs.contains(rest[j]) by {
            assert(rest[j] == paths[j + 1]);
        }
        lemma_first_directory_prefers_earlier(rest, dirs, index - 1);
    }
}

/// Of two candidates that both exist, the probe returns the first.
pub proof fn lemma_first_of_two_wins(first: Seq<char>, second: Seq<char>, dirs: Set<Seq<char>>)
    requires
        dirs.contains(first),
        dirs.contains(second),
    ensures
        first_directory(seq![first, second], dirs) == Some(first),
{
    lemma_first_directory_prefers_earlier(seq![first, second], dirs, 0);
}

/// Probing a single candidate finds it exactly where it exists.
pub proof fn lemma_single_candidate(wanted: Seq<char>, dirs: Set<Seq<char>>)
    ensures
        first_directory(seq![wanted], dirs) == if dirs.contains(wanted) {
            Some(wanted)
        } else {
            None
        },
{
    reveal_with_fuel(first_directory, 2);
}

/// The probe finds nothing exactly where no candidate exists; in
/// particular it finds nothing among no candidates.
pub proof fn lemma_first_directory_none(paths: Seq<Seq<char>>, dirs: Set<Seq<char>>)
    ensures
        first_directory(paths, dirs) is None <==> forall|i: int|
            0 <= i < paths.len() ==> !dirs.contains(#[trigger] paths[i]),
        paths.len() == 0 ==> first_directory(paths, dirs) is None,
    decreases paths.len(),
{
    if paths.len() > 0 {
        let rest = paths.drop_first();
        lemma_first_directory_none(rest, dirs);
        if !dirs.contains(paths.first()) {
            if first_directory(rest, dirs) is None {
                assert forall|i: int| 0 <= i < paths.len() implies !dirs.contains(
                    #[trigger] paths[i],
                ) by {
                    if i > 0 {
                        assert(paths[i] == rest[i - 1]);
                    }
                }
            } else {
                let k = choose|k: int| 0 <= k < rest.len() && dirs.contains(#[trigger] rest[k]);
                assert(dirs.contains(paths[k + 1]));
            }
        }
    }
}

/// Whatever the probe returns is one of the candidates, exists, and has no
/// existing candidate before it.
pub proof fn lemma_first_directory_is_earliest(paths: Seq<Seq<char>>, dirs: Set<Seq<char>>)
    requires
        first_directory(paths, dirs) is Some,
    ensures
        exists|i: int|
            0 <= i < paths.len() && #[trigger] paths[i] == first_directory(paths, dirs)->0
                && dirs.contains(paths[i]) && forall|j: int|
                0 <= j < i ==> !dirs.contains(#[trigger] paths[j]),
    decreases paths.len(),
{
    if !dirs.contains(paths.first()) {
        let rest = paths.drop_first();
        lemma_first_directory_is_earliest(rest, dirs);
        let k = choose|k: int|
            0 <= k < rest.len() && #[trigger] rest[k] == first_directory(rest, dirs)->0
                && dirs.contains(rest[k]) && forall|j: int|
                0 <= j < k ==> !dirs.contains(#[trigger] rest[j]);
        assert(paths[k + 1] == rest[k]);
        assert forall|j: int| 0 <= j < k + 1 implies !dirs.contains(#[trigger] paths[j]) by {
            if j > 0 {
                assert(paths[j] == rest[j - 1]);
            }
        }
    }
}

} // verus!
