use vstd::prelude::*;
use vstd::string::*;

verus! {

/// The host platform, which fixes how build artifacts are named.
#[derive(Clone, Copy, Debug, PartialEq, Eq, Structural)]
pub enum Platform {
    Windows,
    MacOs,
    OtherUnix,
}

/// The naming convention of dynamic-library artifacts on one platform.
pub struct ArtifactSpec {
    pub lib_prefix: String,
    pub extension: String,
    pub build_subdir: String,
}

pub open spec fn prefix_of(p: Platform) -> Seq<char> {
    match p {
        Platform::Windows => seq![],
        _ => seq!['l', 'i', 'b'],
    }
}

pub open spec fn extension_of(p: Platform) -> Seq<char> {
    match p {
        Platform::Windows => seq!['.', 'd', 'l', 'l'],
        Platform::MacOs => seq!['.', 'd', 'y', 'l', 'i', 'b'],
        Platform::OtherUnix => seq!['.', 's', 'o'],
    }
}

/// Whether the local project is built in release mode: only on Windows,
/// where the plugin loader needs the release ABI.
pub open spec fn release_mode(p: Platform) -> bool {
    p == Platform::Windows
}

pub open spec fn build_subdir_of(p: Platform) -> Seq<char> {
    if release_mode(p) {
        seq!['r', 'e', 'l', 'e', 'a', 's', 'e']
    } else {
        seq!['d', 'e', 'b', 'u', 'g']
    }
}

impl ArtifactSpec {
    pub open spec fn matches(&self, p: Platform) -> bool {
        &&& self.lib_prefix@ == prefix_of(p)
        &&& self.extension@ == extension_of(p)
        &&& self.build_subdir@ == build_subdir_of(p)
    }
}

/// Whether the local project build uses the release profile on `p`.
pub fn is_release_build(p: Platform) -> (r: bool)
    ensures
        r == release_mode(p),
{
    match p {
        Platform::Windows => true,
        _ => false,
    }
}

/// The artifact naming convention of platform `p`.
pub fn artifact_spec(p: Platform) -> (r: ArtifactSpec)
    ensures
        r.matches(p),
{
    let lib_prefix = match p {
        Platform::Windows => String::from_str(""),
        _ => String::from_str("lib"),
    };
    let extension = match p {
        Platform::Windows => String::from_str(".dll"),
        Platform::MacOs => String::from_str(".dylib"),
        Platform::OtherUnix => String::from_str(".so"),
    };
    let build_subdir = if is_release_build(p) {
        String::from_str("release")
    } else {
        String::from_str("debug")
    };
    proof {
        reveal_strlit("");
        reveal_strlit("lib");
        reveal_strlit(".dll");
        reveal_strlit(".dylib");
        reveal_strlit(".so");
        reveal_strlit("release");
        reveal_strlit("debug");
    }
    let r = ArtifactSpec { lib_prefix, extension, build_subdir };
    assert(r.lib_prefix@ =~= prefix_of(p));
    assert(r.extension@ =~= extension_of(p));
    assert(r.build_subdir@ =~= build_subdir_of(p));
    r
}

/// `s` with every `-` replaced by `_`, as library file names spell a crate name.
pub open spec fn underscored(s: Seq<char>) -> Seq<char> {
    s.map_values(|c: char| if c == '-' { '_' } else { c })
}

/// The file name of the plugin library built from project `name`.
pub open spec fn plugin_file_name_of(p: Platform, name: Seq<char>) -> Seq<char> {
    prefix_of(p) + underscored(name) + extension_of(p)
}

/// The file name, under `target/<build_subdir>/`, of the dynamic library that
/// project `name` builds: prefix, name with `-` turned into `_`, extension.
pub fn plugin_file_name(spec: &ArtifactSpec, name: &str) -> (r: String)
    ensures
        r@ == spec.lib_prefix@ + underscored(name@) + spec.extension@,
        forall|p: Platform| spec.matches(p) ==> r@ == plugin_file_name_of(p, name@),
{
    let mut r = spec.lib_prefix.clone();
    let n = name.unicode_len();
    let mut i: usize = 0;
    while i < n
        invariant
            n == name@.len(),
            i <= n,
            r@ == spec.lib_prefix@ + underscored(name@.subrange(0, i as int)),
        decreases n - i,
    {
        let c = name.get_char(i);
        let ghost before = r@;
        if c == '-' {
            proof {
                reveal_strlit("_");
            }
            r.append("_");
        } else {
            let one = name.substring_char(i, i + 1);
            assert(one@ =~= seq![c]);
            r.append(one);
        }
        let ghost mapped = if c == '-' { '_' } else { c };
        assert(r@ =~= before + seq![mapped]);
        assert(underscored(name@.subrange(0, i + 1)) =~= underscored(name@.subrange(0, i as int))
            + seq![mapped]);
        i = i + 1;
    }
    assert(name@.subrange(0, n as int) =~= name@);
    r.append(spec.extension.as_str());
    r
}

} // verus!
