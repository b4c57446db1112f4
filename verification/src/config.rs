//! The loader registry: which loader binary serves which media type, as the
//! loader manifests under the data directories say.

use vstd::prelude::*;
use crate::error::Error;
use crate::text::{
    decimal,
    find_char,
    has_suffix,
    matches_at,
    position_of,
    push_str,
    to_chars,
    u64_to_string,
    views,
};

verus! {

pub type MimeType = String;

/// Number in the name of the directory that holds the manifests. It changes
/// when the interface between host and loaders does.
pub const COMPAT_VERSION: u8 = 1;

/// The loader for one media type.
#[derive(Debug, Clone)]
pub struct ImageDecoderConfig {
    /// Path of the loader binary.
    pub exec_path: String,
    /// Whether the loader gets to see the directory of the image.
    pub expose_base_dir: bool,
}

/// The registry. An entry that is added later replaces an earlier one for
/// the same media type.
#[derive(Debug, Clone)]
pub struct Config {
    entries: Vec<(MimeType, ImageDecoderConfig)>,
}

/// The registry that a list of entries stands for: each entry in turn is
/// put into the map, so that the last entry of a media type stays.
pub open spec fn entries_map(entries: Seq<(MimeType, ImageDecoderConfig)>) -> Map<
    Seq<char>,
    ImageDecoderConfig,
>
    decreases entries.len(),
{
    if entries.len() == 0 {
        Map::empty()
    } else {
        entries_map(entries.drop_last()).insert(entries.last().0@, entries.last().1)
    }
}

/// The name of a manifest group for a loader is `loader:` and the media
/// type. The kind of a group is what stands before the first colon.
pub open spec fn group_kind(group: Seq<char>) -> Seq<char> {
    group.subrange(0, position_of(group, ':', 0))
}

/// What stands between the first colon of a group name and the second one,
/// or the end; `None` for a name without a colon.
pub open spec fn group_subject(group: Seq<char>) -> Option<Seq<char>> {
    let colon = position_of(group, ':', 0);
    if colon < group.len() {
        Some(group.subrange(colon + 1, position_of(group, ':', colon + 1)))
    } else {
        None
    }
}

/// The media type that a manifest group configures a loader for.
pub open spec fn group_mime_type(group: Seq<char>) -> Option<Seq<char>> {
    if group_kind(group) == "loader"@ {
        group_subject(group)
    } else {
        None
    }
}

/// The media type that the manifest group named `group` configures a loader
/// for; `None` for a group of another kind.
pub fn loader_mime_type(group: &str) -> (mime_type: Option<MimeType>)
    ensures
        mime_type is Some <==> group_mime_type(group@) is Some,
        mime_type is Some ==> mime_type->0@ == group_mime_type(group@)->0,
{
    let chars = to_chars(group);
    let kind = to_chars("loader");
    let colon = find_char(&chars, ':', 0);
    let is_loader = colon == kind.len() && matches_at(&chars, 0, &kind);
    proof {
        reveal_strlit("loader");
        if is_loader {
            assert(group_kind(group@) =~= "loader"@);
        } else if colon == kind@.len() {
            assert(group@.subrange(0, kind@.len() as int) != kind@);
        } else {
            assert(group_kind(group@).len() != "loader"@.len());
        }
    }
    if !is_loader || colon >= chars.len() {
        return None;
    }
    let end = find_char(&chars, ':', colon + 1);
    let subject = group.substring_char(colon + 1, end);
    Some(String::from_str(subject))
}

/// Name of the manifest key that holds the path of the loader binary.
pub fn exec_key() -> (key: &'static str)
    ensures
        key@ == "Exec"@,
{
    "Exec"
}

/// Name of the manifest key that says whether the loader sees the directory
/// of the image.
pub fn expose_base_dir_key() -> (key: &'static str)
    ensures
        key@ == "ExposeBaseDir"@,
{
    "ExposeBaseDir"
}

/// The registry after a manifest group with the values of its two keys: a
/// loader group with a path is entered under its media type, and everything
/// else changes nothing. Without the second key the directory of the image
/// is not shown.
pub open spec fn with_group(
    registry: Map<Seq<char>, ImageDecoderConfig>,
    group: Seq<char>,
    exec_path: Option<String>,
    expose_base_dir: Option<bool>,
) -> Map<Seq<char>, ImageDecoderConfig> {
    match (group_mime_type(group), exec_path) {
        (Some(mime_type), Some(exec_path)) => registry.insert(
            mime_type,
            ImageDecoderConfig {
                exec_path,
                expose_base_dir: match expose_base_dir {
                    Some(expose) => expose,
                    None => false,
                },
            },
        ),
        _ => registry,
    }
}

impl View for Config {
    type V = Map<Seq<char>, ImageDecoderConfig>;

    closed spec fn view(&self) -> Map<Seq<char>, ImageDecoderConfig> {
        entries_map(self.entries@)
    }
}

impl Default for Config {
    fn default() -> (config: Self)
        ensures
            config@ == Map::<Seq<char>, ImageDecoderConfig>::empty(),
    {
        Config { entries: Vec::new() }
    }
}

impl Config {
    /// The loader for a media type, or the error that names the media type
    /// for which there is none.
    pub fn get(&self, mime_type: &MimeType) -> (r: Result<&ImageDecoderConfig, Error>)
        ensures
            r is Ok <==> self@.contains_key(mime_type@),
            r is Ok ==> *r->Ok_0 == self@[mime_type@],
            r is Err ==> (r->Err_0 matches Error::UnknownImageFormat(name) && name@ == mime_type@),
    {
        let mut i = self.entries.len();
        assert(self.entries@.subrange(0, i as int) =~= self.entries@);
        while i > 0
            invariant
                0 <= i <= self.entries@.len(),
                self@ == entries_map(self.entries@),
                entries_map(self.entries@).contains_key(mime_type@) == entries_map(
                    self.entries@.subrange(0, i as int),
                ).contains_key(mime_type@),
                entries_map(self.entries@).contains_key(mime_type@) ==> entries_map(
                    self.entries@,
                )[mime_type@] == entries_map(self.entries@.subrange(0, i as int))[mime_type@],
            decreases i,
        {
            i -= 1;
            proof {
                let upto = self.entries@.subrange(0, i + 1);
                assert(upto.drop_last() =~= self.entries@.subrange(0, i as int));
                assert(upto.last() == self.entries@[i as int]);
            }
            if self.entries[i].0 == *mime_type {
                return Ok(&self.entries[i].1);
            }
        }
        assert(self.entries@.subrange(0, 0) =~= Seq::empty());
        Err(Error::UnknownImageFormat(mime_type.clone()))
    }

    /// Enters a loader under a media type, in place of what was there.
    pub fn insert(&mut self, mime_type: MimeType, config: ImageDecoderConfig)
        ensures
            final(self)@ == old(self)@.insert(mime_type@, config),
    {
        self.entries.push((mime_type, config));
        assert(self.entries@.drop_last() =~= old(self).entries@);
    }

    /// Enters what one group of a manifest says. `exec_path` and
    /// `expose_base_dir` are the values of the group's two keys, where the
    /// group has them.
    pub fn load_group(&mut self, group: &str, exec_path: Option<String>, expose_base_dir: Option<bool>)
        ensures
            final(self)@ == with_group(old(self)@, group@, exec_path, expose_base_dir),
    {
        if let Some(mime_type) = loader_mime_type(group) {
            if let Some(exec_path) = exec_path {
                let expose_base_dir = match expose_base_dir {
                    Some(expose) => expose,
                    None => false,
                };
                self.insert(mime_type, ImageDecoderConfig { exec_path, expose_base_dir });
            }
        }
    }

    /// The media types that have a loader, each once.
    pub fn mime_types(&self) -> (types: Vec<MimeType>)
        ensures
            forall|name: Seq<char>|
                self@.contains_key(name) <==> exists|i: int|
                    0 <= i < types@.len() && (#[trigger] types@[i])@ == name,
            forall|i: int, j: int|
                0 <= i < j < types@.len() ==> (#[trigger] types@[i])@ != (#[trigger] types@[j])@,
    {
        let mut types: Vec<MimeType> = Vec::new();
        let mut i: usize = 0;
        while i < self.entries.len()
            invariant
                0 <= i <= self.entries@.len(),
                self@ == entries_map(self.entries@),
                forall|name: Seq<char>|
                    entries_map(self.entries@.subrange(0, i as int)).contains_key(name)
                        <==> exists|k: int|
                        0 <= k < types@.len() && (#[trigger] types@[k])@ == name,
                forall|k: int, j: int|
                    0 <= k < j < types@.len() ==> (#[trigger] types@[k])@ != (
                    #[trigger] types@[j])@,
            decreases self.entries@.len() - i,
        {
            let ghost upto = self.entries@.subrange(0, i + 1);
            let ghost before = types@;
            proof {
                assert(upto.drop_last() =~= self.entries@.subrange(0, i as int));
                assert(upto.last() == self.entries@[i as int]);
            }
            let mut known = false;
            let mut k: usize = 0;
            while k < types.len()
                invariant
                    0 <= k <= types@.len(),
                    i < self.entries@.len(),
                    types@ == before,
                    known <==> exists|j: int|
                        0 <= j < k && (#[trigger] types@[j])@ == self.entries@[i as int].0@,
                decreases types@.len() - k,
            {
                if types[k] == self.entries[i].0 {
                    known = true;
                }
                k += 1;
            }
            if !known {
                types.push(self.entries[i].0.clone());
            }
            proof {
                let added = self.entries@[i as int].0@;
                let prev = entries_map(self.entries@.subrange(0, i as int));
                assert(entries_map(upto) == prev.insert(added, self.entries@[i as int].1));
                assert forall|name: Seq<char>| entries_map(upto).contains_key(name) implies exists|
                    k: int,
                |
                    0 <= k < types@.len() && (#[trigger] types@[k])@ == name by {
                    if name == added {
                        if known {
                            let j = choose|j: int|
                                0 <= j < before.len() && (#[trigger] before[j])@ == added;
                            assert(types@[j]@ == name);
                        } else {
                            assert(types@[types@.len() - 1]@ == name);
                        }
                    } else {
                        assert(prev.contains_key(name));
                        let j = choose|j: int|
                            0 <= j < before.len() && (#[trigger] before[j])@ == name;
                        assert(types@[j]@ == name);
                    }
                }
                assert forall|name: Seq<char>|
                    (exists|k: int|
                        0 <= k < types@.len() && (#[trigger] types@[k])@ == name) implies entries_map(
                    upto,
                ).contains_key(name) by {
                    let j = choose|j: int| 0 <= j < types@.len() && (#[trigger] types@[j])@ == name;
                    if j < before.len() {
                        assert(before[j]@ == name);
                        assert(prev.contains_key(name));
                    }
                }
                assert forall|k: int, j: int| 0 <= k < j < types@.len() implies (
                #[trigger] types@[k])@ != (#[trigger] types@[j])@ by {
                    if j < before.len() {
                        assert(before[k]@ != before[j]@);
                    } else {
                        assert(before[k]@ != added);
                    }
                }
            }
            i += 1;
        }
        assert(self.entries@.subrange(0, self.entries@.len() as int) =~= self.entries@);
        types
    }
}

/// A manifest entered after another one for the same media type is the one
/// that the registry answers with.
pub proof fn lemma_later_manifest_wins(
    registry: Map<Seq<char>, ImageDecoderConfig>,
    group: Seq<char>,
    first_path: Option<String>,
    first_expose: Option<bool>,
    second_path: String,
    second_expose: Option<bool>,
)
    requires
        group_mime_type(group) is Some,
    ensures
        ({
            let after = with_group(
                with_group(registry, group, first_path, first_expose),
                group,
                Some(second_path),
                second_expose,
            );
            let mime_type = group_mime_type(group)->0;
            &&& after.contains_key(mime_type)
            &&& after[mime_type].exec_path == second_path
            &&& after[mime_type].expose_base_dir == (second_expose == Some(true))
            &&& after == with_group(registry, group, Some(second_path), second_expose)
        }),
{
    let once = with_group(registry, group, Some(second_path), second_expose);
    let after = with_group(
        with_group(registry, group, first_path, first_expose),
        group,
        Some(second_path),
        second_expose,
    );
    assert(after =~= once);
}

/// The directories that are searched for manifests, in the order of the
/// search: the system's data directories and then the user's, or nothing
/// but `forced` where that is set and not empty.
pub open spec fn search_path(forced: Option<Seq<char>>, system: Seq<Seq<char>>, user: Seq<char>) -> Seq<
    Seq<char>,
> {
    if forced is Some && forced->0.len() > 0 {
        seq![forced->0]
    } else {
        system.push(user)
    }
}

/// The data directories to search. `forced` is the value of the variable
/// that replaces the search path, where it is set.
pub fn data_dirs(forced: Option<String>, system_data_dirs: Vec<String>, user_data_dir: String) -> (dirs:
    Vec<String>)
    ensures
        views(dirs@) == search_path(
            match forced {
                Some(dir) => Some(dir@),
                None => None,
            },
            views(system_data_dirs@),
            user_data_dir@,
        ),
{
    if let Some(dir) = forced {
        if dir.as_str().unicode_len() > 0 {
            let mut dirs: Vec<String> = Vec::new();
            dirs.push(dir);
            assert(views(dirs@) =~= seq![dir@]);
            return dirs;
        }
    }
    let mut dirs = system_data_dirs;
    dirs.push(user_data_dir);
    assert(views(dirs@) =~= views(system_data_dirs@).push(user_data_dir@));
    dirs
}

/// The directories below a data directory that lead to the manifests.
pub open spec fn manifest_dir() -> Seq<Seq<char>> {
    seq!["glycin-loaders"@, decimal(COMPAT_VERSION as nat) + "+"@, "conf.d"@]
}

/// The names of the directories that lead from a data directory to its
/// manifests, outermost first.
pub fn manifest_dir_segments() -> (segments: Vec<String>)
    ensures
        views(segments@) == manifest_dir(),
{
    let mut version = u64_to_string(COMPAT_VERSION as u64);
    version.append("+");
    let mut segments: Vec<String> = Vec::new();
    segments.push(String::from_str("glycin-loaders"));
    segments.push(version);
    segments.push(String::from_str("conf.d"));
    assert(views(segments@) =~= manifest_dir());
    segments
}

/// Whether a file of this name is a manifest: its name ends in `.conf`, and
/// that is not the whole name.
pub open spec fn is_manifest_name(file_name: Seq<char>) -> bool {
    file_name.len() > 5 && has_suffix(file_name, ".conf"@)
}

pub fn is_manifest(file_name: &str) -> (b: bool)
    ensures
        b == is_manifest_name(file_name@),
{
    proof {
        reveal_strlit(".conf");
    }
    let chars = to_chars(file_name);
    let suffix = to_chars(".conf");
    if chars.len() <= 5 {
        return false;
    }
    matches_at(&chars, chars.len() - 5, &suffix)
}

/// The media types that the loaders serve that come with the host.
pub open spec fn default_types() -> Seq<Seq<char>> {
    seq![
        "image/jpeg"@,
        "image/png"@,
        "image/gif"@,
        "image/webp"@,
        "image/tiff"@,
        "image/x-tga"@,
        "image/vnd-ms.dds"@,
        "image/x-dds"@,
        "image/bmp"@,
        "image/vnd.microsoft.icon"@,
        "image/vnd.radiance"@,
        "image/x-exr"@,
        "image/x-portable-bitmap"@,
        "image/x-portable-graymap"@,
        "image/x-portable-pixmap"@,
        "image/x-portable-anymap"@,
        "image/x-qoi"@,
        "image/avif"@,
        "image/heif"@,
        "image/jxl"@,
        "image/svg+xml"@,
        "image/svg+xml-compressed"@,
    ]
}

pub fn default_mime_types() -> (types: Vec<MimeType>)
    ensures
        views(types@) == default_types(),
{
    let mut types: Vec<MimeType> = Vec::new();
    assert(views(types@) =~= Seq::<Seq<char>>::empty());
    push_str(&mut types, "image/jpeg");
    push_str(&mut types, "image/png");
    push_str(&mut types, "image/gif");
    push_str(&mut types, "image/webp");
    push_str(&mut types, "image/tiff");
    push_str(&mut types, "image/x-tga");
    push_str(&mut types, "image/vnd-ms.dds");
    push_str(&mut types, "image/x-dds");
    push_str(&mut types, "image/bmp");
    push_str(&mut types, "image/vnd.microsoft.icon");
    push_str(&mut types, "image/vnd.radiance");
    push_str(&mut types, "image/x-exr");
    push_str(&mut types, "image/x-portable-bitmap");
    push_str(&mut types, "image/x-portable-graymap");
    push_str(&mut types, "image/x-portable-pixmap");
    push_str(&mut types, "image/x-portable-anymap");
    push_str(&mut types, "image/x-qoi");
    push_str(&mut types, "image/avif");
    push_str(&mut types, "image/heif");
    push_str(&mut types, "image/jxl");
    push_str(&mut types, "image/svg+xml");
    push_str(&mut types, "image/svg+xml-compressed");
    types
}

} // verus!
