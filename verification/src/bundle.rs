//! The raw artifact: how the external build tool is called for a platform,
//! and what of a build directory goes into the compressed bundle.

use vstd::prelude::*;
use vstd::string::StringExecFns;
use crate::error::ErrorKind;

verus! {

/// A call of the external build tool.
#[derive(Clone, Debug, PartialEq, Eq)]
pub struct BuildCommand {
    pub program: String,
    pub arguments: Vec<String>,
    /// Where the tool writes the bundle.
    pub bundle_output: String,
}

/// Where the build tool writes the bundle of a platform, for the platforms
/// there are.
pub open spec fn bundle_output(platform: Seq<char>, output_dir: Seq<char>) -> Option<Seq<char>> {
    if platform == "android"@ {
        Some(output_dir + "/index.android.bundle"@)
    } else if platform == "ios"@ {
        Some(output_dir + "/main.jsbundle"@)
    } else {
        None
    }
}

/// The arguments the build tool is called with.
pub open spec fn build_arguments(
    platform: Seq<char>,
    entry_file: Seq<char>,
    output_dir: Seq<char>,
    bundle: Seq<char>,
) -> Seq<Seq<char>> {
    seq![
        "react-native"@,
        "bundle"@,
        "--platform"@,
        platform,
        "--dev"@,
        "false"@,
        "--entry-file"@,
        entry_file,
        "--bundle-output"@,
        bundle,
        "--assets-dest"@,
        output_dir,
    ]
}

/// The views of a list of texts.
pub open spec fn text_views(texts: Seq<String>) -> Seq<Seq<char>> {
    Seq::new(texts.len(), |i: int| texts[i]@)
}

/// Prepares the call of the build tool that bundles the application for a
/// platform into `output_dir`.
///
/// Fails with `BuildFailed` for a platform other than `android` and `ios`.
pub fn build_bundle(platform: &str, entry_file: &str, output_dir: &str) -> (command: Result<
    BuildCommand,
    ErrorKind,
>)
    ensures
        match bundle_output(platform@, output_dir@) {
            None => command == Err::<BuildCommand, ErrorKind>(ErrorKind::BuildFailed),
            Some(bundle) => {
                &&& command is Ok
                &&& command->Ok_0.program@ == "npx"@
                &&& command->Ok_0.bundle_output@ == bundle
                &&& text_views(command->Ok_0.arguments@) == build_arguments(
                    platform@,
                    entry_file@,
                    output_dir@,
                    bundle,
                )
            },
        },
{
    let name = String::from_str(platform);
    let bundle = if name == String::from_str("android") {
        String::from_str(output_dir).concat("/index.android.bundle")
    } else if name == String::from_str("ios") {
        String::from_str(output_dir).concat("/main.jsbundle")
    } else {
        return Err(ErrorKind::BuildFailed);
    };
    let mut arguments: Vec<String> = Vec::new();
    arguments.push(String::from_str("react-native"));
    arguments.push(String::from_str("bundle"));
    arguments.push(String::from_str("--platform"));
    arguments.push(name);
    arguments.push(String::from_str("--dev"));
    arguments.push(String::from_str("false"));
    arguments.push(String::from_str("--entry-file"));
    arguments.push(String::from_str(entry_file));
    arguments.push(String::from_str("--bundle-output"));
    arguments.push(bundle.clone());
    arguments.push(String::from_str("--assets-dest"));
    arguments.push(String::from_str(output_dir));
    proof {
        assert(text_views(arguments@) =~= build_arguments(
            platform@,
            entry_file@,
            output_dir@,
            bundle@,
        ));
    }
    Ok(BuildCommand { program: String::from_str("npx"), arguments, bundle_output: bundle })
}

/// Reads the build tool's exit: anything but success is `BuildFailed`.
pub fn build_outcome(succeeded: bool) -> (outcome: Result<(), ErrorKind>)
    ensures
        outcome == if succeeded {
            Ok::<(), ErrorKind>(())
        } else {
            Err(ErrorKind::BuildFailed)
        },
{
    if succeeded {
        Ok(())
    } else {
        Err(ErrorKind::BuildFailed)
    }
}

/// Something found under the build directory.
#[derive(Clone, Debug, PartialEq, Eq)]
pub struct BundleEntry {
    /// Its path relative to the build directory; empty for the directory
    /// itself.
    pub relative_path: String,
    pub is_dir: bool,
    /// Its size in bytes, if it is a file.
    pub size: u64,
}

/// An entry of the compressed bundle.
#[derive(Clone, Debug, PartialEq, Eq)]
pub struct ArchiveItem {
    /// Its name in the archive, with forward slashes.
    pub name: String,
    pub is_dir: bool,
    /// The position, in the list that was walked, of the entry it comes
    /// from.
    pub source: usize,
}

/// What goes into the compressed bundle, and how much that is.
#[derive(Clone, Debug, PartialEq, Eq)]
pub struct ArchivePlan {
    pub items: Vec<ArchiveItem>,
    pub file_count: u64,
    /// The files' sizes added up; `u64::MAX` if the sum is beyond that.
    pub total_size: u64,
}

/// A path with every backslash turned into a forward slash.
pub open spec fn with_forward_slashes(path: Seq<char>) -> Seq<char> {
    Seq::new(
        path.len(),
        |i: int|
            if path[i] == '\\' {
                '/'
            } else {
                path[i]
            },
    )
}

/// `str::replace`, of the backslash by a forward slash: trusted to replace
/// every backslash and nothing else.
#[verifier::external_body]
pub(crate) fn forward_slashes(path: &str) -> (name: String)
    ensures
        name@ == with_forward_slashes(path@),
{
    path.replace('\\', "/")
}

/// The mathematical content of an [`ArchiveItem`].
pub struct ItemView {
    pub name: Seq<char>,
    pub is_dir: bool,
    pub source: int,
}

/// Whether an entry of the walk goes into the archive: all do but the
/// build directory itself and the archive, should the walk have come
/// across one left there.
pub open spec fn goes_in(entry: BundleEntry, archive: Seq<char>) -> bool {
    entry.relative_path@.len() > 0 && entry.relative_path@ != archive
}

/// The items that a walk gives, in its order: one for every entry that
/// goes in.
pub open spec fn archive_items(entries: Seq<BundleEntry>, archive: Seq<char>) -> Seq<ItemView>
    decreases entries.len(),
{
    if entries.len() == 0 {
        Seq::empty()
    } else {
        let before = archive_items(entries.drop_last(), archive);
        let last = entries.last();
        if !goes_in(last, archive) {
            before
        } else {
            before.push(
                ItemView {
                    name: with_forward_slashes(last.relative_path@),
                    is_dir: last.is_dir,
                    source: entries.len() - 1,
                },
            )
        }
    }
}

/// Whether an entry is a file that goes into the bundle.
pub open spec fn is_bundled_file(entry: BundleEntry, archive: Seq<char>) -> bool {
    goes_in(entry, archive) && !entry.is_dir
}

/// How many files a walk gives.
pub open spec fn bundled_files(entries: Seq<BundleEntry>, archive: Seq<char>) -> nat
    decreases entries.len(),
{
    if entries.len() == 0 {
        0
    } else {
        bundled_files(entries.drop_last(), archive) + if is_bundled_file(entries.last(), archive) {
            1nat
        } else {
            0nat
        }
    }
}

/// How many bytes the files of a walk have together.
pub open spec fn bundled_bytes(entries: Seq<BundleEntry>, archive: Seq<char>) -> nat
    decreases entries.len(),
{
    if entries.len() == 0 {
        0
    } else {
        bundled_bytes(entries.drop_last(), archive) + if is_bundled_file(entries.last(), archive) {
            entries.last().size as nat
        } else {
            0nat
        }
    }
}

/// The views of a list of items.
pub open spec fn item_views(items: Seq<ArchiveItem>) -> Seq<ItemView> {
    Seq::new(
        items.len(),
        |i: int| ItemView { name: items[i].name@, is_dir: items[i].is_dir, source: items[i].source as int },
    )
}

/// Plans the compressed bundle from a walk of the build directory: every
/// entry goes in, in the walk's order, under its relative path with
/// forward slashes, but for the directory itself and for `archive`, the
/// relative path of the archive that is being made; the files are counted
/// and their sizes added up.
pub fn compress_bundle(entries: &Vec<BundleEntry>, archive: &String) -> (plan: ArchivePlan)
    ensures
        item_views(plan.items@) == archive_items(entries@, archive@),
        plan.file_count == bundled_files(entries@, archive@),
        plan.total_size == if bundled_bytes(entries@, archive@) <= u64::MAX {
            bundled_bytes(entries@, archive@)
        } else {
            u64::MAX as nat
        },
{
    let mut items: Vec<ArchiveItem> = Vec::new();
    let mut file_count: u64 = 0;
    let mut total_size: u64 = 0;
    let mut i: usize = 0;
    while i < entries.len()
        invariant
            i <= entries@.len(),
            item_views(items@) == archive_items(entries@.take(i as int), archive@),
            file_count == bundled_files(entries@.take(i as int), archive@),
            file_count <= i,
            total_size == if bundled_bytes(entries@.take(i as int), archive@) <= u64::MAX {
                bundled_bytes(entries@.take(i as int), archive@)
            } else {
                u64::MAX as nat
            },
        decreases entries@.len() - i,
    {
        proof {
            assert(entries@.take(i + 1).drop_last() =~= entries@.take(i as int));
            assert(entries@.take(i + 1).last() == entries@[i as int]);
        }
        let entry = &entries[i];
        if entry.relative_path.as_str().unicode_len() > 0 && entry.relative_path != *archive {
            let ghost before = item_views(items@);
            items.push(
                ArchiveItem {
                    name: forward_slashes(entry.relative_path.as_str()),
                    is_dir: entry.is_dir,
                    source: i,
                },
            );
            proof {
                assert(item_views(items@) =~= before.push(
                    ItemView {
                        name: with_forward_slashes(entry.relative_path@),
                        is_dir: entry.is_dir,
                        source: i as int,
                    },
                ));
            }
            if !entry.is_dir {
                file_count += 1;
                total_size = if total_size > u64::MAX - entry.size {
                    u64::MAX
                } else {
                    total_size + entry.size
                };
            }
        }
        i += 1;
    }
    proof {
        assert(entries@.take(entries@.len() as int) =~= entries@);
    }
    ArchivePlan { items, file_count, total_size }
}

} // verus!
