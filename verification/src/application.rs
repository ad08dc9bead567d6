//! The application on a host: the bundle it is made of, the agent that runs it,
//! and the order in which a release is installed, published and rolled back.
use crate::digest::{DIGEST_INPUT_LIMIT, hex, lower_hex, sha256, sha256_hex, validate_lower_hex};
use crate::lists::{in_order, law_lining_up_orders_and_keeps, lemma_placed_at, lined_up};
use crate::order::{
    bytes_in_order, bytes_le, law_byte_order_is_total, law_byte_order_is_transitive,
};
use crate::text::{
    blank, cat2, cat3, cat4, cat5, cat6, decimal, has_part, holds_text, is_blank, is_text, join,
    joined, number, quote_option, quoted_option, replace_char, replaced_char, same,
    signed_decimal, signed_number, stands_at, texts, trim, trimmed,
};
use vstd::prelude::*;
use vstd::slice::slice_to_vec;
use vstd::string::*;
use vstd::utf8::*;

verus! {

/// The agent on a host.
pub const REMOTE_AGENT: &'static str = "/opt/vultr-edge-stack/bin/edge-agent";

/// The agent that the present one took the place of.
pub const REMOTE_PREVIOUS_AGENT: &'static str = "/opt/vultr-edge-stack/bin/edge-agent.previous";

/// The marker of the bundle that runs.
pub const REMOTE_STACK_RELEASE: &'static str =
    "/opt/vultr-edge-stack/stack/.application-release.json";

/// The marker of the bundle that ran before.
pub const REMOTE_PREVIOUS_STACK_RELEASE: &'static str =
    "/opt/vultr-edge-stack/stack.previous/.application-release.json";

/// The record of the published releases.
pub const REMOTE_CONTROL_RELEASE: &'static str = "/opt/vultr-edge-stack/application-release.json";

/// Where the record is put before it takes its place.
pub const REMOTE_CONTROL_RELEASE_STAGING: &'static str = "/tmp/singbox-application-release.json.tmp";

/// The file that keeps the agent off the network.
pub const AGENT_DROPIN_PATH: &'static str =
    "/etc/systemd/system/edge-agent.service.d/90-application-control.conf";

/// What that file holds.
pub const AGENT_DROPIN_CONTENT: &'static str =
    "[Service]\nEnvironment=EDGE_AGENT_ADDR=127.0.0.1:50061\nEnvironmentFile=\n";

/// The file with the public part of the runtime's settings.
pub const POLICY_FILE: &'static str = ".env.runtime.policy";

/// The file with the settings of the runtime, which only the host has.
pub const RUNTIME_FILE: &'static str = ".env.runtime";

/// How much of the application is started.
#[derive(Debug, Clone, Copy, PartialEq, Eq, Structural)]
pub enum ApplicationBootstrapMode {
    Base,
    Tunnel,
    Full,
}

/// How much an agent is told to start.
#[derive(Debug, Clone, Copy, PartialEq, Eq, Structural)]
pub enum BootstrapMode {
    Unspecified,
    BootstrapBase,
    BootstrapTunnel,
    BootstrapFull,
}

/// The name of a mode in messages.
pub open spec fn mode_name(mode: BootstrapMode) -> Seq<char> {
    match mode {
        BootstrapMode::Unspecified => "BOOTSTRAP_MODE_UNSPECIFIED"@,
        BootstrapMode::BootstrapBase => "BOOTSTRAP_BASE"@,
        BootstrapMode::BootstrapTunnel => "BOOTSTRAP_TUNNEL"@,
        BootstrapMode::BootstrapFull => "BOOTSTRAP_FULL"@,
    }
}

impl BootstrapMode {
    /// The name of the mode in messages.
    pub fn as_str_name(self) -> (r: &'static str)
        ensures
            r@ == mode_name(self),
    {
        match self {
            BootstrapMode::Unspecified => "BOOTSTRAP_MODE_UNSPECIFIED",
            BootstrapMode::BootstrapBase => "BOOTSTRAP_BASE",
            BootstrapMode::BootstrapTunnel => "BOOTSTRAP_TUNNEL",
            BootstrapMode::BootstrapFull => "BOOTSTRAP_FULL",
        }
    }
}

/// What an agent is told to start for the application's mode.
pub open spec fn agent_mode(mode: ApplicationBootstrapMode) -> BootstrapMode {
    match mode {
        ApplicationBootstrapMode::Base => BootstrapMode::BootstrapBase,
        ApplicationBootstrapMode::Tunnel => BootstrapMode::BootstrapTunnel,
        ApplicationBootstrapMode::Full => BootstrapMode::BootstrapFull,
    }
}

/// What an agent is told to start for the application's mode.
pub fn proto_bootstrap_mode(mode: ApplicationBootstrapMode) -> (r: BootstrapMode)
    ensures
        r == agent_mode(mode),
{
    match mode {
        ApplicationBootstrapMode::Base => BootstrapMode::BootstrapBase,
        ApplicationBootstrapMode::Tunnel => BootstrapMode::BootstrapTunnel,
        ApplicationBootstrapMode::Full => BootstrapMode::BootstrapFull,
    }
}

/// What came of looking for the agent's artifact.
#[derive(Debug, PartialEq, Eq)]
pub enum ArtifactFile {
    Missing,
    Unreadable(String),
    Bytes(Vec<u8>),
}

/// Why an artifact is not the one that its manifest names, if it is not.
pub open spec fn artifact_fault(
    manifest: Result<(), String>,
    sha: Seq<char>,
    path: Seq<char>,
    file: ArtifactFile,
) -> Option<Seq<char>> {
    match manifest {
        Err(e) => Some(e@),
        Ok(()) => match file {
            ArtifactFile::Missing => Some("exact edge-agent artifact was not found: "@ + path),
            ArtifactFile::Unreadable(e) => Some(
                "failed to read exact edge-agent artifact "@ + path + ": "@ + e@,
            ),
            ArtifactFile::Bytes(bytes) => if hex(sha256(bytes@)) == sha {
                None
            } else {
                Some(
                    "edge-agent artifact digest mismatch: manifest="@ + sha + " observed="@ + hex(
                        sha256(bytes@),
                    ),
                )
            },
        },
    }
}

/// Checks that an artifact is the one that its manifest names. `manifest` says
/// whether the manifest is sound, `sha256` is the digest it gives.
pub fn verify_exact_agent_artifact(
    manifest: Result<(), String>,
    sha256: &str,
    artifact_path: &str,
    file: &ArtifactFile,
) -> (r: Result<(), String>)
    requires
        file matches ArtifactFile::Bytes(b) ==> b@.len() <= DIGEST_INPUT_LIMIT,
    ensures
        match r {
            Ok(()) => artifact_fault(manifest, sha256@, artifact_path@, *file) is None,
            Err(e) => artifact_fault(manifest, sha256@, artifact_path@, *file) == Some(e@),
        },
{
    match manifest {
        Err(e) => {
            return Err(e);
        },
        Ok(()) => {},
    }
    match file {
        ArtifactFile::Missing => Err(
            cat2("exact edge-agent artifact was not found: ", artifact_path),
        ),
        ArtifactFile::Unreadable(e) => Err(
            cat4("failed to read exact edge-agent artifact ", artifact_path, ": ", e.as_str()),
        ),
        ArtifactFile::Bytes(bytes) => {
            let observed: String = sha256_hex(bytes.as_slice());
            if same(observed.as_str(), sha256) {
                Ok(())
            } else {
                Err(
                    cat4(
                        "edge-agent artifact digest mismatch: manifest=",
                        sha256,
                        " observed=",
                        observed.as_str(),
                    ),
                )
            }
        },
    }
}

/// A file of a bundle.
#[derive(Debug, Clone, PartialEq, Eq)]
pub struct BundleFile {
    pub relative_path: String,
    pub content: Vec<u8>,
    pub executable: bool,
    pub sensitive: bool,
}

/// A file of a bundle, as text and bytes.
pub struct FileText {
    pub relative_path: Seq<char>,
    pub content: Seq<u8>,
    pub executable: bool,
    pub sensitive: bool,
}

impl View for BundleFile {
    type V = FileText;

    open spec fn view(&self) -> FileText {
        FileText {
            relative_path: self.relative_path@,
            content: self.content@,
            executable: self.executable,
            sensitive: self.sensitive,
        }
    }
}

/// Files of a bundle, as text and bytes.
pub open spec fn file_texts(files: Seq<BundleFile>) -> Seq<FileText> {
    files.map_values(|f: BundleFile| f@)
}

/// What a directory of a bundle holds, in whatever order, or why that is not
/// known.
#[derive(Debug, PartialEq, Eq)]
pub enum BundleListing {
    /// The directory could not be read.
    Unreadable(String),
    /// Its entries could not all be read.
    Broken(String),
    Entries(Vec<BundleEntry>),
}

/// An entry of a directory of a bundle, by its name and its path.
#[derive(Debug, PartialEq, Eq)]
pub struct BundleEntry {
    pub name: Vec<u8>,
    pub path: String,
    pub kind: EntryKind,
}

/// What an entry of a directory is.
#[derive(Debug, PartialEq, Eq)]
pub enum EntryKind {
    /// It could not be inspected.
    Unknown(String),
    Symlink,
    Directory(BundleListing),
    /// Neither a file nor a directory.
    Unsupported,
    /// A file, by its path below the bundle's directory. `normalized` says
    /// whether that path is made of names alone.
    File { relative: String, normalized: bool, content: Result<Vec<u8>, String> },
}

/// The path of a file in a bundle.
pub open spec fn bundle_path(relative: Seq<char>) -> Seq<char> {
    replaced_char(relative, '\\', "/"@)
}

/// What a file becomes in a bundle, or why it cannot be part of one.
pub open spec fn file_of(
    path: Seq<char>,
    relative: Seq<char>,
    normalized: bool,
    content: Result<Vec<u8>, String>,
) -> Result<FileText, Seq<char>> {
    if !normalized {
        Err("application bundle path is not normalized: "@ + relative)
    } else if bundle_path(relative) == RUNTIME_FILE@ {
        Err("application bundle source must not contain .env.runtime"@)
    } else {
        match content {
            Err(e) => Err("failed to read bundle file "@ + path + ": "@ + e@),
            Ok(bytes) => Ok(
                FileText {
                    relative_path: bundle_path(relative),
                    content: bytes@,
                    executable: bundle_path(relative) == "bootstrap.sh"@,
                    sensitive: false,
                },
            ),
        }
    }
}

/// What an entry of a directory comes to: its files, or what is wrong with it.
pub struct PartText {
    pub name: Seq<u8>,
    pub files: Result<Seq<FileText>, Seq<char>>,
}

/// The order of parts by the bytes of their names.
pub open spec fn by_name() -> spec_fn(PartText, PartText) -> bool {
    |a: PartText, b: PartText| bytes_le(a.name, b.name)
}

/// The files of all parts in turn, or what is wrong with the first part that
/// has something wrong with it.
pub open spec fn in_turn(parts: Seq<PartText>) -> Result<Seq<FileText>, Seq<char>>
    decreases parts.len(),
{
    if parts.len() == 0 {
        Ok(Seq::empty())
    } else {
        match in_turn(parts.drop_last()) {
            Err(e) => Err(e),
            Ok(files) => match parts.last().files {
                Err(e) => Err(e),
                Ok(more) => Ok(files + more),
            },
        }
    }
}

/// What each entry of a directory comes to.
pub open spec fn parts_of(entries: Vec<BundleEntry>) -> Seq<PartText>
    decreases entries,
{
    Seq::new(
        entries@.len(),
        |i: int|
            if 0 <= i < entries@.len() {
                PartText { name: entries@[i].name@, files: gathered_from(entries@[i]) }
            } else {
                arbitrary()
            },
    )
}

/// The files that an entry of a directory stands for.
pub open spec fn gathered_from(entry: BundleEntry) -> Result<Seq<FileText>, Seq<char>>
    decreases entry,
{
    match entry.kind {
        EntryKind::Unknown(e) => Err("failed to inspect bundle path "@ + entry.path@ + ": "@ + e@),
        EntryKind::Symlink => Err("application bundle symlinks are not allowed: "@ + entry.path@),
        EntryKind::Directory(listing) => gathered(entry.path@, listing),
        EntryKind::Unsupported => Err(
            "application bundle contains unsupported filesystem entry: "@ + entry.path@,
        ),
        EntryKind::File { relative, normalized, content } => match file_of(
            entry.path@,
            relative@,
            normalized,
            content,
        ) {
            Err(e) => Err(e),
            Ok(file) => Ok(seq![file]),
        },
    }
}

/// The files below a directory of a bundle, its entries taken in the order of
/// their names, or what is wrong with the first that cannot be part of a
/// bundle.
pub open spec fn gathered(path: Seq<char>, listing: BundleListing) -> Result<
    Seq<FileText>,
    Seq<char>,
>
    decreases listing,
{
    match listing {
        BundleListing::Unreadable(e) => Err(
            "failed to read application bundle "@ + path + ": "@ + e@,
        ),
        BundleListing::Broken(e) => Err("failed to enumerate application bundle: "@ + e@),
        BundleListing::Entries(entries) => in_turn(lined_up(parts_of(entries), by_name())),
    }
}

/// Whether a result is what the model says.
pub open spec fn yields(
    model: Result<Seq<FileText>, Seq<char>>,
    r: Result<Vec<BundleFile>, String>,
) -> bool {
    match model {
        Err(words) => r matches Err(e) && e@ == words,
        Ok(files) => r matches Ok(found) && file_texts(found@) == files,
    }
}

/// What an entry of a directory came to.
struct BundlePart {
    name: Vec<u8>,
    files: Result<Vec<BundleFile>, String>,
}

spec fn is_part(model: PartText, part: BundlePart) -> bool {
    model.name == part.name@ && yields(model.files, part.files)
}

spec fn are_parts(models: Seq<PartText>, parts: Seq<BundlePart>) -> bool {
    &&& models.len() == parts.len()
    &&& forall|i: int| 0 <= i < parts.len() ==> is_part(models[i], #[trigger] parts[i])
}

proof fn lemma_in_turn_fails(parts: Seq<PartText>, i: int)
    requires
        0 <= i <= parts.len(),
        in_turn(parts.take(i)) is Err,
    ensures
        in_turn(parts) == in_turn(parts.take(i)),
    decreases parts.len() - i,
{
    if i == parts.len() {
        assert(parts.take(i) =~= parts);
    } else {
        assert(parts.take(i + 1).drop_last() =~= parts.take(i));
        lemma_in_turn_fails(parts, i + 1);
    }
}

fn merge_parts(parts: Vec<BundlePart>, models: Ghost<Seq<PartText>>) -> (r: Result<
    Vec<BundleFile>,
    String,
>)
    requires
        are_parts(models@, parts@),
    ensures
        yields(in_turn(models@), r),
{
    let ghost all = parts@;
    let ghost mut n: int = 0;
    let mut left: Vec<BundlePart> = parts;
    let mut files: Vec<BundleFile> = Vec::new();
    assert(file_texts(files@) =~= Seq::<FileText>::empty());
    while left.len() > 0
        invariant
            0 <= n <= all.len(),
            are_parts(models@, all),
            left@ == all.skip(n),
            in_turn(models@.take(n)) == Ok::<Seq<FileText>, Seq<char>>(file_texts(files@)),
        decreases left@.len(),
    {
        let part: BundlePart = left.remove(0);
        proof {
            assert(part == all[n]);
            assert(left@ =~= all.skip(n + 1));
            assert(models@.take(n + 1).drop_last() =~= models@.take(n));
            assert(is_part(models@[n], all[n]));
        }
        let mut more: Vec<BundleFile> = match part.files {
            Err(e) => {
                proof {
                    lemma_in_turn_fails(models@, n + 1);
                }
                return Err(e);
            },
            Ok(more) => more,
        };
        let ghost before = files@;
        let ghost added = more@;
        files.append(&mut more);
        proof {
            assert(file_texts(files@) =~= file_texts(before) + file_texts(added));
            n = n + 1;
        }
    }
    assert(models@.take(n) =~= models@);
    Ok(files)
}

fn collect_listing(path: &str, listing: BundleListing) -> (r: Result<Vec<BundleFile>, String>)
    ensures
        yields(gathered(path@, listing), r),
    decreases listing,
{
    let entries: Vec<BundleEntry> = match listing {
        BundleListing::Unreadable(e) => {
            return Err(cat4("failed to read application bundle ", path, ": ", e.as_str()));
        },
        BundleListing::Broken(e) => {
            return Err(cat2("failed to enumerate application bundle: ", e.as_str()));
        },
        BundleListing::Entries(entries) => entries,
    };
    let ghost given = entries;
    let ghost all = parts_of(given);
    let ghost le = by_name();
    let ghost mut sorted: Seq<PartText> = Seq::empty();
    let ghost mut n: int = 0;
    let mut left: Vec<BundleEntry> = entries;
    let mut parts: Vec<BundlePart> = Vec::new();
    while left.len() > 0
        invariant
            0 <= n <= given@.len(),
            listing == BundleListing::Entries(given),
            all == parts_of(given),
            le == by_name(),
            left@ == given@.skip(n),
            sorted == lined_up(all.take(n), le),
            are_parts(sorted, parts@),
        decreases left@.len(),
    {
        let entry: BundleEntry = left.remove(0);
        proof {
            assert(entry == given@[n]);
            assert(left@ =~= given@.skip(n + 1));
            assert(all.take(n + 1).drop_last() =~= all.take(n));
            assert(decreases_to!(given => given@[n]));
            assert(given == listing->Entries_0);
            assert(decreases_to!(listing => listing->Entries_0));
        }
        let part: BundlePart = collect_entry(entry);
        let ghost model = all[n];
        let mut i: usize = parts.len();
        while i > 0 && !bytes_in_order(&parts[i - 1].name, &part.name)
            invariant
                i <= parts@.len(),
                le == by_name(),
                is_part(model, part),
                are_parts(sorted, parts@),
                forall|k: int| i <= k < sorted.len() ==> !le(#[trigger] sorted[k], model),
            decreases i,
        {
            assert(is_part(sorted[i - 1], parts@[i - 1]));
            i = i - 1;
        }
        assert(i > 0 ==> is_part(sorted[i - 1], parts@[i - 1]));
        let ghost before = parts@;
        parts.insert(i, part);
        proof {
            lemma_placed_at(sorted, model, le, i as int);
            let grown = sorted.insert(i as int, model);
            assert forall|k: int| 0 <= k < parts@.len() implies is_part(
                grown[k],
                #[trigger] parts@[k],
            ) by {
                if k < i {
                    assert(is_part(sorted[k], before[k]));
                } else if k > i {
                    assert(is_part(sorted[k - 1], before[k - 1]));
                }
            }
            sorted = grown;
            n = n + 1;
        }
    }
    assert(all.take(n) =~= all);
    merge_parts(parts, Ghost(sorted))
}

fn collect_entry(entry: BundleEntry) -> (r: BundlePart)
    ensures
        r.name == entry.name,
        yields(gathered_from(entry), r.files),
    decreases entry,
{
    let path: String = entry.path;
    let files: Result<Vec<BundleFile>, String> = match entry.kind {
        EntryKind::Unknown(e) => Err(
            cat4("failed to inspect bundle path ", path.as_str(), ": ", e.as_str()),
        ),
        EntryKind::Symlink => Err(
            cat2("application bundle symlinks are not allowed: ", path.as_str()),
        ),
        EntryKind::Directory(listing) => collect_listing(path.as_str(), listing),
        EntryKind::Unsupported => Err(
            cat2("application bundle contains unsupported filesystem entry: ", path.as_str()),
        ),
        EntryKind::File { relative, normalized, content } => match bundle_file(
            path.as_str(),
            relative.as_str(),
            normalized,
            content,
        ) {
            Err(e) => Err(e),
            Ok(file) => {
                let mut one: Vec<BundleFile> = Vec::new();
                one.push(file);
                assert(file_texts(one@) =~= seq![file@]);
                Ok(one)
            },
        },
    };
    BundlePart { name: entry.name, files }
}

fn bundle_file(path: &str, relative: &str, normalized: bool, content: Result<Vec<u8>, String>) -> (r:
    Result<BundleFile, String>)
    ensures
        match file_of(path@, relative@, normalized, content) {
            Err(words) => r matches Err(e) && e@ == words,
            Ok(file) => r matches Ok(f) && f@ == file,
        },
{
    if !normalized {
        return Err(cat2("application bundle path is not normalized: ", relative));
    }
    let relative_path: String = replace_char(relative, '\\', "/");
    if same(relative_path.as_str(), RUNTIME_FILE) {
        return Err("application bundle source must not contain .env.runtime".to_owned());
    }
    match content {
        Err(e) => Err(cat4("failed to read bundle file ", path, ": ", e.as_str())),
        Ok(bytes) => {
            let executable: bool = same(relative_path.as_str(), "bootstrap.sh");
            Ok(BundleFile { relative_path, content: bytes, executable, sensitive: false })
        },
    }
}

/// Turns what lies below a bundle's directory into the bundle's files, each
/// directory in the order of its names.
pub fn collect_bundle_files(root: &str, listing: BundleListing) -> (r: Result<
    Vec<BundleFile>,
    String,
>)
    ensures
        yields(gathered(root@, listing), r),
{
    collect_listing(root, listing)
}

spec fn is_plain(file: FileText) -> bool {
    file.relative_path != RUNTIME_FILE@ && !file.sensitive
}

proof fn lemma_turns_are_plain(parts: Seq<PartText>)
    requires
        forall|i: int, k: int|
            0 <= i < parts.len() && parts[i].files is Ok && 0 <= k < parts[i].files->Ok_0.len()
                ==> is_plain(#[trigger] parts[i].files->Ok_0[k]),
        in_turn(parts) is Ok,
    ensures
        forall|k: int|
            0 <= k < in_turn(parts)->Ok_0.len() ==> is_plain(#[trigger] in_turn(parts)->Ok_0[k]),
    decreases parts.len(),
{
    if parts.len() > 0 {
        let before = parts.drop_last();
        assert forall|i: int, k: int|
            0 <= i < before.len() && before[i].files is Ok && 0 <= k
                < before[i].files->Ok_0.len() implies is_plain(
            #[trigger] before[i].files->Ok_0[k],
        ) by {
            assert(is_plain(parts[i].files->Ok_0[k]));
        }
        lemma_turns_are_plain(before);
        let last = parts[parts.len() - 1].files->Ok_0;
        assert forall|k: int| 0 <= k < last.len() implies is_plain(#[trigger] last[k]) by {
            assert(is_plain(parts[parts.len() - 1].files->Ok_0[k]));
        }
    }
}

proof fn lemma_entry_is_plain(entry: BundleEntry)
    ensures
        gathered_from(entry) matches Ok(files) ==> forall|k: int|
            0 <= k < files.len() ==> is_plain(#[trigger] files[k]),
    decreases entry,
{
    match entry.kind {
        EntryKind::Directory(listing) => lemma_listing_is_plain(entry.path@, listing),
        _ => {},
    }
}

proof fn lemma_listing_is_plain(path: Seq<char>, listing: BundleListing)
    ensures
        gathered(path, listing) matches Ok(files) ==> forall|k: int|
            0 <= k < files.len() ==> is_plain(#[trigger] files[k]),
    decreases listing,
{
    match listing {
        BundleListing::Entries(entries) => {
            let parts = parts_of(entries);
            let sorted = lined_up(parts, by_name());
            lemma_names_are_ordered(parts);
            assert forall|i: int, k: int|
                0 <= i < sorted.len() && sorted[i].files is Ok && 0 <= k
                    < sorted[i].files->Ok_0.len() implies is_plain(
                #[trigger] sorted[i].files->Ok_0[k],
            ) by {
                assert(sorted.contains(sorted[i]));
                let j = choose|j: int| 0 <= j < parts.len() && parts[j] == sorted[i];
                assert(decreases_to!(entries => entries@[j]));
                lemma_entry_is_plain(entries@[j]);
            }
            if in_turn(sorted) is Ok {
                lemma_turns_are_plain(sorted);
            }
        },
        _ => {},
    }
}

/// A bundle never holds the settings that only the host has, whatever is found
/// below its directory.
pub proof fn law_bundle_holds_no_runtime_file(root: Seq<char>, listing: BundleListing)
    ensures
        gathered(root, listing) matches Ok(files) ==> forall|k: int|
            0 <= k < files.len() ==> (#[trigger] files[k]).relative_path != RUNTIME_FILE@
                && !files[k].sensitive,
{
    lemma_listing_is_plain(root, listing);
    if gathered(root, listing) is Ok {
        let files = gathered(root, listing)->Ok_0;
        assert forall|k: int| 0 <= k < files.len() implies (#[trigger] files[k]).relative_path
            != RUNTIME_FILE@ && !files[k].sensitive by {
            assert(is_plain(files[k]));
        }
    }
}

proof fn lemma_names_are_ordered(parts: Seq<PartText>)
    ensures
        in_order(lined_up(parts, by_name()), by_name()),
        lined_up(parts, by_name()).to_multiset() == parts.to_multiset(),
        forall|x: PartText| #[trigger]
            lined_up(parts, by_name()).contains(x) <==> parts.contains(x),
{
    let le = by_name();
    assert forall|a: PartText, b: PartText| #[trigger] le(a, b) || le(b, a) by {
        law_byte_order_is_total(a.name, b.name);
    }
    assert forall|a: PartText, b: PartText, c: PartText| #[trigger] le(a, b) && #[trigger] le(
        b,
        c,
    ) implies le(a, c) by {
        law_byte_order_is_transitive(a.name, b.name, c.name);
    }
    law_lining_up_orders_and_keeps(parts, le);
    let sorted = lined_up(parts, le);
    assert forall|x: PartText| #[trigger] sorted.contains(x) <==> parts.contains(x) by {
        sorted.to_multiset_ensures();
        parts.to_multiset_ensures();
        assert(sorted.contains(x) <==> sorted.to_multiset().count(x) > 0);
        assert(parts.contains(x) <==> parts.to_multiset().count(x) > 0);
    }
}

proof fn lemma_reordering_keeps_parts(s: Seq<BundleEntry>, t: Seq<BundleEntry>, f: spec_fn(
    BundleEntry,
) -> PartText)
    requires
        s.to_multiset() == t.to_multiset(),
    ensures
        s.map_values(f).to_multiset() == t.map_values(f).to_multiset(),
    decreases s.len(),
{
    broadcast use vstd::seq_lib::group_to_multiset_ensures;

    s.to_multiset_ensures();
    t.to_multiset_ensures();
    assert(s.len() == t.len());
    if s.len() == 0 {
        assert(s.map_values(f) =~= t.map_values(f));
    } else {
        let head = s.drop_last();
        assert(s =~= head.push(s.last()));
        assert(t.to_multiset().count(s.last()) > 0);
        assert(t.contains(s.last()));
        let j = choose|j: int| 0 <= j < t.len() && t[j] == s.last();
        let rest = t.remove(j);
        assert(rest.to_multiset() =~= t.to_multiset().remove(t[j]));
        assert(head.to_multiset() =~= s.to_multiset().remove(s.last()));
        lemma_reordering_keeps_parts(head, rest, f);
        assert(s.map_values(f) =~= head.map_values(f).push(f(s.last())));
        assert(rest.map_values(f) =~= t.map_values(f).remove(j));
        assert(t.map_values(f)[j] == f(s.last()));
        assert(t.map_values(f).to_multiset() =~= t.map_values(f).remove(j).to_multiset().insert(
            f(s.last()),
        ));
    }
}

proof fn lemma_one_order(x: Seq<PartText>, y: Seq<PartText>)
    requires
        in_order(x, by_name()),
        in_order(y, by_name()),
        x.to_multiset() == y.to_multiset(),
        forall|p: PartText, q: PartText|
            #[trigger] x.contains(p) && #[trigger] x.contains(q) && p.name == q.name ==> p == q,
    ensures
        x == y,
    decreases x.len(),
{
    broadcast use vstd::seq_lib::group_to_multiset_ensures;

    x.to_multiset_ensures();
    y.to_multiset_ensures();
    assert(x.len() == y.len());
    if x.len() == 0 {
        assert(x =~= y);
    } else {
        let le = by_name();
        let p = x.last();
        let q = y.last();
        assert(x[x.len() - 1] == p && y[y.len() - 1] == q);
        assert(x.contains(p) && y.contains(q));
        assert(y.to_multiset().count(p) > 0);
        assert(x.to_multiset().count(q) > 0);
        assert(y.contains(p) && x.contains(q));
        let i = choose|i: int| 0 <= i < y.len() && y[i] == p;
        let j = choose|j: int| 0 <= j < x.len() && x[j] == q;
        law_byte_order_is_total(p.name, q.name);
        law_byte_order_is_total(p.name, p.name);
        assert(le(p, q)) by {
            if i < y.len() - 1 {
                assert(le(y[i], y[y.len() - 1]));
            }
        }
        assert(le(q, p)) by {
            if j < x.len() - 1 {
                assert(le(x[j], x[x.len() - 1]));
            }
        }
        assert(p == q);
        let a = x.drop_last();
        let b = y.drop_last();
        assert(x =~= a.push(p));
        assert(y =~= b.push(p));
        assert(a.to_multiset() =~= x.to_multiset().remove(p));
        assert(b.to_multiset() =~= y.to_multiset().remove(p));
        assert forall|s: PartText, t: PartText|
            #[trigger] a.contains(s) && #[trigger] a.contains(t) && s.name == t.name implies s
            == t by {
            let k = choose|k: int| 0 <= k < a.len() && a[k] == s;
            let m = choose|m: int| 0 <= m < a.len() && a[m] == t;
            assert(x[k] == s && x[m] == t);
            assert(x.contains(s) && x.contains(t));
        }
        lemma_one_order(a, b);
    }
}

/// The order in which a directory's entries happen to be listed is immaterial:
/// the same entries, each under a name of its own, make the same bundle.
pub proof fn law_listing_order_is_immaterial(
    path: Seq<char>,
    one: Vec<BundleEntry>,
    other: Vec<BundleEntry>,
)
    requires
        one@.to_multiset() == other@.to_multiset(),
        forall|i: int, j: int|
            0 <= i < one@.len() && 0 <= j < one@.len() && (#[trigger] one@[i]).name@ == (
            #[trigger] one@[j]).name@ ==> i == j,
    ensures
        gathered(path, BundleListing::Entries(one)) == gathered(
            path,
            BundleListing::Entries(other),
        ),
{
    let f = |e: BundleEntry| PartText { name: e.name@, files: gathered_from(e) };
    assert(parts_of(one) =~= one@.map_values(f));
    assert(parts_of(other) =~= other@.map_values(f));
    lemma_reordering_keeps_parts(one@, other@, f);
    lemma_names_are_ordered(parts_of(one));
    lemma_names_are_ordered(parts_of(other));
    let x = lined_up(parts_of(one), by_name());
    assert forall|p: PartText, q: PartText|
        #[trigger] x.contains(p) && #[trigger] x.contains(q) && p.name == q.name implies p == q by {
        assert(parts_of(one).contains(p) && parts_of(one).contains(q));
        let i = choose|i: int| 0 <= i < parts_of(one).len() && parts_of(one)[i] == p;
        let j = choose|j: int| 0 <= j < parts_of(one).len() && parts_of(one)[j] == q;
        assert(one@[i].name@ == one@[j].name@);
    }
    lemma_one_order(x, lined_up(parts_of(other), by_name()));
}

/// The names of the line that is reached through a tunnel.
#[derive(Debug, Clone, PartialEq, Eq)]
pub struct Line1RuntimePolicy {
    pub reality_server_name: String,
    pub tunnel_domain: String,
    pub acme_email: String,
}

/// The names of the line that is reached through a proxy.
#[derive(Debug, Clone, PartialEq, Eq)]
pub struct Line2RuntimePolicy {
    pub proxy_username: String,
    pub proxy_cert_cn: String,
}

/// The public part of the runtime's settings.
#[derive(Debug, Clone, PartialEq, Eq)]
pub struct ApplicationRuntimePolicy {
    pub line1: Option<Line1RuntimePolicy>,
    pub line2: Option<Line2RuntimePolicy>,
}

/// A setting on a line of its own.
pub open spec fn setting(key: Seq<char>, value: Seq<char>) -> Seq<char> {
    key + "="@ + value + "\n"@
}

/// The public settings, those of the second line first.
pub open spec fn policy_text(policy: ApplicationRuntimePolicy) -> Seq<char> {
    let second = match policy.line2 {
        Some(l) => setting("PROXY_USERNAME"@, l.proxy_username@) + setting(
            "PROXY_CERT_CN"@,
            l.proxy_cert_cn@,
        ),
        None => Seq::empty(),
    };
    let first = match policy.line1 {
        Some(l) => setting("REALITY_SERVER_NAME"@, l.reality_server_name@) + setting(
            "TUNNEL_DOMAIN"@,
            l.tunnel_domain@,
        ) + setting("ACME_EMAIL"@, l.acme_email@),
        None => Seq::empty(),
    };
    second + first
}

fn setting_line(key: &str, value: &str) -> (r: String)
    ensures
        r@ == setting(key@, value@),
{
    cat4(key, "=", value, "\n")
}

/// Renders the public settings.
pub fn render_runtime_policy_environment(policy: &ApplicationRuntimePolicy) -> (r: String)
    ensures
        r@ == policy_text(*policy),
{
    let second: String = match &policy.line2 {
        Some(l) => cat2(
            setting_line("PROXY_USERNAME", l.proxy_username.as_str()).as_str(),
            setting_line("PROXY_CERT_CN", l.proxy_cert_cn.as_str()).as_str(),
        ),
        None => String::new(),
    };
    let first: String = match &policy.line1 {
        Some(l) => cat3(
            setting_line("REALITY_SERVER_NAME", l.reality_server_name.as_str()).as_str(),
            setting_line("TUNNEL_DOMAIN", l.tunnel_domain.as_str()).as_str(),
            setting_line("ACME_EMAIL", l.acme_email.as_str()).as_str(),
        ),
        None => String::new(),
    };
    cat2(second.as_str(), first.as_str())
}

/// The root of a bundle as it was found.
#[derive(Debug, PartialEq, Eq)]
pub struct BundleRoot {
    pub path: String,
    pub is_dir: bool,
    pub has_runtime_file: bool,
    pub has_policy_file: bool,
}

/// Why a directory cannot be the root of a bundle, if it cannot.
pub open spec fn root_fault(root: BundleRoot) -> Option<Seq<char>> {
    if !root.is_dir {
        Some("application bundle root is missing: "@ + root.path@)
    } else if root.has_runtime_file {
        Some(
            "committed application bundle must not contain .env.runtime; the VM derives it from Git-owned policy and VM-owned credentials"@,
        )
    } else if root.has_policy_file {
        Some(
            "committed application bundle must not contain .env.runtime.policy; runtime policy is derived only from application desired state"@,
        )
    } else {
        None
    }
}

/// Checks the root of a bundle.
pub fn check_bundle_root(root: &BundleRoot) -> (r: Result<(), String>)
    ensures
        match r {
            Ok(()) => root_fault(*root) is None,
            Err(e) => root_fault(*root) == Some(e@),
        },
{
    if !root.is_dir {
        Err(cat2("application bundle root is missing: ", root.path.as_str()))
    } else if root.has_runtime_file {
        Err(
            "committed application bundle must not contain .env.runtime; the VM derives it from Git-owned policy and VM-owned credentials".to_owned(),
        )
    } else if root.has_policy_file {
        Err(
            "committed application bundle must not contain .env.runtime.policy; runtime policy is derived only from application desired state".to_owned(),
        )
    } else {
        Ok(())
    }
}

/// What an agent is handed to run.
#[derive(Debug, PartialEq, Eq)]
pub struct ApplyBundleRequest {
    pub stack_files: Vec<BundleFile>,
    pub host_files: Vec<BundleFile>,
    pub prune_existing: bool,
    pub bundle_id: Option<String>,
    pub bundle_digest: Option<String>,
}

/// The file with the public settings.
pub open spec fn policy_file(policy: ApplicationRuntimePolicy) -> FileText {
    FileText {
        relative_path: POLICY_FILE@,
        content: encode_utf8(policy_text(policy)),
        executable: false,
        sensitive: false,
    }
}

/// The files of a bundle: those found, and after them the one with the public
/// settings. Otherwise what is wrong, first with the wanted state, then with
/// the manifest, the root and what lies below it.
pub open spec fn bundle_files(
    desired: Result<(), String>,
    manifest: Result<(), String>,
    root: BundleRoot,
    listing: BundleListing,
    policy: ApplicationRuntimePolicy,
) -> Result<Seq<FileText>, Seq<char>> {
    match (desired, manifest, root_fault(root), gathered(root.path@, listing)) {
        (Err(e), _, _, _) => Err(e@),
        (_, Err(e), _, _) => Err(e@),
        (_, _, Some(words), _) => Err(words),
        (_, _, _, Err(words)) => Err(words),
        (_, _, _, Ok(files)) => Ok(files.push(policy_file(policy))),
    }
}

/// Puts a bundle together. `desired` and `manifest` say whether the wanted
/// state and the agent's manifest are valid, and `bundle_id` is what they
/// name the bundle. It has no digest yet.
pub fn prepare_application_bundle(
    desired: Result<(), String>,
    manifest: Result<(), String>,
    root: &BundleRoot,
    listing: BundleListing,
    policy: &ApplicationRuntimePolicy,
    bundle_id: Result<String, String>,
) -> (r: Result<ApplyBundleRequest, String>)
    ensures
        match bundle_files(desired, manifest, *root, listing, *policy) {
            Err(words) => r matches Err(e) && e@ == words,
            Ok(files) => match bundle_id {
                Err(e) => r == Err::<ApplyBundleRequest, String>(e),
                Ok(id) => {
                    &&& r matches Ok(request)
                    &&& file_texts(request.stack_files@) == files
                    &&& request.host_files@.len() == 0
                    &&& request.prune_existing
                    &&& request.bundle_id == Some(id)
                    &&& request.bundle_digest is None
                },
            },
        },
{
    match desired {
        Err(e) => return Err(e),
        Ok(()) => {},
    }
    match manifest {
        Err(e) => return Err(e),
        Ok(()) => {},
    }
    match check_bundle_root(root) {
        Err(e) => return Err(e),
        Ok(()) => {},
    }
    let mut stack_files: Vec<BundleFile> = match collect_bundle_files(root.path.as_str(), listing) {
        Err(e) => return Err(e),
        Ok(files) => files,
    };
    let text: String = render_runtime_policy_environment(policy);
    let content: Vec<u8> = slice_to_vec(text.as_str().as_bytes());
    let ghost found = stack_files@;
    stack_files.push(
        BundleFile {
            relative_path: POLICY_FILE.to_owned(),
            content,
            executable: false,
            sensitive: false,
        },
    );
    assert(file_texts(stack_files@) =~= file_texts(found).push(policy_file(*policy)));
    match bundle_id {
        Err(e) => Err(e),
        Ok(id) => Ok(
            ApplyBundleRequest {
                stack_files,
                host_files: Vec::new(),
                prune_existing: true,
                bundle_id: Some(id),
                bundle_digest: None,
            },
        ),
    }
}

/// A release as it is published. `details` is what else is published of it.
#[derive(Debug, PartialEq, Eq)]
pub struct PublishedApplicationRelease {
    pub release_id: String,
    pub agent_sha256: String,
    pub bundle_digest: String,
    pub bootstrap_mode: ApplicationBootstrapMode,
    pub details: String,
}

/// Whether two releases are the same in everything.
pub open spec fn same_release(
    a: PublishedApplicationRelease,
    b: PublishedApplicationRelease,
) -> bool {
    &&& a.release_id@ == b.release_id@
    &&& a.agent_sha256@ == b.agent_sha256@
    &&& a.bundle_digest@ == b.bundle_digest@
    &&& a.bootstrap_mode == b.bootstrap_mode
    &&& a.details@ == b.details@
}

impl PublishedApplicationRelease {
    /// Whether the other release is the same in everything.
    pub fn is_same(&self, other: &PublishedApplicationRelease) -> (r: bool)
        ensures
            r == same_release(*self, *other),
    {
        same(self.release_id.as_str(), other.release_id.as_str()) && same(
            self.agent_sha256.as_str(),
            other.agent_sha256.as_str(),
        ) && same(self.bundle_digest.as_str(), other.bundle_digest.as_str()) && self.bootstrap_mode
            == other.bootstrap_mode && same(self.details.as_str(), other.details.as_str())
    }

    /// A copy.
    pub fn copy(&self) -> (r: PublishedApplicationRelease)
        ensures
            r == *self,
    {
        PublishedApplicationRelease {
            release_id: self.release_id.clone(),
            agent_sha256: self.agent_sha256.clone(),
            bundle_digest: self.bundle_digest.clone(),
            bootstrap_mode: self.bootstrap_mode,
            details: self.details.clone(),
        }
    }
}

/// A bundle with its digest, and the release it makes.
#[derive(Debug, PartialEq, Eq)]
pub struct PreparedApplicationBundle {
    pub request: ApplyBundleRequest,
    pub release: PublishedApplicationRelease,
}

/// Gives a bundle its digest, and puts it beside the release that it makes.
pub fn seal_bundle(
    request: ApplyBundleRequest,
    bundle_digest: String,
    release: PublishedApplicationRelease,
) -> (r: PreparedApplicationBundle)
    ensures
        r.request == (ApplyBundleRequest { bundle_digest: Some(bundle_digest), ..request }),
        r.release == release,
{
    let mut sealed: ApplyBundleRequest = request;
    sealed.bundle_digest = Some(bundle_digest);
    PreparedApplicationBundle { request: sealed, release }
}

/// The published releases: the present one and the one before.
#[derive(Debug, PartialEq, Eq)]
pub struct ApplicationControlState {
    pub schema: u32,
    pub current: PublishedApplicationRelease,
    pub previous: Option<PublishedApplicationRelease>,
}

/// Whether two releases that may be missing are the same.
pub open spec fn same_release_option(
    a: Option<PublishedApplicationRelease>,
    b: Option<PublishedApplicationRelease>,
) -> bool {
    match (a, b) {
        (None, None) => true,
        (Some(x), Some(y)) => same_release(x, y),
        _ => false,
    }
}

/// Whether two records are the same in everything.
pub open spec fn same_control(a: ApplicationControlState, b: ApplicationControlState) -> bool {
    &&& a.schema == b.schema
    &&& same_release(a.current, b.current)
    &&& same_release_option(a.previous, b.previous)
}

/// Whether a record was seen, and is that one.
pub open spec fn shows_control(
    seen: Option<ApplicationControlState>,
    state: ApplicationControlState,
) -> bool {
    seen matches Some(s) && same_control(s, state)
}

fn is_control(seen: &Option<ApplicationControlState>, state: &ApplicationControlState) -> (r: bool)
    ensures
        r == shows_control(*seen, *state),
{
    match seen {
        None => false,
        Some(s) => {
            let before: bool = match (&s.previous, &state.previous) {
                (None, None) => true,
                (Some(x), Some(y)) => x.is_same(y),
                _ => false,
            };
            s.schema == state.schema && s.current.is_same(&state.current) && before
        },
    }
}

/// The marker that a bundle leaves on a host.
#[derive(Debug, PartialEq, Eq)]
pub struct BundleReleaseView {
    pub schema: u32,
    pub bundle_id: String,
    pub bundle_digest: String,
}

/// What a marker says. `raw` is what the file holds if it holds anything.
pub open spec fn marker_fault(raw: Option<Result<BundleReleaseView, String>>) -> Option<Seq<char>> {
    match raw {
        None => None,
        Some(Err(e)) => Some("remote bundle release marker is invalid JSON: "@ + e@),
        Some(Ok(v)) => if v.schema != 1 {
            Some("unsupported remote bundle release marker schema "@ + decimal(v.schema as nat))
        } else if !lower_hex(v.bundle_digest@, 64) {
            Some(
                "remote bundle digest"@ + " must be exactly "@ + decimal(64)
                    + " lowercase hexadecimal characters"@,
            )
        } else if blank(v.bundle_id@) {
            Some("remote bundle release marker has empty bundle_id"@)
        } else {
            None
        },
    }
}

/// Checks a bundle's marker. `raw` is what its file holds, if it holds anything.
pub fn read_remote_bundle_release(raw: Option<Result<BundleReleaseView, String>>) -> (r: Result<
    Option<BundleReleaseView>,
    String,
>)
    ensures
        match r {
            Ok(seen) => {
                &&& marker_fault(raw) is None
                &&& seen == match raw {
                    Some(Ok(v)) => Some(v),
                    _ => None,
                }
            },
            Err(e) => marker_fault(raw) == Some(e@),
        },
{
    match raw {
        None => Ok(None),
        Some(Err(e)) => Err(cat2("remote bundle release marker is invalid JSON: ", e.as_str())),
        Some(Ok(v)) => {
            if v.schema != 1 {
                return Err(
                    cat2(
                        "unsupported remote bundle release marker schema ",
                        number(v.schema as u64).as_str(),
                    ),
                );
            }
            match validate_lower_hex("remote bundle digest", v.bundle_digest.as_str(), 64) {
                Ok(()) => {},
                Err(e) => {
                    return Err(e);
                },
            }
            if is_blank(v.bundle_id.as_str()) {
                return Err("remote bundle release marker has empty bundle_id".to_owned());
            }
            Ok(Some(v))
        },
    }
}

/// Checks the record of the published releases. `raw` is what its file holds,
/// if it holds anything.
pub fn read_control_state(raw: Option<Result<ApplicationControlState, String>>) -> (r: Result<
    Option<ApplicationControlState>,
    String,
>)
    ensures
        match raw {
            None => r == Ok::<Option<ApplicationControlState>, String>(None),
            Some(Err(e)) => r matches Err(m) && m@
                == "application release control marker is invalid JSON: "@ + e@,
            Some(Ok(state)) => if state.schema != 1 {
                r matches Err(m) && m@ == "unsupported application release control schema "@
                    + decimal(state.schema as nat)
            } else {
                r == Ok::<Option<ApplicationControlState>, String>(Some(state))
            },
        },
{
    match raw {
        None => Ok(None),
        Some(Err(e)) => Err(
            cat2("application release control marker is invalid JSON: ", e.as_str()),
        ),
        Some(Ok(state)) => {
            if state.schema != 1 {
                Err(
                    cat2(
                        "unsupported application release control schema ",
                        number(state.schema as u64).as_str(),
                    ),
                )
            } else {
                Ok(Some(state))
            }
        },
    }
}

/// The command that tells a file's digest, and nothing where there is none.
pub fn file_sha_command(remote_path: &str) -> (r: String)
    ensures
        r@ == "if sudo test -f "@ + remote_path@ + "; then sudo sha256sum "@ + remote_path@
            + " | cut -d ' ' -f1; fi"@,
{
    cat5(
        "if sudo test -f ",
        remote_path,
        "; then sudo sha256sum ",
        remote_path,
        " | cut -d ' ' -f1; fi",
    )
}

/// The command that shows a file, and nothing where there is none.
pub fn show_file_command(remote_path: &str) -> (r: String)
    ensures
        r@ == "sudo cat "@ + remote_path@ + " 2>/dev/null || true"@,
{
    cat3("sudo cat ", remote_path, " 2>/dev/null || true")
}

/// Reads what came back for a file's digest.
pub fn remote_file_sha(value: String) -> (r: Result<Option<String>, String>)
    ensures
        match r {
            Ok(None) => value@.len() == 0,
            Ok(Some(v)) => v == value && lower_hex(value@, 64),
            Err(e) => value@.len() > 0 && !lower_hex(value@, 64) && e@ == "remote sha256"@
                + " must be exactly "@ + decimal(64) + " lowercase hexadecimal characters"@,
        },
{
    if value.as_str().is_empty() {
        return Ok(None);
    }
    match validate_lower_hex("remote sha256", value.as_str(), 64) {
        Ok(()) => Ok(Some(value)),
        Err(e) => Err(e),
    }
}

/// What was seen of the application on a host.
#[derive(Debug, PartialEq, Eq)]
pub struct ApplicationObservationView {
    pub observed_agent_sha256: Option<String>,
    pub observed_bundle_digest: Option<String>,
    pub runtime_ready: bool,
    pub current_release: Option<PublishedApplicationRelease>,
    pub previous_release: Option<PublishedApplicationRelease>,
}

/// Puts together what was seen of the application. `runtime` is what the agent
/// says of the runtime, asked only where there is an agent.
pub fn observe_application(
    agent_sha256: Option<String>,
    bundle: Option<BundleReleaseView>,
    control: Option<ApplicationControlState>,
    runtime: &Result<bool, String>,
) -> (r: ApplicationObservationView)
    ensures
        r.observed_agent_sha256 == agent_sha256,
        r.observed_bundle_digest == match bundle {
            Some(b) => Some(b.bundle_digest),
            None => None,
        },
        r.runtime_ready == (agent_sha256 is Some && (*runtime matches Ok(ready) && ready)),
        match control {
            Some(c) => r.current_release == Some(c.current) && r.previous_release == c.previous,
            None => r.current_release is None && r.previous_release is None,
        },
{
    let runtime_ready: bool = match (&agent_sha256, runtime) {
        (Some(_), Ok(ready)) => *ready,
        _ => false,
    };
    let observed_bundle_digest: Option<String> = match bundle {
        Some(b) => Some(b.bundle_digest),
        None => None,
    };
    let (current_release, previous_release): (
        Option<PublishedApplicationRelease>,
        Option<PublishedApplicationRelease>,
    ) = match control {
        Some(c) => (Some(c.current), c.previous),
        None => (None, None),
    };
    ApplicationObservationView {
        observed_agent_sha256: agent_sha256,
        observed_bundle_digest,
        runtime_ready,
        current_release,
        previous_release,
    }
}

/// Which change somebody asked for.
#[derive(Debug, Clone, Copy, PartialEq, Eq, Structural)]
pub enum DesiredMutationMode {
    Apply,
    Upgrade,
}

/// The word for a change.
pub open spec fn mutation_word(mode: DesiredMutationMode) -> Seq<char> {
    match mode {
        DesiredMutationMode::Apply => "apply"@,
        DesiredMutationMode::Upgrade => "upgrade"@,
    }
}

impl DesiredMutationMode {
    /// The word for the change.
    pub fn as_str(self) -> (r: &'static str)
        ensures
            r@ == mutation_word(self),
    {
        match self {
            DesiredMutationMode::Apply => "apply",
            DesiredMutationMode::Upgrade => "upgrade",
        }
    }
}

/// What the state of the application asks for.
#[derive(Debug, Clone, Copy, PartialEq, Eq, Structural)]
pub enum ApplicationPlanClass {
    Noop,
    Apply,
    Upgrade,
    Blocked,
}

/// The name of a class in messages.
pub open spec fn plan_class_name(class: ApplicationPlanClass) -> Seq<char> {
    match class {
        ApplicationPlanClass::Noop => "Noop"@,
        ApplicationPlanClass::Apply => "Apply"@,
        ApplicationPlanClass::Upgrade => "Upgrade"@,
        ApplicationPlanClass::Blocked => "Blocked"@,
    }
}

impl ApplicationPlanClass {
    /// The name of the class in messages.
    pub fn name(self) -> (r: &'static str)
        ensures
            r@ == plan_class_name(self),
    {
        match self {
            ApplicationPlanClass::Noop => "Noop",
            ApplicationPlanClass::Apply => "Apply",
            ApplicationPlanClass::Upgrade => "Upgrade",
            ApplicationPlanClass::Blocked => "Blocked",
        }
    }
}

/// Which of the steps that may be left out a plan lists.
#[derive(Debug, Clone, Copy, PartialEq, Eq, Structural)]
pub struct PlannedActions {
    pub install_agent: bool,
    pub apply_bundle: bool,
    pub bootstrap: bool,
    pub publish_release: bool,
}

/// The plan for the application.
#[derive(Debug, PartialEq, Eq)]
pub struct ApplicationPlan {
    pub class: ApplicationPlanClass,
    pub actions: PlannedActions,
    pub reasons: Vec<String>,
}

/// A step of carrying out a plan.
#[derive(Debug, Clone, Copy, PartialEq, Eq, Structural)]
pub enum ExecutionStep {
    InstallAgent,
    EnsurePrivateService,
    ApplyBundle,
    Bootstrap,
    VerifyRuntime,
    PublishRelease,
    /// Look at the application again and plan anew.
    Observe,
}

/// One step, or none.
pub open spec fn step_if<A>(wanted: bool, step: A) -> Seq<A> {
    if wanted {
        seq![step]
    } else {
        Seq::empty()
    }
}

/// The steps of carrying out a plan, in order.
pub open spec fn execution_course(actions: PlannedActions) -> Seq<ExecutionStep> {
    step_if(actions.install_agent, ExecutionStep::InstallAgent) + seq![
        ExecutionStep::EnsurePrivateService,
    ] + step_if(actions.apply_bundle, ExecutionStep::ApplyBundle) + step_if(
        actions.bootstrap,
        ExecutionStep::Bootstrap,
    ) + seq![ExecutionStep::VerifyRuntime] + step_if(
        actions.publish_release,
        ExecutionStep::PublishRelease,
    ) + seq![ExecutionStep::Observe]
}

/// What carrying out a plan does next.
#[derive(Debug, PartialEq, Eq)]
pub enum ExecutionNext {
    Do(ExecutionStep),
    /// There is nothing to change.
    Unchanged,
    Failed(String),
}

/// The first step of a plan.
pub open spec fn first_step(actions: PlannedActions) -> ExecutionStep {
    if actions.install_agent {
        ExecutionStep::InstallAgent
    } else {
        ExecutionStep::EnsurePrivateService
    }
}

/// The step after one that worked.
pub open spec fn step_after(actions: PlannedActions, done: ExecutionStep) -> ExecutionStep {
    match done {
        ExecutionStep::InstallAgent => ExecutionStep::EnsurePrivateService,
        ExecutionStep::EnsurePrivateService => if actions.apply_bundle {
            ExecutionStep::ApplyBundle
        } else if actions.bootstrap {
            ExecutionStep::Bootstrap
        } else {
            ExecutionStep::VerifyRuntime
        },
        ExecutionStep::ApplyBundle => if actions.bootstrap {
            ExecutionStep::Bootstrap
        } else {
            ExecutionStep::VerifyRuntime
        },
        ExecutionStep::Bootstrap => ExecutionStep::VerifyRuntime,
        ExecutionStep::VerifyRuntime => if actions.publish_release {
            ExecutionStep::PublishRelease
        } else {
            ExecutionStep::Observe
        },
        ExecutionStep::PublishRelease => ExecutionStep::Observe,
        ExecutionStep::Observe => ExecutionStep::Observe,
    }
}

/// Decides whether a plan is carried out, and where it begins.
pub fn begin_execution(plan: &ApplicationPlan, mode: DesiredMutationMode) -> (r: ExecutionNext)
    ensures
        match plan.class {
            ApplicationPlanClass::Blocked => r matches ExecutionNext::Failed(e) && e@
                == "application mutation is blocked: "@ + joined(texts(plan.reasons@), "; "@),
            ApplicationPlanClass::Noop => r is Unchanged,
            ApplicationPlanClass::Apply => if mode == DesiredMutationMode::Upgrade {
                r matches ExecutionNext::Failed(e) && e@
                    == "upgrade requires an existing published application release; use apply"@
            } else {
                r == ExecutionNext::Do(first_step(plan.actions))
            },
            ApplicationPlanClass::Upgrade => if mode == DesiredMutationMode::Apply {
                r matches ExecutionNext::Failed(e) && e@
                    == "apply refuses to overwrite an existing release; use upgrade"@
            } else {
                r == ExecutionNext::Do(first_step(plan.actions))
            },
        },
{
    match plan.class {
        ApplicationPlanClass::Blocked => {
            return ExecutionNext::Failed(
                cat2("application mutation is blocked: ", join(&plan.reasons, "; ").as_str()),
            );
        },
        ApplicationPlanClass::Noop => {
            return ExecutionNext::Unchanged;
        },
        ApplicationPlanClass::Apply => {
            if mode == DesiredMutationMode::Upgrade {
                return ExecutionNext::Failed(
                    "upgrade requires an existing published application release; use apply".to_owned(),
                );
            }
        },
        ApplicationPlanClass::Upgrade => {
            if mode == DesiredMutationMode::Apply {
                return ExecutionNext::Failed(
                    "apply refuses to overwrite an existing release; use upgrade".to_owned(),
                );
            }
        },
    }
    if plan.actions.install_agent {
        ExecutionNext::Do(ExecutionStep::InstallAgent)
    } else {
        ExecutionNext::Do(ExecutionStep::EnsurePrivateService)
    }
}

/// What follows a step of carrying out a plan. `outcome` says whether it
/// worked; of the runtime's verification also whether the runtime is ready.
pub open spec fn execution_move(
    actions: PlannedActions,
    done: ExecutionStep,
    outcome: Result<bool, String>,
    next: ExecutionNext,
) -> bool {
    match outcome {
        Err(e) => next == ExecutionNext::Failed(e),
        Ok(ready) => if done == ExecutionStep::VerifyRuntime && !ready {
            next matches ExecutionNext::Failed(e) && e@
                == "typed runtime verification did not reach readiness"@
        } else {
            next == ExecutionNext::Do(step_after(actions, done))
        },
    }
}

/// Goes on after a step of carrying out a plan, which stops at the first that
/// did not work.
pub fn execute_desired(
    actions: PlannedActions,
    done: ExecutionStep,
    outcome: Result<bool, String>,
) -> (r: ExecutionNext)
    ensures
        execution_move(actions, done, outcome, r),
{
    let ready: bool = match outcome {
        Err(e) => {
            return ExecutionNext::Failed(e);
        },
        Ok(ready) => ready,
    };
    match done {
        ExecutionStep::InstallAgent => ExecutionNext::Do(ExecutionStep::EnsurePrivateService),
        ExecutionStep::EnsurePrivateService => {
            if actions.apply_bundle {
                ExecutionNext::Do(ExecutionStep::ApplyBundle)
            } else if actions.bootstrap {
                ExecutionNext::Do(ExecutionStep::Bootstrap)
            } else {
                ExecutionNext::Do(ExecutionStep::VerifyRuntime)
            }
        },
        ExecutionStep::ApplyBundle => {
            if actions.bootstrap {
                ExecutionNext::Do(ExecutionStep::Bootstrap)
            } else {
                ExecutionNext::Do(ExecutionStep::VerifyRuntime)
            }
        },
        ExecutionStep::Bootstrap => ExecutionNext::Do(ExecutionStep::VerifyRuntime),
        ExecutionStep::VerifyRuntime => {
            if !ready {
                ExecutionNext::Failed(
                    "typed runtime verification did not reach readiness".to_owned(),
                )
            } else if actions.publish_release {
                ExecutionNext::Do(ExecutionStep::PublishRelease)
            } else {
                ExecutionNext::Do(ExecutionStep::Observe)
            }
        },
        ExecutionStep::PublishRelease => ExecutionNext::Do(ExecutionStep::Observe),
        ExecutionStep::Observe => ExecutionNext::Do(ExecutionStep::Observe),
    }
}

/// Judges what a carried-out plan came to: nothing may be left to do.
pub fn finish_execution(final_plan: &ApplicationPlan) -> (r: Result<(), String>)
    ensures
        match r {
            Ok(()) => final_plan.class == ApplicationPlanClass::Noop,
            Err(e) => final_plan.class != ApplicationPlanClass::Noop && e@
                == "application mutation completed operations but did not converge to NOOP: "@
                + plan_class_name(final_plan.class) + ": "@ + joined(
                texts(final_plan.reasons@),
                "; "@,
            ),
        },
{
    if final_plan.class == ApplicationPlanClass::Noop {
        Ok(())
    } else {
        Err(
            cat4(
                "application mutation completed operations but did not converge to NOOP: ",
                final_plan.class.name(),
                ": ",
                join(&final_plan.reasons, "; ").as_str(),
            ),
        )
    }
}

/// As long as its steps work, carrying out a plan follows its course from one
/// end to the other.
pub proof fn law_execution_follows_its_course(actions: PlannedActions)
    ensures
        execution_course(actions).first() == first_step(actions),
        execution_course(actions).last() == ExecutionStep::Observe,
        forall|i: int|
            0 <= i < execution_course(actions).len() - 1 ==> #[trigger] step_after(
                actions,
                execution_course(actions)[i],
            ) == execution_course(actions)[i + 1],
{
}

/// A release is published only where the plan says so, and only right after the
/// runtime was found ready.
pub proof fn law_release_is_published_once_verified(
    actions: PlannedActions,
    done: ExecutionStep,
    outcome: Result<bool, String>,
    next: ExecutionNext,
)
    requires
        execution_move(actions, done, outcome, next),
        next == ExecutionNext::Do(ExecutionStep::PublishRelease),
    ensures
        actions.publish_release,
        done == ExecutionStep::VerifyRuntime,
        outcome == Ok::<bool, String>(true),
{
}

/// A step of a rollback.
#[derive(Debug, Clone, Copy, PartialEq, Eq, Structural)]
pub enum RollbackStep {
    VerifyPreviousMaterial,
    RollbackBundle,
    RollbackAgent,
    EnsurePrivateService,
    Bootstrap,
    VerifyRuntime,
    PublishControlState,
    /// Look at the application again.
    Observe,
}

/// What a rollback does next.
#[derive(Debug, PartialEq, Eq)]
pub enum RollbackNext {
    Do(RollbackStep),
    Failed(String),
}

/// The steps of a rollback, in order. The agent is rolled back only where the
/// two releases differ in it.
pub open spec fn rollback_course(agents_differ: bool) -> Seq<RollbackStep> {
    seq![RollbackStep::VerifyPreviousMaterial, RollbackStep::RollbackBundle] + step_if(
        agents_differ,
        RollbackStep::RollbackAgent,
    ) + seq![
        RollbackStep::EnsurePrivateService,
        RollbackStep::Bootstrap,
        RollbackStep::VerifyRuntime,
        RollbackStep::PublishControlState,
        RollbackStep::Observe,
    ]
}

/// The step after one that worked.
pub open spec fn rollback_after(agents_differ: bool, done: RollbackStep) -> RollbackStep {
    match done {
        RollbackStep::VerifyPreviousMaterial => RollbackStep::RollbackBundle,
        RollbackStep::RollbackBundle => if agents_differ {
            RollbackStep::RollbackAgent
        } else {
            RollbackStep::EnsurePrivateService
        },
        RollbackStep::RollbackAgent => RollbackStep::EnsurePrivateService,
        RollbackStep::EnsurePrivateService => RollbackStep::Bootstrap,
        RollbackStep::Bootstrap => RollbackStep::VerifyRuntime,
        RollbackStep::VerifyRuntime => RollbackStep::PublishControlState,
        RollbackStep::PublishControlState | RollbackStep::Observe => RollbackStep::Observe,
    }
}

/// What follows a step of a rollback.
pub open spec fn rollback_move(
    agents_differ: bool,
    done: RollbackStep,
    outcome: Result<bool, String>,
    next: RollbackNext,
) -> bool {
    match outcome {
        Err(e) => next == RollbackNext::Failed(e),
        Ok(ready) => if done == RollbackStep::VerifyRuntime && !ready {
            next matches RollbackNext::Failed(e) && e@
                == "rolled-back runtime did not reach typed readiness"@
        } else {
            next == RollbackNext::Do(rollback_after(agents_differ, done))
        },
    }
}

/// Whether two releases have different agents.
pub fn agents_differ(
    current: &PublishedApplicationRelease,
    previous: &PublishedApplicationRelease,
) -> (r: bool)
    ensures
        r == (current.agent_sha256@ != previous.agent_sha256@),
{
    !same(current.agent_sha256.as_str(), previous.agent_sha256.as_str())
}

/// Goes on after a step of a rollback, which stops at the first that did not
/// work.
pub fn execute_rollback(
    current: &PublishedApplicationRelease,
    previous: &PublishedApplicationRelease,
    done: RollbackStep,
    outcome: Result<bool, String>,
) -> (r: RollbackNext)
    ensures
        rollback_move(current.agent_sha256@ != previous.agent_sha256@, done, outcome, r),
{
    let ready: bool = match outcome {
        Err(e) => {
            return RollbackNext::Failed(e);
        },
        Ok(ready) => ready,
    };
    match done {
        RollbackStep::VerifyPreviousMaterial => RollbackNext::Do(RollbackStep::RollbackBundle),
        RollbackStep::RollbackBundle => {
            if agents_differ(current, previous) {
                RollbackNext::Do(RollbackStep::RollbackAgent)
            } else {
                RollbackNext::Do(RollbackStep::EnsurePrivateService)
            }
        },
        RollbackStep::RollbackAgent => RollbackNext::Do(RollbackStep::EnsurePrivateService),
        RollbackStep::EnsurePrivateService => RollbackNext::Do(RollbackStep::Bootstrap),
        RollbackStep::Bootstrap => RollbackNext::Do(RollbackStep::VerifyRuntime),
        RollbackStep::VerifyRuntime => {
            if ready {
                RollbackNext::Do(RollbackStep::PublishControlState)
            } else {
                RollbackNext::Failed(
                    "rolled-back runtime did not reach typed readiness".to_owned(),
                )
            }
        },
        RollbackStep::PublishControlState => RollbackNext::Do(RollbackStep::Observe),
        RollbackStep::Observe => RollbackNext::Do(RollbackStep::Observe),
    }
}

/// As long as its steps work, a rollback follows its course from one end to the
/// other: what it goes back to is verified before anything is changed.
pub proof fn law_rollback_follows_its_course(agents_differ: bool)
    ensures
        rollback_course(agents_differ).first() == RollbackStep::VerifyPreviousMaterial,
        rollback_course(agents_differ).last() == RollbackStep::Observe,
        forall|i: int|
            0 <= i < rollback_course(agents_differ).len() - 1 ==> #[trigger] rollback_after(
                agents_differ,
                rollback_course(agents_differ)[i],
            ) == rollback_course(agents_differ)[i + 1],
{
}

/// The record after a rollback: the two releases have changed places.
pub open spec fn rolled_back(
    current: PublishedApplicationRelease,
    previous: PublishedApplicationRelease,
    state: ApplicationControlState,
) -> bool {
    state.schema == 1 && state.current == previous && state.previous == Some(current)
}

/// The record that a rollback publishes.
pub fn rolled_back_state(
    current: &PublishedApplicationRelease,
    previous: &PublishedApplicationRelease,
) -> (r: ApplicationControlState)
    ensures
        rolled_back(*current, *previous, r),
{
    ApplicationControlState { schema: 1, current: previous.copy(), previous: Some(current.copy()) }
}

/// A rollback of a rollback brings back the release that was there first.
pub proof fn law_rolling_back_twice_returns(
    current: PublishedApplicationRelease,
    previous: PublishedApplicationRelease,
    once: ApplicationControlState,
    twice: ApplicationControlState,
)
    requires
        rolled_back(current, previous, once),
        once.previous matches Some(before) && rolled_back(once.current, before, twice),
    ensures
        twice.current == current,
        twice.previous == Some(previous),
{
}

/// Whether the application is in every respect the release that a rollback
/// went back to.
pub open spec fn shows_release(
    o: ApplicationObservationView,
    release: PublishedApplicationRelease,
) -> bool {
    &&& o.current_release matches Some(c)
    &&& same_release(c, release)
    &&& holds_text(o.observed_agent_sha256, release.agent_sha256@)
    &&& holds_text(o.observed_bundle_digest, release.bundle_digest@)
    &&& o.runtime_ready
}

/// Judges what a rollback came to.
pub fn finish_rollback(
    observation: &ApplicationObservationView,
    previous: &PublishedApplicationRelease,
) -> (r: Result<(), String>)
    ensures
        match r {
            Ok(()) => shows_release(*observation, *previous),
            Err(e) => !shows_release(*observation, *previous) && e@
                == "rollback did not converge to the exact previous release"@,
        },
{
    let published: bool = match &observation.current_release {
        Some(c) => c.is_same(previous),
        None => false,
    };
    if published && is_text(&observation.observed_agent_sha256, previous.agent_sha256.as_str())
        && is_text(&observation.observed_bundle_digest, previous.bundle_digest.as_str())
        && observation.runtime_ready {
        Ok(())
    } else {
        Err("rollback did not converge to the exact previous release".to_owned())
    }
}

/// Why a rollback cannot go back to a release, if it cannot.
pub open spec fn previous_fault(
    current: PublishedApplicationRelease,
    previous: PublishedApplicationRelease,
    previous_agent: Option<String>,
    previous_bundle: Option<BundleReleaseView>,
) -> Option<Seq<char>> {
    if current.agent_sha256@ != previous.agent_sha256@ && !holds_text(
        previous_agent,
        previous.agent_sha256@,
    ) {
        Some(
            "rollback blocked: previous edge-agent artifact does not match published previous release"@,
        )
    } else if !(previous_bundle matches Some(b) && b.bundle_digest@ == previous.bundle_digest@) {
        Some(
            "rollback blocked: previous application bundle does not match published previous release"@,
        )
    } else {
        None
    }
}

/// Checks that what a rollback goes back to is still there.
pub fn verify_previous_release_material(
    current: &PublishedApplicationRelease,
    previous: &PublishedApplicationRelease,
    previous_agent: &Option<String>,
    previous_bundle: &Option<BundleReleaseView>,
) -> (r: Result<(), String>)
    ensures
        match r {
            Ok(()) => previous_fault(*current, *previous, *previous_agent, *previous_bundle) is None,
            Err(e) => previous_fault(*current, *previous, *previous_agent, *previous_bundle)
                == Some(e@),
        },
{
    if agents_differ(current, previous) && !is_text(
        previous_agent,
        previous.agent_sha256.as_str(),
    ) {
        return Err(
            "rollback blocked: previous edge-agent artifact does not match published previous release".to_owned(),
        );
    }
    if shows_bundle(previous_bundle, previous.bundle_digest.as_str()) {
        Ok(())
    } else {
        Err(
            "rollback blocked: previous application bundle does not match published previous release".to_owned(),
        )
    }
}

fn shows_bundle(seen: &Option<BundleReleaseView>, digest: &str) -> (r: bool)
    ensures
        r == (*seen matches Some(b) && b.bundle_digest@ == digest@),
{
    match seen {
        Some(b) => same(b.bundle_digest.as_str(), digest),
        None => false,
    }
}

/// Where the agent is put before it takes its place.
pub open spec fn candidate_path(sha: Seq<char>) -> Seq<char> {
    "/tmp/singbox-edge-agent-"@ + sha + ".tmp"@
}

/// Where the agent with that digest is put before it takes its place.
pub fn agent_candidate(sha256: &str) -> (r: String)
    ensures
        r@ == candidate_path(sha256@),
{
    cat3("/tmp/singbox-edge-agent-", sha256, ".tmp")
}

/// How the agent takes its place, once its digest and the place it was put to
/// are known.
pub const INSTALL_AGENT_STEPS: &'static str =
    "actual=$(sha256sum \"$candidate\" | cut -d ' ' -f1); test \"$actual\" = \"$expected\"; sudo install -d -m 0755 /opt/vultr-edge-stack/bin /etc/systemd/system/edge-agent.service.d; if sudo test -f /opt/vultr-edge-stack/bin/edge-agent; then sudo cp -f /opt/vultr-edge-stack/bin/edge-agent /opt/vultr-edge-stack/bin/edge-agent.previous; fi; sudo install -m 0755 \"$candidate\" /opt/vultr-edge-stack/bin/edge-agent.next; actual=$(sudo sha256sum /opt/vultr-edge-stack/bin/edge-agent.next | cut -d ' ' -f1); test \"$actual\" = \"$expected\"; printf '%s\\n' '[Service]' 'Environment=EDGE_AGENT_ADDR=127.0.0.1:50061' 'EnvironmentFile=' | sudo tee /etc/systemd/system/edge-agent.service.d/90-application-control.conf >/dev/null; sudo mv -f /opt/vultr-edge-stack/bin/edge-agent.next /opt/vultr-edge-stack/bin/edge-agent; rm -f \"$candidate\"; sudo systemctl daemon-reload; sudo systemctl enable edge-agent.service >/dev/null; sudo systemctl restart edge-agent.service; sudo systemctl is-active --quiet edge-agent.service";

/// The command that installs an agent.
pub fn install_agent_command(sha256: &str) -> (r: String)
    ensures
        r@ == "set -eu; expected='"@ + sha256@ + "'; candidate='"@ + candidate_path(sha256@)
            + "'; "@ + INSTALL_AGENT_STEPS@,
{
    cat6(
        "set -eu; expected='",
        sha256,
        "'; candidate='",
        agent_candidate(sha256).as_str(),
        "'; ",
        INSTALL_AGENT_STEPS,
    )
}

/// Whether the agent on a host is not yet the wanted one.
pub fn needs_agent(current: &Option<String>, sha256: &str) -> (r: bool)
    ensures
        r == !holds_text(*current, sha256@),
{
    !is_text(current, sha256)
}

/// What installing an agent came to. `observed` is the digest of the agent that
/// is there afterwards, whether the command worked or not.
pub open spec fn install_fault(
    sha: Seq<char>,
    run: Result<(), String>,
    observed: Option<String>,
) -> Option<Seq<char>> {
    if holds_text(observed, sha) {
        None
    } else {
        match run {
            Err(e) => Some(
                "edge-agent install outcome is uncertain; mutation was not replayed: "@ + e@,
            ),
            Ok(()) => Some(
                "edge-agent install completed but remote digest did not match exact artifact"@,
            ),
        }
    }
}

/// Judges what installing an agent came to: what is there decides, not what the
/// command said, and the command is not repeated.
pub fn install_exact_agent(sha256: &str, run: &Result<(), String>, observed: &Option<String>) -> (r:
    Result<(), String>)
    ensures
        match r {
            Ok(()) => install_fault(sha256@, *run, *observed) is None,
            Err(e) => install_fault(sha256@, *run, *observed) == Some(e@),
        },
{
    if is_text(observed, sha256) {
        return Ok(());
    }
    match run {
        Err(e) => Err(
            cat2(
                "edge-agent install outcome is uncertain; mutation was not replayed: ",
                e.as_str(),
            ),
        ),
        Ok(()) => Err(
            "edge-agent install completed but remote digest did not match exact artifact".to_owned(),
        ),
    }
}

/// The command that puts the agent that was there before in its place again.
pub const ROLLBACK_AGENT_COMMAND: &'static str =
    "set -eu; sudo cp -f /opt/vultr-edge-stack/bin/edge-agent /opt/vultr-edge-stack/bin/edge-agent.rollback; sudo mv -f /opt/vultr-edge-stack/bin/edge-agent.previous /opt/vultr-edge-stack/bin/edge-agent; sudo mv -f /opt/vultr-edge-stack/bin/edge-agent.rollback /opt/vultr-edge-stack/bin/edge-agent.previous; sudo systemctl restart edge-agent.service; sudo systemctl is-active --quiet edge-agent.service";

/// Checks that the agent to go back to is the one of the previous release.
pub fn check_previous_agent(
    previous: &PublishedApplicationRelease,
    previous_observed: &Option<String>,
) -> (r: Result<(), String>)
    ensures
        match r {
            Ok(()) => holds_text(*previous_observed, previous.agent_sha256@),
            Err(e) => !holds_text(*previous_observed, previous.agent_sha256@) && e@
                == "previous edge-agent artifact digest does not match published previous release"@,
        },
{
    if is_text(previous_observed, previous.agent_sha256.as_str()) {
        Ok(())
    } else {
        Err(
            "previous edge-agent artifact digest does not match published previous release".to_owned(),
        )
    }
}

/// What rolling back the agent came to.
pub open spec fn agent_rollback_fault(
    current: PublishedApplicationRelease,
    previous: PublishedApplicationRelease,
    run: Result<(), String>,
    observed: Option<String>,
) -> Option<Seq<char>> {
    if holds_text(observed, previous.agent_sha256@) {
        None
    } else {
        match run {
            Err(e) => Some(
                "edge-agent rollback outcome is uncertain; mutation was not replayed: "@ + e@,
            ),
            Ok(()) => Some(
                "edge-agent rollback did not reach previous digest; current release remains "@
                    + current.release_id@,
            ),
        }
    }
}

/// Judges what rolling back the agent came to, by the digest of the agent that
/// is there afterwards.
pub fn rollback_agent_once(
    current: &PublishedApplicationRelease,
    previous: &PublishedApplicationRelease,
    run: &Result<(), String>,
    observed: &Option<String>,
) -> (r: Result<(), String>)
    ensures
        match r {
            Ok(()) => agent_rollback_fault(*current, *previous, *run, *observed) is None,
            Err(e) => agent_rollback_fault(*current, *previous, *run, *observed) == Some(e@),
        },
{
    if is_text(observed, previous.agent_sha256.as_str()) {
        return Ok(());
    }
    match run {
        Err(e) => Err(
            cat2(
                "edge-agent rollback outcome is uncertain; mutation was not replayed: ",
                e.as_str(),
            ),
        ),
        Ok(()) => Err(
            cat2(
                "edge-agent rollback did not reach previous digest; current release remains ",
                current.release_id.as_str(),
            ),
        ),
    }
}

/// Whether the file that keeps the agent off the network is as it has to be.
pub open spec fn private_service(dropin: Seq<char>) -> bool {
    trimmed(dropin) == trimmed(AGENT_DROPIN_CONTENT@)
}

/// Whether the file that keeps the agent off the network is as it has to be.
pub fn is_private_service(dropin: &str) -> (r: bool)
    ensures
        r == private_service(dropin@),
{
    same(trim(dropin), trim(AGENT_DROPIN_CONTENT))
}

/// The command that writes that file.
pub const PRIVATE_SERVICE_COMMAND: &'static str =
    "set -eu; sudo install -d -m 0755 /etc/systemd/system/edge-agent.service.d; printf '%s\\n' '[Service]' 'Environment=EDGE_AGENT_ADDR=127.0.0.1:50061' 'EnvironmentFile=' | sudo tee /etc/systemd/system/edge-agent.service.d/90-application-control.conf >/dev/null; sudo systemctl daemon-reload; sudo systemctl restart edge-agent.service; sudo systemctl is-active --quiet edge-agent.service";

/// Judges what writing that file came to where the command failed, by what the
/// file holds afterwards.
pub fn ensure_private_agent_service(failure: &str, reobserved: &str) -> (r: Result<(), String>)
    ensures
        match r {
            Ok(()) => private_service(reobserved@),
            Err(e) => !private_service(reobserved@) && e@
                == "edge-agent private service normalization outcome is uncertain; mutation was not replayed: "@
                + failure@,
        },
{
    if is_private_service(reobserved) {
        Ok(())
    } else {
        Err(
            cat2(
                "edge-agent private service normalization outcome is uncertain; mutation was not replayed: ",
                failure,
            ),
        )
    }
}

/// A call by which an agent changes its bundle.
#[derive(Debug, Clone, Copy, PartialEq, Eq, Structural)]
pub enum BundleCall {
    Apply,
    Rollback,
}

/// The name of a call.
pub open spec fn call_name(call: BundleCall) -> Seq<char> {
    match call {
        BundleCall::Apply => "ApplyBundle"@,
        BundleCall::Rollback => "RollbackBundle"@,
    }
}

/// What a call changes to.
pub open spec fn call_goal(call: BundleCall) -> Seq<char> {
    match call {
        BundleCall::Apply => "desired"@,
        BundleCall::Rollback => "previous"@,
    }
}

/// What follows an agent's reply.
#[derive(Debug, PartialEq, Eq)]
pub enum BundleNext {
    /// The reply left it open: look at the marker. The text is the failure.
    LookAtMarker(String),
    Done(Result<(), String>),
}

/// What an agent's reply leads to. It gives the digest of the bundle that is
/// active, or a failure.
pub open spec fn bundle_reply(
    call: BundleCall,
    digest: Seq<char>,
    reply: Result<Option<String>, String>,
    next: BundleNext,
) -> bool {
    match reply {
        Ok(active) => if holds_text(active, digest) {
            next == BundleNext::Done(Ok::<(), String>(()))
        } else {
            next matches BundleNext::Done(Err(e)) && e@ == "edge-agent "@ + call_name(call)
                + " returned unexpected active digest "@ + quoted_option(active.deep_view())
        },
        Err(e) => next == BundleNext::LookAtMarker(e),
    }
}

/// Takes an agent's reply into account.
pub fn bundle_replied(call: BundleCall, digest: &str, reply: Result<Option<String>, String>) -> (r:
    BundleNext)
    ensures
        bundle_reply(call, digest@, reply, r),
{
    let name: &str = match call {
        BundleCall::Apply => "ApplyBundle",
        BundleCall::Rollback => "RollbackBundle",
    };
    match reply {
        Ok(active) => {
            if is_text(&active, digest) {
                BundleNext::Done(Ok(()))
            } else {
                BundleNext::Done(
                    Err(
                        cat4(
                            "edge-agent ",
                            name,
                            " returned unexpected active digest ",
                            quote_option(&active).as_str(),
                        ),
                    ),
                )
            }
        },
        Err(e) => BundleNext::LookAtMarker(e),
    }
}

/// Judges a call that was left open, by the marker on the host. The call is not
/// repeated.
pub fn bundle_observed(
    call: BundleCall,
    digest: &str,
    failure: &str,
    observed: &Option<BundleReleaseView>,
) -> (r: Result<(), String>)
    ensures
        match r {
            Ok(()) => *observed matches Some(b) && b.bundle_digest@ == digest@,
            Err(e) => !(*observed matches Some(b) && b.bundle_digest@ == digest@) && e@
                == call_name(call) + " outcome is uncertain and "@ + call_goal(call)
                + " bundle was not observed; RPC was not replayed: "@ + failure@,
        },
{
    if shows_bundle(observed, digest) {
        return Ok(());
    }
    let (name, goal): (&str, &str) = match call {
        BundleCall::Apply => ("ApplyBundle", "desired"),
        BundleCall::Rollback => ("RollbackBundle", "previous"),
    };
    Err(
        cat5(
            name,
            " outcome is uncertain and ",
            goal,
            " bundle was not observed; RPC was not replayed: ",
            failure,
        ),
    )
}

/// What an agent answers when it is told to start the runtime.
#[derive(Debug, PartialEq, Eq)]
pub struct BootstrapAnswer {
    pub success: bool,
    pub exit_code: i32,
    pub warnings: Vec<String>,
}

/// Judges what starting the runtime came to.
pub fn bootstrap_once(reply: &Result<BootstrapAnswer, String>) -> (r: Result<(), String>)
    ensures
        match *reply {
            Err(e) => r matches Err(m) && m@ == "typed BootstrapRuntime RPC failed: "@ + e@,
            Ok(a) => if a.success {
                r is Ok
            } else {
                r matches Err(m) && m@ == "typed BootstrapRuntime failed with exit_code="@
                    + signed_decimal(a.exit_code as int) + " warnings="@ + joined(
                    texts(a.warnings@),
                    "; "@,
                )
            },
        },
{
    match reply {
        Err(e) => Err(cat2("typed BootstrapRuntime RPC failed: ", e.as_str())),
        Ok(a) => {
            if a.success {
                Ok(())
            } else {
                Err(
                    cat4(
                        "typed BootstrapRuntime failed with exit_code=",
                        signed_number(a.exit_code).as_str(),
                        " warnings=",
                        join(&a.warnings, "; ").as_str(),
                    ),
                )
            }
        },
    }
}

/// Reads what an agent says of the runtime.
pub fn verify_runtime_ready(reply: Result<bool, String>) -> (r: Result<bool, String>)
    ensures
        match reply {
            Ok(ready) => r == Ok::<bool, String>(ready),
            Err(e) => r matches Err(m) && m@ == "typed VerifyRuntime RPC failed: "@ + e@,
        },
{
    match reply {
        Ok(ready) => Ok(ready),
        Err(e) => Err(cat2("typed VerifyRuntime RPC failed: ", e.as_str())),
    }
}

/// How often an agent is called through a tunnel.
pub const CONNECT_ATTEMPTS: u32 = 20;

/// What follows attempt number `attempt` (from zero) to reach an agent.
#[derive(Debug, PartialEq, Eq)]
pub enum ConnectNext {
    /// Try again after a pause.
    Again,
    Connected,
    Failed(String),
}

/// Decides what follows attempt number `attempt` (from zero) to reach an agent
/// through a tunnel.
pub fn connect_agent(attempt: u32, outcome: &Result<(), String>) -> (r: ConnectNext)
    ensures
        match *outcome {
            Ok(()) => r is Connected,
            Err(e) => if attempt + 1 < CONNECT_ATTEMPTS {
                r is Again
            } else {
                r matches ConnectNext::Failed(m) && m@
                    == "edge-agent did not become reachable through strict SSH tunnel: "@ + e@
            },
        },
{
    match outcome {
        Ok(()) => ConnectNext::Connected,
        Err(e) => {
            if attempt < CONNECT_ATTEMPTS && attempt + 1 < CONNECT_ATTEMPTS {
                ConnectNext::Again
            } else {
                ConnectNext::Failed(
                    cat2(
                        "edge-agent did not become reachable through strict SSH tunnel: ",
                        e.as_str(),
                    ),
                )
            }
        },
    }
}

/// Whether a release is the present one already.
pub open spec fn is_published(
    existing: Option<ApplicationControlState>,
    release: PublishedApplicationRelease,
) -> bool {
    existing matches Some(c) && same_release(c.current, release)
}

/// Decides on the record to publish for a release, if it is not published
/// already: the release that was the present one becomes the previous.
pub fn publish_release_once(
    existing: Option<ApplicationControlState>,
    release: &PublishedApplicationRelease,
) -> (r: Option<ApplicationControlState>)
    ensures
        match r {
            None => is_published(existing, *release),
            Some(state) => {
                &&& !is_published(existing, *release)
                &&& state.schema == 1
                &&& state.current == *release
                &&& state.previous == match existing {
                    Some(c) => Some(c.current),
                    None => None,
                }
            },
        },
{
    match existing {
        Some(c) => {
            if c.current.is_same(release) {
                None
            } else {
                Some(
                    ApplicationControlState {
                        schema: 1,
                        current: release.copy(),
                        previous: Some(c.current),
                    },
                )
            }
        },
        None => Some(
            ApplicationControlState { schema: 1, current: release.copy(), previous: None },
        ),
    }
}

/// A release that has been published is not published again.
pub proof fn law_publishing_is_done_once(
    state: ApplicationControlState,
    release: PublishedApplicationRelease,
)
    requires
        state.current == release,
    ensures
        is_published(Some(state), release),
{
}

/// The command that puts the record in its place.
pub const PUBLISH_COMMAND: &'static str =
    "set -eu; sudo install -d -m 0755 /opt/vultr-edge-stack; sudo install -m 0644 /tmp/singbox-application-release.json.tmp /opt/vultr-edge-stack/application-release.json; rm -f /tmp/singbox-application-release.json.tmp";

/// What publishing a record came to.
pub open spec fn publication_fault(
    run: Result<(), String>,
    observed: Option<ApplicationControlState>,
    state: ApplicationControlState,
) -> Option<Seq<char>> {
    if shows_control(observed, state) {
        None
    } else {
        match run {
            Err(e) => Some(
                "release publication outcome is uncertain; publication was not replayed: "@ + e@,
            ),
            Ok(()) => Some(
                "release publication completed but exact control state was not observed"@,
            ),
        }
    }
}

/// Judges what publishing a record came to, by the record that is there
/// afterwards. It is not published again.
pub fn publish_control_state_once(
    run: &Result<(), String>,
    observed: &Option<ApplicationControlState>,
    state: &ApplicationControlState,
) -> (r: Result<(), String>)
    ensures
        match r {
            Ok(()) => publication_fault(*run, *observed, *state) is None,
            Err(e) => publication_fault(*run, *observed, *state) == Some(e@),
        },
{
    if is_control(observed, state) {
        return Ok(());
    }
    match run {
        Err(e) => Err(
            cat2(
                "release publication outcome is uncertain; publication was not replayed: ",
                e.as_str(),
            ),
        ),
        Ok(()) => Err(
            "release publication completed but exact control state was not observed".to_owned(),
        ),
    }
}

/// What the host shows decides about a change, not what the command said: the
/// same sight gives the same verdict, whether the command worked or failed.
pub proof fn law_the_host_decides_about_a_change(
    sha: Seq<char>,
    current: PublishedApplicationRelease,
    previous: PublishedApplicationRelease,
    run: Result<(), String>,
    agent: Option<String>,
    control: Option<ApplicationControlState>,
    state: ApplicationControlState,
)
    ensures
        install_fault(sha, run, agent) is None <==> holds_text(agent, sha),
        agent_rollback_fault(current, previous, run, agent) is None <==> holds_text(
            agent,
            previous.agent_sha256@,
        ),
        publication_fault(run, control, state) is None <==> shows_control(control, state),
{
}

/// A bundle is put together only for a valid state, a valid manifest and a root
/// that is a directory without either of the settings' files.
pub proof fn law_bundles_need_a_sound_beginning(
    desired: Result<(), String>,
    manifest: Result<(), String>,
    root: BundleRoot,
    listing: BundleListing,
    policy: ApplicationRuntimePolicy,
    bundle_id: Result<String, String>,
    r: Result<ApplyBundleRequest, String>,
)
    requires
        call_ensures(
            prepare_application_bundle,
            (desired, manifest, &root, listing, &policy, bundle_id),
            r,
        ),
    ensures
        r is Ok ==> desired is Ok && manifest is Ok && root.is_dir && !root.has_runtime_file
            && !root.has_policy_file && bundle_id is Ok,
        desired matches Err(e) ==> r matches Err(m) && m@ == e@,
        r matches Ok(request) ==> {
            &&& request.bundle_id == Some(bundle_id->Ok_0)
            &&& request.bundle_digest is None
            &&& request.prune_existing
            &&& request.host_files@.len() == 0
            &&& request.stack_files@.len() > 0
            &&& request.stack_files@.last().relative_path@ == ".env.runtime.policy"@
            &&& !request.stack_files@.last().sensitive
            &&& forall|i: int|
                0 <= i < request.stack_files@.len() ==> !(#[trigger] request.stack_files@[i]).sensitive
                    && request.stack_files@[i].relative_path@ != ".env.runtime"@
        },
{
    if r is Ok {
        let files = gathered(root.path@, listing)->Ok_0;
        let request = r->Ok_0;
        let all = file_texts(request.stack_files@);
        law_bundle_holds_no_runtime_file(root.path@, listing);
        reveal_strlit(".env.runtime.policy");
        reveal_strlit(".env.runtime");
        assert(all.len() == request.stack_files@.len());
        assert(all.last() == policy_file(policy));
        assert(all.last() == request.stack_files@.last()@);
        assert forall|i: int| 0 <= i < request.stack_files@.len() implies !(
        #[trigger] request.stack_files@[i]).sensitive && request.stack_files@[i].relative_path@
            != ".env.runtime"@ by {
            assert(all[i] == request.stack_files@[i]@);
            assert(all == files.push(policy_file(policy)));
            if i < files.len() {
                assert(files[i].relative_path != RUNTIME_FILE@);
            } else {
                assert(POLICY_FILE@.len() != RUNTIME_FILE@.len());
            }
        }
    }
}

/// A file becomes part of a bundle with its very content, under its path with
/// plain slashes, and is run only if it is the script that starts everything.
pub proof fn law_files_keep_their_content(
    name: Vec<u8>,
    path: String,
    relative: String,
    content: Vec<u8>,
    entries: Vec<BundleEntry>,
    root: &str,
    r: Result<Vec<BundleFile>, String>,
)
    requires
        entries@.len() == 1,
        entries@[0] == (BundleEntry {
            name,
            path,
            kind: EntryKind::File { relative, normalized: true, content: Ok(content) },
        }),
        !relative@.contains('\\'),
        relative@ != ".env.runtime"@,
        call_ensures(collect_bundle_files, (root, BundleListing::Entries(entries)), r),
    ensures
        r matches Ok(files) && files@.len() == 1 && files@[0].relative_path@ == relative@
            && files@[0].content@ == content@ && (files@[0].executable <==> relative@
            == "bootstrap.sh"@) && !files@[0].sensitive,
{
    lemma_nothing_to_replace(relative@, '\\', "/"@);
    let parts = parts_of(entries);
    assert(parts.len() == 1);
    assert(parts[0].files == gathered_from(entries@[0]));
    assert(parts.drop_last() =~= Seq::<PartText>::empty());
    let sorted = lined_up(parts, by_name());
    assert(lined_up(parts.drop_last(), by_name()) =~= Seq::<PartText>::empty());
    assert(sorted =~= seq![parts[0]]);
    assert(sorted.drop_last() =~= Seq::<PartText>::empty());
    assert(in_turn(sorted.drop_last()) == Ok::<Seq<FileText>, Seq<char>>(Seq::empty()));
    let files = gathered(root@, BundleListing::Entries(entries))->Ok_0;
    assert(files =~= gathered_from(entries@[0])->Ok_0);
    let found = r->Ok_0;
    assert(file_texts(found@).len() == found@.len());
    assert(file_texts(found@)[0] == found@[0]@);
}

proof fn lemma_nothing_to_replace(s: Seq<char>, c: char, by: Seq<char>)
    requires
        !s.contains(c),
    ensures
        replaced_char(s, c, by) == s,
    decreases s.len(),
{
    if s.len() > 0 {
        assert forall|i: int| 0 <= i < s.drop_last().len() implies s.drop_last()[i] != c by {
            assert(s.contains(s[i]));
        }
        lemma_nothing_to_replace(s.drop_last(), c, by);
        assert(s.contains(s[s.len() - 1]));
        assert(s =~= s.drop_last() + seq![s.last()]);
    } else {
        assert(s =~= Seq::<char>::empty());
    }
}

/// An artifact is the exact one only if its manifest is sound, its file is there
/// and has the very digest.
pub proof fn law_only_the_exact_artifact_passes(
    manifest: Result<(), String>,
    sha: &str,
    path: &str,
    file: ArtifactFile,
    r: Result<(), String>,
)
    requires
        call_ensures(verify_exact_agent_artifact, (manifest, sha, path, &file), r),
    ensures
        r is Ok <==> manifest is Ok && (file matches ArtifactFile::Bytes(bytes) && hex(
            sha256(bytes@),
        ) == sha@),
{
}

/// An apply makes the first release and an upgrade a later one, and neither does
/// the other's work; a blocked plan is never carried out, and one with nothing
/// to do changes nothing.
pub proof fn law_applies_and_upgrades_keep_apart(
    plan: ApplicationPlan,
    mode: DesiredMutationMode,
    r: ExecutionNext,
)
    requires
        call_ensures(begin_execution, (&plan, mode), r),
    ensures
        r is Do <==> (plan.class is Apply && mode is Apply) || (plan.class is Upgrade
            && mode is Upgrade),
        r is Unchanged <==> plan.class is Noop,
        plan.class is Blocked ==> r is Failed,
        r matches ExecutionNext::Do(step) ==> (step is InstallAgent <==> plan.actions.install_agent)
            && (step is EnsurePrivateService <==> !plan.actions.install_agent),
{
}

/// Each step is taken exactly where it is called for, and a release is published
/// only after the runtime was seen to be ready; the agent is made private before
/// anything is sent to it.
pub proof fn law_execution_steps_are_those_called_for(
    actions: PlannedActions,
    done: ExecutionStep,
    outcome: Result<bool, String>,
    r: ExecutionNext,
)
    requires
        call_ensures(execute_desired, (actions, done, outcome), r),
    ensures
        outcome matches Err(e) ==> r == ExecutionNext::Failed(e),
        r matches ExecutionNext::Do(step) ==> {
            &&& step is ApplyBundle ==> actions.apply_bundle && done is EnsurePrivateService
            &&& step is Bootstrap ==> actions.bootstrap && (done is ApplyBundle || (
            done is EnsurePrivateService && !actions.apply_bundle))
            &&& step is PublishRelease ==> actions.publish_release && done is VerifyRuntime
                && outcome == Ok::<bool, String>(true)
            &&& step is VerifyRuntime ==> done is Bootstrap || (!actions.bootstrap && (
            done is ApplyBundle || (done is EnsurePrivateService && !actions.apply_bundle)))
            &&& step is EnsurePrivateService ==> done is InstallAgent
            &&& !(step is InstallAgent)
            &&& step is Observe ==> done is PublishRelease || done is Observe || (
            done is VerifyRuntime && !actions.publish_release)
        },
        done is VerifyRuntime && outcome == Ok::<bool, String>(false) ==> r is Failed,
        outcome == Ok::<bool, String>(true) ==> r is Do,
{
}

/// An execution has come through exactly if nothing is left to do.
pub proof fn law_executions_end_with_nothing_left(plan: ApplicationPlan, r: Result<(), String>)
    requires
        call_ensures(finish_execution, (&plan,), r),
    ensures
        r is Ok <==> plan.class is Noop,
{
}

/// A rollback changes nothing before the earlier material was verified, puts the
/// agent back exactly where the two releases have different ones, and publishes
/// only what was seen to be ready.
pub proof fn law_rollback_steps_are_those_called_for(
    current: PublishedApplicationRelease,
    previous: PublishedApplicationRelease,
    done: RollbackStep,
    outcome: Result<bool, String>,
    r: RollbackNext,
)
    requires
        call_ensures(execute_rollback, (&current, &previous, done, outcome), r),
    ensures
        outcome matches Err(e) ==> r == RollbackNext::Failed(e),
        r matches RollbackNext::Do(step) ==> {
            &&& step is RollbackBundle ==> done is VerifyPreviousMaterial
            &&& step is RollbackAgent ==> done is RollbackBundle && current.agent_sha256@
                != previous.agent_sha256@
            &&& step is EnsurePrivateService ==> done is RollbackAgent || (done is RollbackBundle
                && current.agent_sha256@ == previous.agent_sha256@)
            &&& step is Bootstrap ==> done is EnsurePrivateService
            &&& step is VerifyRuntime ==> done is Bootstrap
            &&& step is PublishControlState ==> done is VerifyRuntime && outcome == Ok::<
                bool,
                String,
            >(true)
            &&& step is Observe ==> done is PublishControlState || done is Observe
            &&& !(step is VerifyPreviousMaterial)
        },
        done is VerifyRuntime && outcome == Ok::<bool, String>(false) ==> r is Failed,
        outcome == Ok::<bool, String>(true) ==> r is Do,
{
}

/// A rollback may begin exactly if the earlier bundle is there as it was
/// published, and the earlier agent too where it is another one.
pub proof fn law_rollbacks_need_the_earlier_material(
    current: PublishedApplicationRelease,
    previous: PublishedApplicationRelease,
    agent: Option<String>,
    bundle: Option<BundleReleaseView>,
    r: Result<(), String>,
)
    requires
        call_ensures(
            verify_previous_release_material,
            (&current, &previous, &agent, &bundle),
            r,
        ),
    ensures
        r is Ok <==> (bundle matches Some(b) && b.bundle_digest@ == previous.bundle_digest@) && (
        current.agent_sha256@ == previous.agent_sha256@ || (agent matches Some(a) && a@
            == previous.agent_sha256@)),
{
}

/// A rollback has come through exactly if what runs is the earlier release in
/// all its parts, and is ready.
pub proof fn law_rollbacks_end_on_the_earlier_release(
    seen: ApplicationObservationView,
    previous: PublishedApplicationRelease,
    r: Result<(), String>,
)
    requires
        call_ensures(finish_rollback, (&seen, &previous), r),
    ensures
        r is Ok <==> {
            &&& seen.runtime_ready
            &&& seen.observed_agent_sha256 matches Some(a) && a@ == previous.agent_sha256@
            &&& seen.observed_bundle_digest matches Some(d) && d@ == previous.bundle_digest@
            &&& seen.current_release matches Some(c) && c.release_id@ == previous.release_id@
                && c.agent_sha256@ == previous.agent_sha256@ && c.bundle_digest@
                == previous.bundle_digest@ && c.bootstrap_mode == previous.bootstrap_mode
                && c.details@ == previous.details@
        },
{
}

/// A rollback exchanges the two releases.
pub proof fn law_a_rollback_exchanges_the_releases(
    current: PublishedApplicationRelease,
    previous: PublishedApplicationRelease,
    r: ApplicationControlState,
    differ: bool,
)
    requires
        call_ensures(rolled_back_state, (&current, &previous), r),
        call_ensures(agents_differ, (&current, &previous), differ),
    ensures
        r.current == previous,
        r.previous == Some(current),
        r.schema == 1,
        differ <==> current.agent_sha256@ != previous.agent_sha256@,
{
}

/// Publishing makes the release the present one and keeps the one before it; a
/// release that is the present one already is not published again.
pub proof fn law_publishing_keeps_the_release_before(
    existing: Option<ApplicationControlState>,
    release: PublishedApplicationRelease,
    same: bool,
    r: Option<ApplicationControlState>,
)
    requires
        existing matches Some(c) ==> call_ensures(
            PublishedApplicationRelease::is_same,
            (&c.current, &release),
            same,
        ),
        call_ensures(publish_release_once, (existing, &release), r),
    ensures
        r is None <==> existing is Some && same,
        r matches Some(state) ==> state.current == release && state.schema == 1 && (
        existing is Some ==> state.previous == Some(existing->Some_0.current)) && (
        existing is None ==> state.previous is None),
        existing is Some ==> (same <==> existing->Some_0.current.release_id@ == release.release_id@
            && existing->Some_0.current.agent_sha256@ == release.agent_sha256@
            && existing->Some_0.current.bundle_digest@ == release.bundle_digest@
            && existing->Some_0.current.bootstrap_mode == release.bootstrap_mode
            && existing->Some_0.current.details@ == release.details@),
{
}

/// A change of the agent is needed exactly where another one, or none, is there,
/// and has been made exactly where the very agent is there afterwards, whatever
/// the command said.
pub proof fn law_the_agent_there_decides(
    sha: &str,
    before: Option<String>,
    needed: bool,
    run: Result<(), String>,
    after: Option<String>,
    r: Result<(), String>,
)
    requires
        call_ensures(needs_agent, (&before, sha), needed),
        call_ensures(install_exact_agent, (sha, &run, &after), r),
    ensures
        needed <==> !(before matches Some(a) && a@ == sha@),
        r is Ok <==> (after matches Some(a) && a@ == sha@),
{
}

/// The agent is put back exactly where the earlier one is there to be put back,
/// and has been exactly where it runs afterwards.
pub proof fn law_the_earlier_agent_decides(
    current: PublishedApplicationRelease,
    previous: PublishedApplicationRelease,
    before: Option<String>,
    checked: Result<(), String>,
    run: Result<(), String>,
    after: Option<String>,
    r: Result<(), String>,
)
    requires
        call_ensures(check_previous_agent, (&previous, &before), checked),
        call_ensures(rollback_agent_once, (&current, &previous, &run, &after), r),
    ensures
        checked is Ok <==> (before matches Some(a) && a@ == previous.agent_sha256@),
        r is Ok <==> (after matches Some(a) && a@ == previous.agent_sha256@),
{
}

/// A bundle counts as the running one only under the digest that was meant: by
/// the agent's word, or by the marker where the agent gave none.
pub proof fn law_the_bundle_that_runs_decides(
    call: BundleCall,
    digest: &str,
    reply: Result<Option<String>, String>,
    next: BundleNext,
    failure: &str,
    observed: Option<BundleReleaseView>,
    r: Result<(), String>,
)
    requires
        call_ensures(bundle_replied, (call, digest, reply), next),
        call_ensures(bundle_observed, (call, digest, failure, &observed), r),
    ensures
        next == BundleNext::Done(Ok::<(), String>(())) <==> (reply matches Ok(Some(active))
            && active@ == digest@),
        next is LookAtMarker <==> reply is Err,
        r is Ok <==> (observed matches Some(b) && b.bundle_digest@ == digest@),
{
}

/// The runtime is seen as ready only where an agent is there and says so, and
/// what is seen of the releases is what the record says.
pub proof fn law_what_is_seen_is_what_is_there(
    agent: Option<String>,
    bundle: Option<BundleReleaseView>,
    control: Option<ApplicationControlState>,
    runtime: Result<bool, String>,
    r: ApplicationObservationView,
)
    requires
        call_ensures(observe_application, (agent, bundle, control, &runtime), r),
    ensures
        r.runtime_ready <==> agent is Some && runtime == Ok::<bool, String>(true),
        r.observed_agent_sha256 == agent,
        r.observed_bundle_digest is Some <==> bundle is Some,
        bundle matches Some(b) ==> r.observed_bundle_digest == Some(b.bundle_digest),
        r.current_release is Some <==> control is Some,
        control matches Some(c) ==> r.current_release == Some(c.current) && r.previous_release
            == c.previous,
{
}

/// A marker counts only if it can be read, is of the known kind, and holds a
/// digest and a name.
pub proof fn law_markers_are_read_with_care(
    raw: Option<Result<BundleReleaseView, String>>,
    r: Result<Option<BundleReleaseView>, String>,
)
    requires
        call_ensures(read_remote_bundle_release, (raw,), r),
    ensures
        raw is None ==> r == Ok::<Option<BundleReleaseView>, String>(None),
        raw matches Some(Err(_)) ==> r is Err,
        raw matches Some(Ok(v)) ==> (r is Ok <==> v.schema == 1 && v.bundle_digest@.len() == 64
            && lower_hex(v.bundle_digest@, 64) && !blank(v.bundle_id@)),
        r matches Ok(Some(seen)) ==> raw == Some(Ok::<BundleReleaseView, String>(seen)),
{
}

/// A record counts only if it can be read and is of the known kind.
pub proof fn law_records_are_read_with_care(
    raw: Option<Result<ApplicationControlState, String>>,
    r: Result<Option<ApplicationControlState>, String>,
)
    requires
        call_ensures(read_control_state, (raw,), r),
    ensures
        raw is None ==> r == Ok::<Option<ApplicationControlState>, String>(None),
        raw matches Some(Err(_)) ==> r is Err,
        raw matches Some(Ok(state)) ==> (r is Ok <==> state.schema == 1),
        r matches Ok(Some(seen)) ==> raw == Some(Ok::<ApplicationControlState, String>(seen)),
{
}

/// The agent's word on a start or on its runtime is passed on as it is, and
/// silence is a failure.
pub proof fn law_the_agents_word_is_passed_on(
    started: Result<BootstrapAnswer, String>,
    a: Result<(), String>,
    ready: Result<bool, String>,
    b: Result<bool, String>,
)
    requires
        call_ensures(bootstrap_once, (&started,), a),
        call_ensures(verify_runtime_ready, (ready,), b),
    ensures
        a is Ok <==> (started matches Ok(answer) && answer.success),
        b is Ok <==> ready is Ok,
        ready is Ok ==> b == ready,
{
}

/// The agent is tried at most twenty times.
pub proof fn law_agents_are_tried_a_while(attempt: u32, outcome: Result<(), String>, r: ConnectNext)
    requires
        call_ensures(connect_agent, (attempt, &outcome), r),
    ensures
        r is Connected <==> outcome is Ok,
        r is Again <==> outcome is Err && attempt < 19,
        r is Failed <==> outcome is Err && attempt >= 19,
{
}

/// The modes of the application and of the agent say the same.
pub proof fn law_modes_say_the_same(mode: ApplicationBootstrapMode, r: BootstrapMode)
    requires
        call_ensures(proto_bootstrap_mode, (mode,), r),
    ensures
        mode is Base <==> r is BootstrapBase,
        mode is Tunnel <==> r is BootstrapTunnel,
        mode is Full <==> r is BootstrapFull,
        !(r is Unspecified),
{
}

/// A digest read from the host is taken only where it is one: sixty-four
/// hexadecimal digits in lower case. No answer is no file.
pub proof fn law_digests_read_from_the_host_are_digests(
    value: String,
    r: Result<Option<String>, String>,
)
    requires
        call_ensures(remote_file_sha, (value,), r),
    ensures
        (r matches Ok(None)) <==> value@.len() == 0,
        r matches Ok(Some(v)) ==> {
            &&& v@ == value@
            &&& v@.len() == 64
            &&& forall|i: int|
                0 <= i < 64 ==> ('0' <= #[trigger] v@[i] && v@[i] <= '9') || ('a' <= v@[i]
                    && v@[i] <= 'f')
        },
        value@.len() == 64 && (forall|i: int|
            0 <= i < 64 ==> ('0' <= #[trigger] value@[i] && value@[i] <= '9') || ('a' <= value@[i]
                && value@[i] <= 'f')) ==> (r matches Ok(Some(_))),
{
}

/// A directory is a bundle's root where it is one and holds none of the settings
/// that belong to the host.
pub proof fn law_bundles_hold_no_settings(root: BundleRoot, r: Result<(), String>)
    requires
        call_ensures(check_bundle_root, (&root,), r),
    ensures
        r is Ok <==> root.is_dir && !root.has_runtime_file && !root.has_policy_file,
{
}

/// A release counts as published where the host shows it afterwards, whatever
/// came of the command, and nowhere else.
pub proof fn law_published_is_what_the_host_shows(
    run: Result<(), String>,
    observed: Option<ApplicationControlState>,
    state: ApplicationControlState,
    r: Result<(), String>,
)
    requires
        call_ensures(publish_control_state_once, (&run, &observed, &state), r),
    ensures
        observed is None ==> r is Err,
        observed matches Some(seen) ==> {
            &&& r is Ok ==> {
                &&& seen.schema == state.schema
                &&& seen.current.release_id@ == state.current.release_id@
                &&& seen.current.agent_sha256@ == state.current.agent_sha256@
                &&& seen.current.bundle_digest@ == state.current.bundle_digest@
                &&& seen.current.bootstrap_mode == state.current.bootstrap_mode
                &&& seen.current.details@ == state.current.details@
                &&& seen.previous is Some <==> state.previous is Some
                &&& state.previous is Some ==> seen.previous->Some_0.release_id@
                    == state.previous->Some_0.release_id@ && seen.previous->Some_0.bundle_digest@
                    == state.previous->Some_0.bundle_digest@
            }
            &&& seen == state ==> r is Ok
        },
        run matches Err(e) ==> (r matches Err(words) ==> words@
            == "release publication outcome is uncertain; publication was not replayed: "@ + e@),
{
}

/// The agent's service is kept private where the host shows that it listens on
/// the machine's own address, whatever came of the command.
pub proof fn law_the_agents_service_is_seen_to_be_private(
    failure: &str,
    reobserved: &str,
    r: Result<(), String>,
)
    requires
        call_ensures(ensure_private_agent_service, (failure, reobserved), r),
    ensures
        reobserved@
            == "[Service]\nEnvironment=EDGE_AGENT_ADDR=127.0.0.1:50061\nEnvironmentFile=\n"@
            ==> r is Ok,
        r is Ok ==> trimmed(reobserved@) == trimmed(
            "[Service]\nEnvironment=EDGE_AGENT_ADDR=127.0.0.1:50061\nEnvironmentFile=\n"@,
        ),
{
}

/// The settings of a runtime are written one to a line, under their names, for
/// every line of the edge that there is, and for no other.
pub proof fn law_settings_are_written_under_their_names(
    policy: ApplicationRuntimePolicy,
    r: String,
)
    requires
        call_ensures(render_runtime_policy_environment, (&policy,), r),
    ensures
        policy.line1 is None && policy.line2 is None ==> r@.len() == 0,
        policy.line2 matches Some(l) ==> {
            &&& has_part(r@, "PROXY_USERNAME"@ + "="@ + l.proxy_username@ + "\n"@)
            &&& has_part(r@, "PROXY_CERT_CN"@ + "="@ + l.proxy_cert_cn@ + "\n"@)
        },
        policy.line1 matches Some(l) ==> {
            &&& has_part(r@, "REALITY_SERVER_NAME"@ + "="@ + l.reality_server_name@ + "\n"@)
            &&& has_part(r@, "TUNNEL_DOMAIN"@ + "="@ + l.tunnel_domain@ + "\n"@)
            &&& has_part(r@, "ACME_EMAIL"@ + "="@ + l.acme_email@ + "\n"@)
        },
{
    let none = Seq::<char>::empty();
    let second = match policy.line2 {
        Some(l) => setting("PROXY_USERNAME"@, l.proxy_username@) + setting(
            "PROXY_CERT_CN"@,
            l.proxy_cert_cn@,
        ),
        None => none,
    };
    if let Some(l) = policy.line2 {
        let a = setting("PROXY_USERNAME"@, l.proxy_username@);
        let b = setting("PROXY_CERT_CN"@, l.proxy_cert_cn@);
        let rest = match policy.line1 {
            Some(f) => setting("REALITY_SERVER_NAME"@, f.reality_server_name@) + setting(
                "TUNNEL_DOMAIN"@,
                f.tunnel_domain@,
            ) + setting("ACME_EMAIL"@, f.acme_email@),
            None => none,
        };
        assert(r@ =~= none + a + (b + rest));
        lemma_between(none, a, b + rest);
        assert(r@ =~= a + b + rest);
        lemma_between(a, b, rest);
    }
    if let Some(l) = policy.line1 {
        let a = setting("REALITY_SERVER_NAME"@, l.reality_server_name@);
        let b = setting("TUNNEL_DOMAIN"@, l.tunnel_domain@);
        let c = setting("ACME_EMAIL"@, l.acme_email@);
        assert(r@ =~= second + a + (b + c));
        lemma_between(second, a, b + c);
        assert(r@ =~= (second + a) + b + c);
        lemma_between(second + a, b, c);
        assert(r@ =~= (second + a + b) + c + none);
        lemma_between(second + a + b, c, none);
    }
}

proof fn lemma_between(a: Seq<char>, part: Seq<char>, b: Seq<char>)
    ensures
        has_part(a + part + b, part),
{
    let whole = a + part + b;
    let at = a.len() as int;
    assert(whole.subrange(at, at + part.len()) =~= part);
    assert(stands_at(whole, part, at));
}

/// A sealed bundle is sent under the digest that was found, and is otherwise what
/// was asked for.
pub proof fn law_a_sealed_bundle_bears_its_digest(
    request: ApplyBundleRequest,
    bundle_digest: String,
    release: PublishedApplicationRelease,
    r: PreparedApplicationBundle,
)
    requires
        call_ensures(seal_bundle, (request, bundle_digest, release), r),
    ensures
        r.request.bundle_digest == Some(bundle_digest),
        r.request == (ApplyBundleRequest { bundle_digest: Some(bundle_digest), ..request }),
        r.release == release,
{
}

/// A service is private where its file says so, white space round it aside.
pub proof fn law_a_private_service_listens_on_the_machine(dropin: &str, r: bool)
    requires
        call_ensures(is_private_service, (dropin,), r),
    ensures
        r <==> trimmed(dropin@) == trimmed(
            "[Service]\nEnvironment=EDGE_AGENT_ADDR=127.0.0.1:50061\nEnvironmentFile=\n"@,
        ),
{
}

} // verus!
