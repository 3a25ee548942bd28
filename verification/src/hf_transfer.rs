//! Verified transfer of one file of an immutable Hugging Face revision.
//!
//! The transfer resumes a partial download, hashes what is committed while the rest arrives, and
//! publishes the file only once its size and SHA-256 are those of the manifest. Requests, files
//! and the clock stay outside: each step here takes what was read and says what to do next.
use vstd::prelude::*;

use crate::text::{
    after_last_separator, chars_of, find, holds_at, is_hex_of_len, parse_unsigned, pieces_of,
    push_decimal, same, skip_leading, skip_trailing, CharClass,
};

verus! {

pub const TRANSFER_IDENTITY_VERSION: u32 = 1;

/// Bytes of progress that are always worth an event.
pub const PROGRESS_MIN_BYTES: u64 = 4194304;

/// Nanoseconds after which any progress is worth an event.
pub const PROGRESS_MAX_INTERVAL_NS: u64 = 200000000;

/// Bytes that the count of committed bytes takes behind a partial file's contents.
pub const MARKER_BYTES: u64 = 8;

/// What to transfer, where to, and what it must turn out to be.
#[derive(Debug)]
pub struct HfTransferArgs {
    /// Model repository, in organization/model form.
    pub repo_id: String,
    /// Immutable commit.
    pub revision: String,
    /// Repository-relative file path.
    pub filename: String,
    /// Final file location inside the unpublished staging snapshot.
    pub destination: String,
    /// Private cache directory used for this file's resumable transfer.
    pub cache_dir: String,
    /// Expected file size from the immutable repository manifest.
    pub expected_size: u64,
    /// Expected SHA-256 from the immutable repository manifest.
    pub expected_sha256: String,
    /// Hub endpoint.
    pub endpoint: String,
    /// Maximum number of concurrent range requests.
    pub parallelism: usize,
    /// Size of each range request.
    pub chunk_size: usize,
}

/// The response headers that identify a remote file.
#[derive(Clone, Copy, Debug, PartialEq, Eq, Structural)]
pub enum HeaderKey {
    RepoCommit,
    Etag,
    LinkedSize,
    ContentRange,
    ContentLength,
    Location,
    RedirectedContentRange,
}

/// Why a transfer is refused or fails.
#[allow(inconsistent_fields)]
#[derive(Debug, PartialEq, Eq)]
pub enum TransferError {
    RepoId,
    Revision,
    ExpectedSha256,
    Parallelism,
    ChunkSize,
    FilenameNotRelative,
    FilenameUnsafe,
    CacheDir,
    CacheDirName,
    DestinationMismatch { destination: String },
    HttpStatus { status: String },
    MissingHeader { key: HeaderKey },
    NonTextHeader { key: HeaderKey },
    NotANumber { key: HeaderKey },
    ContentRangeShape,
    UnsafeEtag,
    CommitMismatch { returned: String, revision: String },
    RemoteSizeMismatch { returned: u64, filename: String, expected: u64 },
    PartialSizeOverflow,
    MarkerOffsetOverflow,
    InvalidMarker,
    DownloadSizeMismatch { actual: u64, filename: String, expected: u64 },
    DigestMismatch { actual: String, expected: String },
}

/// The name under which a header is reported.
pub open spec fn header_label(key: HeaderKey) -> Seq<char> {
    match key {
        HeaderKey::RepoCommit => "x-repo-commit"@,
        HeaderKey::Etag => "ETag"@,
        HeaderKey::LinkedSize => "linked size"@,
        HeaderKey::ContentRange => "Content-Range size"@,
        HeaderKey::ContentLength => "content-length"@,
        HeaderKey::Location => "location"@,
        HeaderKey::RedirectedContentRange => "Content-Range"@,
    }
}

fn header_name(key: HeaderKey) -> (name: &'static str)
    ensures
        name@ == header_label(key),
{
    match key {
        HeaderKey::RepoCommit => "x-repo-commit",
        HeaderKey::Etag => "ETag",
        HeaderKey::LinkedSize => "linked size",
        HeaderKey::ContentRange => "Content-Range size",
        HeaderKey::ContentLength => "content-length",
        HeaderKey::Location => "location",
        HeaderKey::RedirectedContentRange => "Content-Range",
    }
}

impl TransferError {
    pub open spec fn text(self) -> Seq<char> {
        match self {
            TransferError::RepoId => "repo-id must use organization/model form"@,
            TransferError::Revision => "revision must be a full 40-character commit SHA"@,
            TransferError::ExpectedSha256 => {
                "expected-sha256 must contain 64 hexadecimal characters"@
            },
            TransferError::Parallelism => "parallelism must be greater than zero"@,
            TransferError::ChunkSize => "chunk-size must be greater than zero"@,
            TransferError::FilenameNotRelative => {
                "filename must be a non-empty repository-relative path"@
            },
            TransferError::FilenameUnsafe => "filename contains an unsafe path component"@,
            TransferError::CacheDir => "cache-dir must end with .hf-transfer"@,
            TransferError::CacheDirName => "cache-dir has no valid final component"@,
            TransferError::DestinationMismatch { destination } => {
                "staging destination already exists with unexpected identity: "@ + destination@
            },
            TransferError::HttpStatus { status } => {
                "Hugging Face identity request failed with HTTP "@ + status@
            },
            TransferError::MissingHeader { key: HeaderKey::RedirectedContentRange } => {
                "redirected Hugging Face response is missing Content-Range"@
            },
            TransferError::MissingHeader { key } => {
                "Hugging Face response is missing "@ + header_label(key)
            },
            TransferError::NonTextHeader {
                key: HeaderKey::ContentRange | HeaderKey::RedirectedContentRange,
            } => "failed to convert header to a str"@,
            TransferError::NonTextHeader { key } => {
                "Hugging Face returned a non-text "@ + header_label(key)
            },
            TransferError::NotANumber { key: HeaderKey::ContentLength } => {
                "parsing Hugging Face content length"@
            },
            TransferError::NotANumber { key } => "parsing Hugging Face "@ + header_label(key),
            TransferError::ContentRangeShape => "invalid Hugging Face Content-Range"@,
            TransferError::UnsafeEtag => "Hugging Face returned an unsafe ETag"@,
            TransferError::CommitMismatch { returned, revision } => {
                "Hugging Face returned commit "@ + returned@ + " for immutable revision "@
                    + revision@
            },
            TransferError::RemoteSizeMismatch { returned, filename, expected } => {
                "Hugging Face returned size "@ + crate::text::decimal(returned as nat) + " for "@
                    + filename@ + ", expected "@ + crate::text::decimal(expected as nat)
            },
            TransferError::PartialSizeOverflow => "partial size overflow"@,
            TransferError::MarkerOffsetOverflow => "partial marker offset overflow"@,
            TransferError::InvalidMarker => {
                "hf-hub partial contains an invalid committed byte marker"@
            },
            TransferError::DownloadSizeMismatch { actual, filename, expected } => {
                "hf-hub downloaded "@ + crate::text::decimal(actual as nat) + " bytes for "@
                    + filename@ + ", expected "@ + crate::text::decimal(expected as nat)
            },
            TransferError::DigestMismatch { actual, expected } => {
                "downloaded file SHA-256 "@ + actual@ + " does not match expected "@ + expected@
            },
        }
    }

    /// The error in words.
    pub fn message(&self) -> (message: String)
        ensures
            message@ == self.text(),
    {
        match self {
            TransferError::RepoId => "repo-id must use organization/model form".to_owned(),
            TransferError::Revision => "revision must be a full 40-character commit SHA".to_owned(),
            TransferError::ExpectedSha256 => {
                "expected-sha256 must contain 64 hexadecimal characters".to_owned()
            },
            TransferError::Parallelism => "parallelism must be greater than zero".to_owned(),
            TransferError::ChunkSize => "chunk-size must be greater than zero".to_owned(),
            TransferError::FilenameNotRelative => {
                "filename must be a non-empty repository-relative path".to_owned()
            },
            TransferError::FilenameUnsafe => "filename contains an unsafe path component".to_owned(),
            TransferError::CacheDir => "cache-dir must end with .hf-transfer".to_owned(),
            TransferError::CacheDirName => "cache-dir has no valid final component".to_owned(),
            TransferError::DestinationMismatch { destination } => {
                let mut message: String =
                    "staging destination already exists with unexpected identity: ".to_owned();
                message.append(destination.as_str());
                message
            },
            TransferError::HttpStatus { status } => {
                let mut message: String =
                    "Hugging Face identity request failed with HTTP ".to_owned();
                message.append(status.as_str());
                message
            },
            TransferError::MissingHeader { key } => match key {
                HeaderKey::RedirectedContentRange => {
                    "redirected Hugging Face response is missing Content-Range".to_owned()
                },
                _ => {
                    let mut message: String = "Hugging Face response is missing ".to_owned();
                    message.append(header_name(*key));
                    message
                },
            },
            TransferError::NonTextHeader { key } => match key {
                HeaderKey::ContentRange | HeaderKey::RedirectedContentRange => {
                    "failed to convert header to a str".to_owned()
                },
                _ => {
                    let mut message: String = "Hugging Face returned a non-text ".to_owned();
                    message.append(header_name(*key));
                    message
                },
            },
            TransferError::NotANumber { key } => match key {
                HeaderKey::ContentLength => "parsing Hugging Face content length".to_owned(),
                _ => {
                    let mut message: String = "parsing Hugging Face ".to_owned();
                    message.append(header_name(*key));
                    message
                },
            },
            TransferError::ContentRangeShape => "invalid Hugging Face Content-Range".to_owned(),
            TransferError::UnsafeEtag => "Hugging Face returned an unsafe ETag".to_owned(),
            TransferError::CommitMismatch { returned, revision } => {
                let mut message: String = "Hugging Face returned commit ".to_owned();
                message.append(returned.as_str());
                message.append(" for immutable revision ");
                message.append(revision.as_str());
                message
            },
            TransferError::RemoteSizeMismatch { returned, filename, expected } => {
                let mut message: String = "Hugging Face returned size ".to_owned();
                push_decimal(&mut message, *returned);
                message.append(" for ");
                message.append(filename.as_str());
                message.append(", expected ");
                push_decimal(&mut message, *expected);
                message
            },
            TransferError::PartialSizeOverflow => "partial size overflow".to_owned(),
            TransferError::MarkerOffsetOverflow => "partial marker offset overflow".to_owned(),
            TransferError::InvalidMarker => {
                "hf-hub partial contains an invalid committed byte marker".to_owned()
            },
            TransferError::DownloadSizeMismatch { actual, filename, expected } => {
                let mut message: String = "hf-hub downloaded ".to_owned();
                push_decimal(&mut message, *actual);
                message.append(" bytes for ");
                message.append(filename.as_str());
                message.append(", expected ");
                push_decimal(&mut message, *expected);
                message
            },
            TransferError::DigestMismatch { actual, expected } => {
                let mut message: String = "downloaded file SHA-256 ".to_owned();
                message.append(actual.as_str());
                message.append(" does not match expected ");
                message.append(expected.as_str());
                message
            },
        }
    }
}

/// The last of `components` that names a file: empty ones and dots behind it do not count, and a
/// parent reference names none.
pub open spec fn last_name(components: Seq<Seq<char>>) -> Option<Seq<char>>
    decreases components.len(),
{
    if components.len() == 0 {
        None
    } else if components.last().len() == 0 || components.last() == seq!['.'] {
        last_name(components.drop_last())
    } else if components.last() == seq!['.', '.'] {
        None
    } else {
        Some(components.last())
    }
}

/// The final name of a path.
pub open spec fn file_name(path: Seq<char>) -> Option<Seq<char>> {
    last_name(crate::text::pieces(path, '/'))
}

fn file_name_of(path: &str) -> (r: Option<Vec<char>>)
    ensures
        match r {
            Some(name) => file_name(path@) == Some(name@),
            None => file_name(path@) is None,
        },
{
    let mut components: Vec<Vec<char>> = pieces_of(&chars_of(path), '/');
    let dot: Vec<char> = vec!['.'];
    let parent: Vec<char> = vec!['.', '.'];
    let ghost text = |piece: Vec<char>| piece@;
    let ghost all = components@.map_values(text);
    proof {
        assert(dot@ =~= seq!['.']);
        assert(parent@ =~= seq!['.', '.']);
    }
    loop
        invariant
            text == (|piece: Vec<char>| piece@),
            dot@ == seq!['.'],
            parent@ == seq!['.', '.'],
            last_name(components@.map_values(text)) == file_name(path@),
        decreases components.len(),
    {
        let ghost before = components@;
        match components.pop() {
            None => {
                return None;
            },
            Some(component) => {
                proof {
                    assert(before.map_values(text).last() == component@);
                    assert(before.map_values(text).drop_last() =~= components@.map_values(text));
                }
                if component.len() == 0 || same(&component, &dot) {
                    continue ;
                }
                if same(&component, &parent) {
                    return None;
                }
                return Some(component);
            },
        }
    }
}

/// Whether a repository path leads nowhere but down: it neither starts at the current directory
/// nor climbs to a parent.
pub open spec fn descends(path: Seq<char>) -> bool {
    let components = crate::text::pieces(path, '/');
    &&& components[0] != seq!['.']
    &&& forall|i: int| 0 <= i < components.len() ==> #[trigger] components[i] != seq!['.', '.']
}

/// Which error, if any, a repository path is refused with.
pub open spec fn repository_path_error(path: Seq<char>) -> Option<TransferError> {
    if path.len() == 0 || path[0] == '/' {
        Some(TransferError::FilenameNotRelative)
    } else if !descends(path) {
        Some(TransferError::FilenameUnsafe)
    } else {
        None
    }
}

/// Accepts a non-empty relative path whose components are all plain names.
pub fn validate_repository_path(path: &str) -> (r: Result<(), TransferError>)
    ensures
        r is Ok == repository_path_error(path@) is None,
        r is Err ==> repository_path_error(path@) == Some(r->Err_0),
{
    let chars: Vec<char> = chars_of(path);
    if chars.len() == 0 || chars[0] == '/' {
        return Err(TransferError::FilenameNotRelative);
    }
    let components: Vec<Vec<char>> = pieces_of(&chars, '/');
    let dot: Vec<char> = vec!['.'];
    let parent: Vec<char> = vec!['.', '.'];
    let ghost text = |piece: Vec<char>| piece@;
    let ghost all = components@.map_values(text);
    proof {
        assert(dot@ =~= seq!['.']);
        assert(parent@ =~= seq!['.', '.']);
        assert(all[0] == components@[0]@);
    }
    if same(&components[0], &dot) {
        return Err(TransferError::FilenameUnsafe);
    }
    let mut i: usize = 0;
    while i < components.len()
        invariant
            i <= components.len(),
            parent@ == seq!['.', '.'],
            text == (|piece: Vec<char>| piece@),
            all == components@.map_values(text),
            all == crate::text::pieces(path@, '/'),
            path@.len() > 0,
            path@[0] != '/',
            forall|j: int| 0 <= j < i ==> #[trigger] all[j] != seq!['.', '.'],
        decreases components.len() - i,
    {
        assert(all[i as int] == components@[i as int]@);
        if same(&components[i], &parent) {
            return Err(TransferError::FilenameUnsafe);
        }
        i += 1;
    }
    Ok(())
}

/// Whether `repo_id` has the form organization/model.
pub open spec fn is_repo_id(repo_id: Seq<char>) -> bool {
    let parts = crate::text::pieces(repo_id, '/');
    parts.len() == 2 && parts[0].len() > 0 && parts[1].len() > 0
}

impl HfTransferArgs {
    /// Which error, if any, the arguments are refused with: the first that applies.
    pub open spec fn refusal(self) -> Option<TransferError> {
        if !is_repo_id(self.repo_id@) {
            Some(TransferError::RepoId)
        } else if self.revision@.len() != 40 || !crate::text::is_hex(self.revision@) {
            Some(TransferError::Revision)
        } else if self.expected_sha256@.len() != 64 || !crate::text::is_hex(
            self.expected_sha256@,
        ) {
            Some(TransferError::ExpectedSha256)
        } else if self.parallelism == 0 {
            Some(TransferError::Parallelism)
        } else if self.chunk_size == 0 {
            Some(TransferError::ChunkSize)
        } else if repository_path_error(self.filename@) is Some {
            repository_path_error(self.filename@)
        } else if !(file_name(self.cache_dir@) matches Some(name) && crate::text::ends_with(
            name,
            ".hf-transfer"@,
        )) {
            Some(TransferError::CacheDir)
        } else {
            None
        }
    }
}

/// Checks the arguments of a transfer before anything is touched.
pub fn validate_args(args: &HfTransferArgs) -> (r: Result<(), TransferError>)
    ensures
        r is Ok == args.refusal() is None,
        r is Err ==> args.refusal() == Some(r->Err_0),
{
    let parts: Vec<Vec<char>> = pieces_of(&chars_of(args.repo_id.as_str()), '/');
    proof {
        let text = |piece: Vec<char>| piece@;
        let all = parts@.map_values(text);
        assert(all == crate::text::pieces(args.repo_id@, '/'));
        assert(forall|i: int| 0 <= i < parts@.len() ==> #[trigger] all[i] == parts@[i]@);
    }
    if parts.len() != 2 || parts[0].len() == 0 || parts[1].len() == 0 {
        return Err(TransferError::RepoId);
    }
    if !is_hex_of_len(args.revision.as_str(), 40) {
        return Err(TransferError::Revision);
    }
    if !is_hex_of_len(args.expected_sha256.as_str(), 64) {
        return Err(TransferError::ExpectedSha256);
    }
    if args.parallelism == 0 {
        return Err(TransferError::Parallelism);
    }
    if args.chunk_size == 0 {
        return Err(TransferError::ChunkSize);
    }
    match validate_repository_path(args.filename.as_str()) {
        Err(error) => {
            return Err(error);
        },
        Ok(()) => {},
    }
    match file_name_of(args.cache_dir.as_str()) {
        None => Err(TransferError::CacheDir),
        Some(name) => {
            let suffix: Vec<char> = chars_of(".hf-transfer");
            if suffix.len() <= name.len() && holds_at(&name, name.len() - suffix.len(), &suffix) {
                proof {
                    assert(name@.skip(name@.len() - suffix@.len()) =~= name@.subrange(
                        name@.len() - suffix@.len(),
                        name@.len() as int,
                    ));
                }
                Ok(())
            } else {
                proof {
                    if suffix@.len() <= name@.len() {
                        assert(name@.skip(name@.len() - suffix@.len()) =~= name@.subrange(
                            name@.len() - suffix@.len(),
                            name@.len() as int,
                        ));
                    }
                }
                Err(TransferError::CacheDir)
            }
        },
    }
}

/// What a transfer reports while it runs and when it is done.
#[derive(Debug, PartialEq, Eq)]
pub enum TransferEvent {
    Progress { bytes: u64, total: u64 },
    Complete { path: String, size: u64, sha256: String, etag: String },
}

/// Progress of a download, thinned out to the events worth reporting.
#[derive(Debug, PartialEq, Eq, Structural)]
pub struct JsonProgress {
    pub bytes: u64,
    pub total: u64,
    pub last_emitted_bytes: u64,
    /// Reading of a monotonic clock at the last event, in nanoseconds.
    pub last_emitted_at_ns: u64,
    pub awaiting_baseline: bool,
}

impl JsonProgress {
    /// The progress of a download of `total` bytes that is about to start.
    pub open spec fn started(total: u64, now_ns: u64) -> JsonProgress {
        JsonProgress {
            bytes: 0,
            total,
            last_emitted_bytes: 0,
            last_emitted_at_ns: now_ns,
            awaiting_baseline: true,
        }
    }

    /// The bytes that are there after a report of `size` more: the first report of a download is
    /// the offset it resumes from, and no report leads beyond the total.
    pub open spec fn advanced(self, size: u64) -> u64 {
        let bytes = if self.awaiting_baseline { size as int } else { self.bytes + size };
        if bytes < self.total {
            bytes as u64
        } else {
            self.total
        }
    }

    /// Whether a report of `size` more bytes at `now_ns` is worth an event.
    pub open spec fn worth_an_event(self, size: u64, now_ns: u64) -> bool {
        ||| self.awaiting_baseline
        ||| self.advanced(size) == self.total
        ||| self.advanced(size) - self.last_emitted_bytes >= PROGRESS_MIN_BYTES
        ||| now_ns - self.last_emitted_at_ns >= PROGRESS_MAX_INTERVAL_NS
    }

    /// The progress after a report of `size` more bytes.
    pub open spec fn updated(self, size: u64, now_ns: u64) -> JsonProgress {
        let emits = self.worth_an_event(size, now_ns);
        JsonProgress {
            bytes: self.advanced(size),
            total: self.total,
            last_emitted_bytes: if emits { self.advanced(size) } else { self.last_emitted_bytes },
            last_emitted_at_ns: if emits { now_ns } else { self.last_emitted_at_ns },
            awaiting_baseline: false,
        }
    }

    /// The progress once the download has ended.
    pub open spec fn finished(self, now_ns: u64) -> JsonProgress {
        JsonProgress {
            bytes: self.total,
            last_emitted_bytes: self.total,
            last_emitted_at_ns: if self.last_emitted_bytes != self.total {
                now_ns
            } else {
                self.last_emitted_at_ns
            },
            ..self
        }
    }

    /// No download has started yet.
    pub fn new(now_ns: u64) -> (progress: Self)
        ensures
            progress == (JsonProgress {
                awaiting_baseline: false,
                ..JsonProgress::started(0, now_ns)
            }),
    {
        JsonProgress {
            bytes: 0,
            total: 0,
            last_emitted_bytes: 0,
            last_emitted_at_ns: now_ns,
            awaiting_baseline: false,
        }
    }

    /// A download of `size` bytes starts.
    pub fn init(&mut self, size: u64, now_ns: u64)
        ensures
            *final(self) == JsonProgress::started(size, now_ns),
    {
        self.bytes = 0;
        self.total = size;
        self.last_emitted_bytes = 0;
        self.last_emitted_at_ns = now_ns;
        self.awaiting_baseline = true;
    }

    /// Takes a report of `size` bytes and returns the event that it is worth, if any.
    pub fn update(&mut self, size: u64, now_ns: u64) -> (event: Option<TransferEvent>)
        ensures
            *final(self) == old(self).updated(size, now_ns),
            event == if old(self).worth_an_event(size, now_ns) {
                Some(
                    TransferEvent::Progress { bytes: final(self).bytes, total: final(self).total },
                )
            } else {
                None
            },
    {
        let baseline: bool = self.awaiting_baseline;
        self.awaiting_baseline = false;
        let bytes: u64 = if baseline {
            size
        } else {
            self.bytes.saturating_add(size)
        };
        self.bytes = if bytes < self.total {
            bytes
        } else {
            self.total
        };
        if baseline || self.bytes == self.total || self.bytes.saturating_sub(
            self.last_emitted_bytes,
        ) >= PROGRESS_MIN_BYTES || now_ns.saturating_sub(self.last_emitted_at_ns)
            >= PROGRESS_MAX_INTERVAL_NS {
            self.last_emitted_bytes = self.bytes;
            self.last_emitted_at_ns = now_ns;
            Some(TransferEvent::Progress { bytes: self.bytes, total: self.total })
        } else {
            None
        }
    }

    /// The download has ended: reports the total, unless that was the last event.
    pub fn finish(&mut self, now_ns: u64) -> (event: Option<TransferEvent>)
        ensures
            *final(self) == old(self).finished(now_ns),
            event == if old(self).last_emitted_bytes != old(self).total {
                Some(
                    TransferEvent::Progress { bytes: final(self).total, total: final(self).total },
                )
            } else {
                None
            },
    {
        self.bytes = self.total;
        if self.last_emitted_bytes != self.total {
            self.last_emitted_bytes = self.total;
            self.last_emitted_at_ns = now_ns;
            Some(TransferEvent::Progress { bytes: self.total, total: self.total })
        } else {
            None
        }
    }
}

/// Progress never runs beyond the total, and never backwards once the baseline is known.
pub proof fn lemma_progress_is_monotone(progress: JsonProgress, size: u64, now_ns: u64)
    requires
        progress.bytes <= progress.total,
    ensures
        progress.updated(size, now_ns).bytes <= progress.total,
        !progress.awaiting_baseline ==> progress.bytes <= progress.updated(size, now_ns).bytes,
        progress.updated(size, now_ns).bytes <= progress.finished(now_ns).bytes,
{
}

/// Whatever was reported before, the last event of a finished download reports the total.
pub proof fn lemma_finished_download_reported_its_total(progress: JsonProgress, now_ns: u64)
    ensures
        progress.finished(now_ns).last_emitted_bytes == progress.total,
        progress.finished(now_ns).finished(now_ns) == progress.finished(now_ns),
{
}

/// The bytes of a header as text: visible ASCII, spaces and tabs only.
pub open spec fn is_header_text(bytes: Seq<u8>) -> bool {
    forall|i: int| 0 <= i < bytes.len() ==> 32 <= #[trigger] bytes[i] < 127 || bytes[i] == 9
}

/// ASCII bytes as characters.
pub open spec fn ascii_text(bytes: Seq<u8>) -> Seq<char> {
    bytes.map_values(|b: u8| b as char)
}

/// A header's value as text, if it is text.
pub fn header_text(bytes: &Vec<u8>) -> (r: Option<String>)
    ensures
        r is Some == is_header_text(bytes@),
        r matches Some(text) ==> text@ == ascii_text(bytes@),
{
    let mut text: String = String::new();
    let mut i: usize = 0;
    while i < bytes.len()
        invariant
            i <= bytes.len(),
            text@ == ascii_text(bytes@.take(i as int)),
            forall|j: int| 0 <= j < i ==> 32 <= #[trigger] bytes@[j] < 127 || bytes@[j] == 9,
        decreases bytes.len() - i,
    {
        let byte: u8 = bytes[i];
        if !((byte >= 32 && byte < 127) || byte == 9) {
            return None;
        }
        text.push(byte as char);
        proof {
            assert(ascii_text(bytes@.take(i + 1)) =~= ascii_text(bytes@.take(i as int)).push(
                byte as char,
            ));
        }
        i += 1;
    }
    proof {
        assert(bytes@.take(i as int) =~= bytes@);
    }
    Some(text)
}

/// The size that a content range ends with, behind its last slash.
pub fn parse_content_range_size(value: &str) -> (r: Result<u64, TransferError>)
    ensures
        match crate::text::after_last(value@, '/') {
            None => r == Err::<u64, TransferError>(TransferError::ContentRangeShape),
            Some(tail) => match crate::text::unsigned_value(tail, u64::MAX as nat) {
                Some(size) => r == Ok::<u64, TransferError>(size as u64) && r->Ok_0 == size,
                None => r == Err::<u64, TransferError>(
                    TransferError::NotANumber { key: HeaderKey::ContentRange },
                ),
            },
        },
{
    let chars: Vec<char> = chars_of(value);
    match after_last_separator(&chars, '/') {
        None => Err(TransferError::ContentRangeShape),
        Some(start) => {
            let len: usize = chars.len();
            proof {
                assert(chars@.skip(start as int) =~= chars@.subrange(start as int, len as int));
            }
            match parse_unsigned(&chars, start, len, u64::MAX) {
                Some(size) => Ok(size),
                None => Err(TransferError::NotANumber { key: HeaderKey::ContentRange }),
            }
        },
    }
}

/// An entity tag without the white space and the quotes around it.
pub open spec fn bare_etag(value: Seq<char>) -> Seq<char> {
    crate::text::trimmed(
        crate::text::trimmed(value, CharClass::Space),
        CharClass::Only('"'),
    )
}

/// Whether an entity tag can name a file: it is no directory reference and holds no separator.
pub open spec fn is_safe_etag(etag: Seq<char>) -> bool {
    &&& etag.len() > 0
    &&& etag != seq!['.']
    &&& etag != seq!['.', '.']
    &&& !etag.contains('/')
    &&& !etag.contains('\\')
}

/// Strips an entity tag and refuses one that could not name a file.
pub fn clean_etag(value: &str) -> (r: Result<String, TransferError>)
    ensures
        match r {
            Ok(etag) => etag@ == bare_etag(value@) && is_safe_etag(etag@),
            Err(error) => error == TransferError::UnsafeEtag && !is_safe_etag(bare_etag(value@)),
        },
{
    let chars: Vec<char> = chars_of(value);
    let len: usize = chars.len();
    proof {
        assert(chars@.subrange(0, len as int) =~= value@);
    }
    let from: usize = skip_leading(&chars, 0, len, CharClass::Space);
    let to: usize = skip_trailing(&chars, from, len, CharClass::Space);
    let from: usize = skip_leading(&chars, from, to, CharClass::Only('"'));
    let to: usize = skip_trailing(&chars, from, to, CharClass::Only('"'));
    let etag: Vec<char> = crate::text::part(&chars, from, to);
    let dot: Vec<char> = vec!['.'];
    let parent: Vec<char> = vec!['.', '.'];
    proof {
        assert(dot@ =~= seq!['.']);
        assert(parent@ =~= seq!['.', '.']);
        assert(etag@ == bare_etag(value@));
    }
    let len: usize = etag.len();
    let slash: usize = find(&etag, 0, len, CharClass::Only('/'));
    let backslash: usize = find(&etag, 0, len, CharClass::Only('\\'));
    if len == 0 || same(&etag, &dot) || same(&etag, &parent) || slash < len || backslash < len {
        proof {
            if slash < len {
                assert(etag@.contains('/'));
            }
            if backslash < len {
                assert(etag@.contains('\\'));
            }
        }
        return Err(TransferError::UnsafeEtag);
    }
    Ok(value.substring_char(from, to).to_owned())
}

/// The answer to the request for a file's identity: its status and the raw values of the headers
/// that were there.
#[derive(Debug)]
pub struct IdentityReply {
    pub status: u16,
    /// The status as it is reported, with its reason.
    pub status_text: String,
    pub repo_commit: Option<Vec<u8>>,
    pub linked_etag: Option<Vec<u8>>,
    pub etag: Option<Vec<u8>>,
    pub linked_size: Option<Vec<u8>>,
    pub content_range: Option<Vec<u8>>,
    pub content_length: Option<Vec<u8>>,
    pub location: Option<Vec<u8>>,
}

/// The identity of a remote file.
#[derive(Debug, PartialEq, Eq)]
pub struct RemoteFileIdentity {
    pub commit_sha: String,
    pub size: u64,
    pub etag: String,
}

/// What an identity reply tells: the identity, or all of it but the size, which the redirect
/// target has to be asked for.
#[derive(Debug, PartialEq, Eq)]
pub enum RemoteResolution {
    Known(RemoteFileIdentity),
    AskRedirect { commit_sha: String, etag: String, location: String },
}

/// The text of a header that has to be there.
pub open spec fn required_text(header: Option<Vec<u8>>, key: HeaderKey) -> Result<
    Seq<char>,
    TransferError,
> {
    match header {
        None => Err(TransferError::MissingHeader { key }),
        Some(bytes) => if is_header_text(bytes@) {
            Ok(ascii_text(bytes@))
        } else {
            Err(TransferError::NonTextHeader { key })
        },
    }
}

/// Reads a header that has to be there and has to be text.
pub fn required_header(header: &Option<Vec<u8>>, key: HeaderKey) -> (r: Result<
    String,
    TransferError,
>)
    ensures
        match r {
            Ok(text) => required_text(*header, key) == Ok::<Seq<char>, TransferError>(text@),
            Err(error) => required_text(*header, key) == Err::<Seq<char>, TransferError>(error),
        },
{
    match header {
        None => Err(TransferError::MissingHeader { key }),
        Some(bytes) => match header_text(bytes) {
            Some(text) => Ok(text),
            None => Err(TransferError::NonTextHeader { key }),
        },
    }
}

/// The number that a header that has to be there spells.
pub open spec fn required_number(header: Option<Vec<u8>>, key: HeaderKey) -> Result<
    nat,
    TransferError,
> {
    match required_text(header, key) {
        Err(error) => Err(error),
        Ok(text) => match crate::text::unsigned_value(text, u64::MAX as nat) {
            Some(number) => Ok(number),
            None => Err(TransferError::NotANumber { key }),
        },
    }
}

fn number_header(header: &Option<Vec<u8>>, key: HeaderKey) -> (r: Result<u64, TransferError>)
    ensures
        match r {
            Ok(number) => required_number(*header, key) == Ok::<nat, TransferError>(number as nat),
            Err(error) => required_number(*header, key) == Err::<nat, TransferError>(error),
        },
{
    match required_header(header, key) {
        Err(error) => Err(error),
        Ok(text) => {
            let chars: Vec<char> = chars_of(text.as_str());
            let len: usize = chars.len();
            proof {
                assert(chars@.subrange(0, len as int) =~= text@);
            }
            match parse_unsigned(&chars, 0, len, u64::MAX) {
                Some(number) => Ok(number),
                None => Err(TransferError::NotANumber { key }),
            }
        },
    }
}

/// The size at the end of a content range header that is there.
pub open spec fn range_size(header: Option<Vec<u8>>, key: HeaderKey) -> Result<nat, TransferError> {
    match required_text(header, key) {
        Err(error) => Err(error),
        Ok(text) => match crate::text::after_last(text, '/') {
            None => Err(TransferError::ContentRangeShape),
            Some(tail) => match crate::text::unsigned_value(tail, u64::MAX as nat) {
                Some(size) => Ok(size),
                None => Err(TransferError::NotANumber { key: HeaderKey::ContentRange }),
            },
        },
    }
}

fn range_header(header: &Option<Vec<u8>>, key: HeaderKey) -> (r: Result<u64, TransferError>)
    ensures
        match r {
            Ok(size) => range_size(*header, key) == Ok::<nat, TransferError>(size as nat),
            Err(error) => range_size(*header, key) == Err::<nat, TransferError>(error),
        },
{
    match required_header(header, key) {
        Err(error) => Err(error),
        Ok(text) => parse_content_range_size(text.as_str()),
    }
}

/// What a reply tells, in the model that contracts speak of.
pub enum ResolutionView {
    Known { commit_sha: Seq<char>, size: nat, etag: Seq<char> },
    AskRedirect { commit_sha: Seq<char>, etag: Seq<char>, location: Seq<char> },
}

impl View for RemoteResolution {
    type V = ResolutionView;

    open spec fn view(&self) -> ResolutionView {
        match self {
            RemoteResolution::Known(identity) => ResolutionView::Known {
                commit_sha: identity.commit_sha@,
                size: identity.size as nat,
                etag: identity.etag@,
            },
            RemoteResolution::AskRedirect { commit_sha, etag, location } => {
                ResolutionView::AskRedirect {
                    commit_sha: commit_sha@,
                    etag: etag@,
                    location: location@,
                }
            },
        }
    }
}

impl IdentityReply {
    pub open spec fn succeeded(self) -> bool {
        200 <= self.status < 300
    }

    pub open spec fn redirects(self) -> bool {
        300 <= self.status < 400
    }

    /// The header that holds the entity tag: the one of the linked file before the reply's own.
    pub open spec fn etag_header(self) -> Option<Vec<u8>> {
        if self.linked_etag is Some {
            self.linked_etag
        } else {
            self.etag
        }
    }

    /// The size that the reply itself tells, or `None` where only the redirect target knows it.
    pub open spec fn told_size(self) -> Option<Result<nat, TransferError>> {
        if self.linked_size is Some {
            Some(required_number(self.linked_size, HeaderKey::LinkedSize))
        } else if self.content_range is Some {
            Some(range_size(self.content_range, HeaderKey::ContentRange))
        } else if self.succeeded() {
            Some(required_number(self.content_length, HeaderKey::ContentLength))
        } else {
            None
        }
    }

    /// What the reply tells: the first thing that is missing or malformed, or the resolution.
    pub open spec fn resolution(self) -> Result<ResolutionView, TransferError> {
        match (
            required_text(self.repo_commit, HeaderKey::RepoCommit),
            required_text(self.etag_header(), HeaderKey::Etag),
        ) {
            (Err(error), _) => Err(error),
            (Ok(_), Err(error)) => Err(error),
            (Ok(commit_sha), Ok(etag)) => {
                let etag = bare_etag(etag);
                if !is_safe_etag(etag) {
                    Err(TransferError::UnsafeEtag)
                } else {
                    match self.told_size() {
                        Some(Err(error)) => Err(error),
                        Some(Ok(size)) => Ok(ResolutionView::Known { commit_sha, size, etag }),
                        None => match required_text(self.location, HeaderKey::Location) {
                            Err(error) => Err(error),
                            Ok(location) => Ok(
                                ResolutionView::AskRedirect { commit_sha, etag, location },
                            ),
                        },
                    }
                }
            },
        }
    }
}

/// Reads the identity of a remote file out of the reply to a request for its first byte.
pub fn resolve_remote_identity(reply: &IdentityReply) -> (r: Result<
    RemoteResolution,
    TransferError,
>)
    ensures
        !reply.succeeded() && !reply.redirects() ==> (r matches Err(
            TransferError::HttpStatus { status },
        ) && status@ == reply.status_text@),
        reply.succeeded() || reply.redirects() ==> match r {
            Ok(resolution) => reply.resolution() == Ok::<ResolutionView, TransferError>(
                resolution@,
            ),
            Err(error) => reply.resolution() == Err::<ResolutionView, TransferError>(error),
        },
        r matches Err(TransferError::HttpStatus { .. }) <==> reply.status < 200 || reply.status
            >= 400,
{
    let succeeded: bool = 200 <= reply.status && reply.status < 300;
    let redirects: bool = 300 <= reply.status && reply.status < 400;
    if !succeeded && !redirects {
        return Err(TransferError::HttpStatus { status: reply.status_text.clone() });
    }
    let commit_sha: String = match required_header(&reply.repo_commit, HeaderKey::RepoCommit) {
        Err(error) => {
            return Err(error);
        },
        Ok(text) => text,
    };
    let etag_header: &Option<Vec<u8>> = if reply.linked_etag.is_some() {
        &reply.linked_etag
    } else {
        &reply.etag
    };
    let etag: String = match required_header(etag_header, HeaderKey::Etag) {
        Err(error) => {
            return Err(error);
        },
        Ok(text) => match clean_etag(text.as_str()) {
            Err(error) => {
                return Err(error);
            },
            Ok(etag) => etag,
        },
    };
    let size: Result<u64, TransferError> = if reply.linked_size.is_some() {
        number_header(&reply.linked_size, HeaderKey::LinkedSize)
    } else if reply.content_range.is_some() {
        range_header(&reply.content_range, HeaderKey::ContentRange)
    } else if succeeded {
        number_header(&reply.content_length, HeaderKey::ContentLength)
    } else {
        return match required_header(&reply.location, HeaderKey::Location) {
            Err(error) => Err(error),
            Ok(location) => Ok(RemoteResolution::AskRedirect { commit_sha, etag, location }),
        };
    };
    match size {
        Err(error) => Err(error),
        Ok(size) => Ok(RemoteResolution::Known(RemoteFileIdentity { commit_sha, size, etag })),
    }
}

/// Completes an identity with the size that the redirect target tells in its content range.
pub fn resolve_redirected_size(
    commit_sha: String,
    etag: String,
    content_range: &Option<Vec<u8>>,
) -> (r: Result<RemoteFileIdentity, TransferError>)
    ensures
        match r {
            Ok(identity) => {
                &&& range_size(*content_range, HeaderKey::RedirectedContentRange) == Ok::<
                    nat,
                    TransferError,
                >(identity.size as nat)
                &&& identity.commit_sha@ == commit_sha@
                &&& identity.etag@ == etag@
            },
            Err(error) => range_size(*content_range, HeaderKey::RedirectedContentRange) == Err::<
                nat,
                TransferError,
            >(error),
        },
{
    match range_header(content_range, HeaderKey::RedirectedContentRange) {
        Err(error) => Err(error),
        Ok(size) => Ok(RemoteFileIdentity { commit_sha, size, etag }),
    }
}

/// The number that little-endian bytes stand for.
pub open spec fn little_endian(bytes: Seq<u8>) -> nat
    decreases bytes.len(),
{
    if bytes.len() == 0 {
        0
    } else {
        bytes[0] as nat + 256 * little_endian(bytes.skip(1))
    }
}

/// The weight of a byte behind `n` others.
pub open spec fn byte_weight(n: nat) -> nat
    decreases n,
{
    if n == 0 {
        1
    } else {
        256 * byte_weight((n - 1) as nat)
    }
}

proof fn lemma_little_endian_bound(bytes: Seq<u8>)
    ensures
        little_endian(bytes) < byte_weight(bytes.len()),
    decreases bytes.len(),
{
    if bytes.len() > 0 {
        lemma_little_endian_bound(bytes.skip(1));
    }
}

proof fn lemma_byte_weight_bound(n: nat)
    requires
        n <= 8,
    ensures
        byte_weight(n) <= 0x1_0000_0000_0000_0000,
        byte_weight(8) == 0x1_0000_0000_0000_0000,
{
    reveal_with_fuel(byte_weight, 9);
}

/// The count of committed bytes that the marker behind a partial file holds.
pub fn marker_value(bytes: &Vec<u8>) -> (value: u64)
    requires
        bytes.len() == MARKER_BYTES,
    ensures
        value == little_endian(bytes@),
{
    let mut value: u64 = 0;
    let mut i: usize = 8;
    proof {
        assert(bytes@.skip(8) =~= Seq::<u8>::empty());
    }
    while i > 0
        invariant
            i <= 8,
            bytes.len() == 8,
            value == little_endian(bytes@.skip(i as int)),
        decreases i,
    {
        i -= 1;
        proof {
            assert(bytes@.skip(i as int).skip(1) =~= bytes@.skip(i + 1));
            lemma_little_endian_bound(bytes@.skip(i as int));
            lemma_byte_weight_bound(bytes@.skip(i as int).len());
        }
        value = bytes[i] as u64 + 256 * value;
    }
    proof {
        assert(bytes@.skip(0) =~= bytes@);
    }
    value
}

/// The marker that holds a count of committed bytes.
pub fn marker_bytes(value: u64) -> (bytes: Vec<u8>)
    ensures
        bytes@.len() == MARKER_BYTES,
        little_endian(bytes@) == value,
{
    let mut bytes: Vec<u8> = Vec::new();
    let mut rest: u64 = value;
    let mut i: usize = 0;
    proof {
        lemma_byte_weight_bound(8);
        assert(byte_weight(0) == 1);
        assert(little_endian(bytes@) == 0);
        assert(1 * rest == rest);
    }
    while i < 8
        invariant
            i <= 8,
            bytes@.len() == i,
            value == little_endian(bytes@) + byte_weight(i as nat) * rest,
            rest < byte_weight((8 - i) as nat),
        decreases 8 - i,
    {
        let ghost before = bytes@;
        let byte: u8 = (rest % 256) as u8;
        bytes.push(byte);
        proof {
            lemma_little_endian_push(before, byte);
            let weight = byte_weight(i as nat);
            let q = (rest / 256) as int;
            assert(weight * rest == weight * byte + (256 * weight) * q) by (nonlinear_arith)
                requires
                    rest == byte + 256 * q,
            ;
        }
        rest = rest / 256;
        i += 1;
    }
    proof {
        assert(byte_weight(0) == 1);
        assert(byte_weight(8) * 0 == 0);
    }
    bytes
}

proof fn lemma_little_endian_push(bytes: Seq<u8>, byte: u8)
    ensures
        little_endian(bytes.push(byte)) == little_endian(bytes) + byte_weight(bytes.len()) * byte,
    decreases bytes.len(),
{
    let longer = bytes.push(byte);
    assert(little_endian(longer) == longer[0] as nat + 256 * little_endian(longer.skip(1)));
    if bytes.len() == 0 {
        assert(longer.skip(1) =~= Seq::<u8>::empty());
        assert(byte_weight(0) == 1);
        assert(1 * byte == byte);
    } else {
        assert(longer.skip(1) =~= bytes.skip(1).push(byte));
        lemma_little_endian_push(bytes.skip(1), byte);
        let weight = byte_weight(bytes.skip(1).len());
        assert(256 * (weight * byte) == (256 * weight) * byte) by (nonlinear_arith);
    }
}

/// A count has one marker of its length: what is read out of a marker tells all its bytes, and
/// what is written for a count reads back as that count.
pub proof fn lemma_marker_tells_its_bytes(left: Seq<u8>, right: Seq<u8>)
    requires
        left.len() == right.len(),
        little_endian(left) == little_endian(right),
    ensures
        left == right,
    decreases left.len(),
{
    if left.len() > 0 {
        assert(left[0] == right[0] && little_endian(left.skip(1)) == little_endian(right.skip(1)));
        lemma_marker_tells_its_bytes(left.skip(1), right.skip(1));
        assert forall|i: int| 0 <= i < left.len() implies left[i] == right[i] by {
            if i > 0 {
                assert(left.skip(1)[i - 1] == right.skip(1)[i - 1]);
            }
        }
    }
    assert(left =~= right);
}

/// What to do with a partial file before a download resumes it.
#[derive(Clone, Copy, Debug, PartialEq, Eq, Structural)]
pub enum PartialRepair {
    /// The partial can be resumed as it is.
    Keep,
    /// The marker counts itself: write the file's size over it.
    RewriteMarker { committed: u64 },
    /// The partial cannot be trusted.
    Remove,
}

/// The size that a partial file has on disk: its contents and the marker.
pub open spec fn storage_size(expected_size: u64) -> int {
    expected_size + MARKER_BYTES
}

/// What to do with a partial file whose size on disk is `storage_len` and whose marker, if it has
/// room for one, holds `committed`.
pub open spec fn partial_repair(
    storage_len: u64,
    committed: u64,
    expected_size: u64,
) -> PartialRepair {
    if storage_len != storage_size(expected_size) {
        PartialRepair::Remove
    } else if committed == expected_size + 1 {
        PartialRepair::RewriteMarker { committed: expected_size }
    } else if committed > expected_size {
        PartialRepair::Remove
    } else {
        PartialRepair::Keep
    }
}

/// Whether a file of `storage_len` bytes is a partial of a file of `expected_size` bytes, so that
/// its marker can be read. Sizes whose partial would not fit 64 bits are refused.
pub fn has_marker(storage_len: u64, expected_size: u64) -> (r: Result<bool, TransferError>)
    ensures
        storage_size(expected_size) > u64::MAX ==> r == Err::<bool, TransferError>(
            TransferError::PartialSizeOverflow,
        ),
        storage_size(expected_size) <= u64::MAX ==> r == Ok::<bool, TransferError>(
            storage_len == storage_size(expected_size),
        ),
{
    match expected_size.checked_add(MARKER_BYTES) {
        None => Err(TransferError::PartialSizeOverflow),
        Some(size) => Ok(storage_len == size),
    }
}

/// Decides what to do with an existing partial file before it is resumed. The marker only counts
/// where the size on disk leaves room for it.
pub fn repair_invalid_partial(storage_len: u64, marker: u64, expected_size: u64) -> (r: Result<
    PartialRepair,
    TransferError,
>)
    ensures
        storage_size(expected_size) > u64::MAX ==> r == Err::<PartialRepair, TransferError>(
            TransferError::PartialSizeOverflow,
        ),
        storage_size(expected_size) <= u64::MAX ==> r == Ok::<PartialRepair, TransferError>(
            partial_repair(storage_len, marker, expected_size),
        ),
{
    match has_marker(storage_len, expected_size) {
        Err(error) => Err(error),
        Ok(false) => Ok(PartialRepair::Remove),
        Ok(true) => if marker == expected_size.saturating_add(1) {
            Ok(PartialRepair::RewriteMarker { committed: expected_size })
        } else if marker > expected_size {
            Ok(PartialRepair::Remove)
        } else {
            Ok(PartialRepair::Keep)
        },
    }
}

/// How many bytes of a partial file are committed, as far as the file can tell: a file of another
/// size tells nothing, a marker one past the size means the whole file, and a marker beyond that
/// is an error.
pub fn committed_prefix(storage_len: u64, marker: u64, expected_size: u64) -> (r: Result<
    Option<u64>,
    TransferError,
>)
    ensures
        storage_size(expected_size) > u64::MAX ==> r == Err::<Option<u64>, TransferError>(
            TransferError::MarkerOffsetOverflow,
        ),
        storage_size(expected_size) <= u64::MAX ==> r == match partial_repair(
            storage_len,
            marker,
            expected_size,
        ) {
            PartialRepair::Keep => Ok::<Option<u64>, TransferError>(Some(marker)),
            PartialRepair::RewriteMarker { committed } => Ok(Some(committed)),
            PartialRepair::Remove => if storage_len != storage_size(expected_size) {
                Ok(None)
            } else {
                Err(TransferError::InvalidMarker)
            },
        },
{
    match expected_size.checked_add(MARKER_BYTES) {
        None => Err(TransferError::MarkerOffsetOverflow),
        Some(size) => if storage_len != size {
            Ok(None)
        } else if marker == expected_size.saturating_add(1) {
            Ok(Some(expected_size))
        } else if marker > expected_size {
            Err(TransferError::InvalidMarker)
        } else {
            Ok(Some(marker))
        },
    }
}

/// A repaired partial is never invalid: reading its marker again finds a count of committed bytes
/// within the file, and a second repair leaves it alone.
pub proof fn lemma_repaired_partial_is_valid(storage_len: u64, marker: u64, expected_size: u64)
    requires
        storage_size(expected_size) <= u64::MAX,
    ensures
        match partial_repair(storage_len, marker, expected_size) {
            PartialRepair::Keep => marker <= expected_size,
            PartialRepair::RewriteMarker { committed } => {
                &&& committed <= expected_size
                &&& partial_repair(storage_len, committed, expected_size) == PartialRepair::Keep
            },
            PartialRepair::Remove => true,
        },
{
}

/// What a transfer cache was filled for.
#[derive(Debug, PartialEq, Eq)]
pub struct TransferIdentity {
    pub version: u32,
    pub provider: String,
    pub repo_id: String,
    pub commit_sha: String,
    pub path: String,
    pub expected_size: u64,
    pub expected_sha256: String,
    pub etag: String,
}

/// A transfer identity in the model that contracts speak of.
pub struct IdentityView {
    pub version: u32,
    pub provider: Seq<char>,
    pub repo_id: Seq<char>,
    pub commit_sha: Seq<char>,
    pub path: Seq<char>,
    pub expected_size: u64,
    pub expected_sha256: Seq<char>,
    pub etag: Seq<char>,
}

impl View for TransferIdentity {
    type V = IdentityView;

    open spec fn view(&self) -> IdentityView {
        IdentityView {
            version: self.version,
            provider: self.provider@,
            repo_id: self.repo_id@,
            commit_sha: self.commit_sha@,
            path: self.path@,
            expected_size: self.expected_size,
            expected_sha256: self.expected_sha256@,
            etag: self.etag@,
        }
    }
}

impl TransferIdentity {
    /// Whether both name the same file in the same version.
    pub fn same_as(&self, other: &TransferIdentity) -> (r: bool)
        ensures
            r == (self@ == other@),
    {
        self.version == other.version && self.provider == other.provider && self.repo_id
            == other.repo_id && self.commit_sha == other.commit_sha && self.path == other.path
            && self.expected_size == other.expected_size && self.expected_sha256
            == other.expected_sha256 && self.etag == other.etag
    }
}

/// Whether an existing cache has to be discarded before a transfer of `identity`: it was not
/// filled for exactly that identity.
pub fn prepare_transfer_cache(
    cache_exists: bool,
    stored: &Option<TransferIdentity>,
    identity: &TransferIdentity,
) -> (discard: bool)
    ensures
        discard == (cache_exists && !(stored matches Some(stored) && stored@ == identity@)),
{
    let matches: bool = match stored {
        Some(stored) => stored.same_as(identity),
        None => false,
    };
    cache_exists && !matches
}

/// `s` with each slash replaced by two hyphens.
pub open spec fn slashes_replaced(s: Seq<char>) -> Seq<char>
    decreases s.len(),
{
    if s.len() == 0 {
        Seq::empty()
    } else if s.last() == '/' {
        slashes_replaced(s.drop_last()) + seq!['-', '-']
    } else {
        slashes_replaced(s.drop_last()).push(s.last())
    }
}

/// `hf_hub::Repo::folder_name` of a model repository: the word "models" and the repository's name
/// behind two hyphens, with two hyphens for each slash. The revision plays no part in it.
#[verifier::external_body]
fn hub_folder_name(repo_id: &str, revision: &str) -> (folder: String)
    ensures
        folder@ == slashes_replaced("models--"@ + repo_id@),
{
    hf_hub::Repo::with_revision(
        repo_id.to_string(),
        hf_hub::RepoType::Model,
        revision.to_string(),
    ).folder_name()
}

/// The part of a file name before its extension. A dot at the start opens no extension.
pub open spec fn stem(name: Seq<char>) -> Seq<char> {
    match crate::text::after_last(name, '.') {
        Some(extension) if extension.len() + 1 < name.len() => name.take(
            name.len() - extension.len() - 1,
        ),
        _ => name,
    }
}

/// Where in the cache directory the partial file of a transfer lies: a folder for the repository,
/// the folder "blobs" in it, and the file named after the entity tag.
#[derive(Debug)]
pub struct PartialLocation {
    pub repo_folder: String,
    pub file: String,
}

impl HfTransferArgs {
    /// The location of the partial file of the version that `etag` names.
    pub fn partial_location(&self, etag: &str) -> (location: PartialLocation)
        ensures
            location.repo_folder@ == slashes_replaced("models--"@ + self.repo_id@),
            location.file@ == stem(etag@) + ".sync.part"@,
    {
        let chars: Vec<char> = chars_of(etag);
        let end: usize = match after_last_separator(&chars, '.') {
            Some(start) if start > 1 => start - 1,
            _ => chars.len(),
        };
        proof {
            assert(etag@.subrange(0, etag@.len() as int) =~= etag@);
            assert(etag@.subrange(0, end as int) =~= etag@.take(end as int));
            match crate::text::after_last(etag@, '.') {
                Some(extension) => {
                    lemma_after_last_is_shorter(etag@);
                },
                None => {},
            }
        }
        let mut file: String = etag.substring_char(0, end).to_owned();
        file.append(".sync.part");
        PartialLocation {
            repo_folder: hub_folder_name(self.repo_id.as_str(), self.revision.as_str()),
            file,
        }
    }
}

proof fn lemma_after_last_is_shorter(s: Seq<char>)
    ensures
        crate::text::after_last(s, '.') matches Some(tail) ==> tail.len() < s.len(),
    decreases s.len(),
{
    if s.len() > 0 {
        lemma_after_last_is_shorter(s.drop_last());
    }
}

/// The name of the lock file that stands beside a cache directory.
pub fn transfer_lock_name(cache_dir: &str) -> (r: Result<String, TransferError>)
    ensures
        match r {
            Ok(name) => file_name(cache_dir@) matches Some(dir) && name@ == dir + ".lock"@,
            Err(error) => error == TransferError::CacheDirName && file_name(cache_dir@) is None,
        },
{
    match file_name_of(cache_dir) {
        None => Err(TransferError::CacheDirName),
        Some(dir) => {
            let mut name: String = String::new();
            let mut i: usize = 0;
            while i < dir.len()
                invariant
                    i <= dir.len(),
                    name@ == dir@.take(i as int),
                decreases dir.len() - i,
            {
                name.push(dir[i]);
                i += 1;
                assert(dir@.take(i as int) =~= dir@.take(i - 1).push(dir@[i - 1]));
            }
            assert(dir@.take(i as int) =~= dir@);
            name.append(".lock");
            Ok(name)
        },
    }
}

/// A token setting counts unless it is blank.
pub fn usable_token(setting: Option<String>) -> (token: Option<String>)
    ensures
        match setting {
            Some(value) => if crate::text::trimmed(value@, CharClass::Space).len() == 0 {
                token is None
            } else {
                token == Some(value)
            },
            None => token is None,
        },
{
    match setting {
        None => None,
        Some(value) => {
            let chars: Vec<char> = chars_of(value.as_str());
            let len: usize = chars.len();
            proof {
                assert(chars@.subrange(0, len as int) =~= value@);
            }
            let from: usize = skip_leading(&chars, 0, len, CharClass::Space);
            let to: usize = skip_trailing(&chars, from, len, CharClass::Space);
            if from == to {
                None
            } else {
                Some(value)
            }
        },
    }
}

/// How far a transfer has come.
#[derive(Clone, Copy, Debug, PartialEq, Eq, Structural)]
pub enum TransferPhase {
    /// Nothing is known yet.
    Start,
    /// The destination exists: it has to be hashed.
    Destination,
    /// The lock is to be taken and the remote file to be identified.
    Remote,
    /// The remote file is the expected one: prepare the cache, then download.
    Download,
    /// The download has the expected size: hash it.
    Digest,
    /// The download is the expected file: move it to its destination.
    Publish,
    /// The file is at its destination.
    Done,
    /// The transfer was given up, and the cache may be kept for another attempt.
    Failed,
    /// The transfer was given up, and the cache has to be discarded.
    FailedDiscardingCache,
}

/// A transfer, from its validated arguments to the published file.
#[derive(Debug)]
pub struct Transfer {
    args: HfTransferArgs,
    phase: TransferPhase,
    size: u64,
    sha256: String,
    etag: String,
}

impl Transfer {
    pub closed spec fn arguments(self) -> HfTransferArgs {
        self.args
    }

    pub closed spec fn stage(self) -> TransferPhase {
        self.phase
    }

    /// The entity tag of the remote file, once it is known.
    pub closed spec fn remote_etag(self) -> Seq<char> {
        self.etag@
    }

    /// The digest that the manifest expects, in small letters.
    pub open spec fn expected_digest(self) -> Seq<char> {
        crate::text::lowered(self.arguments().expected_sha256@)
    }

    /// What is published has the size and the digest that the manifest expects.
    pub closed spec fn wf(self) -> bool {
        &&& self.phase == TransferPhase::Digest || self.phase == TransferPhase::Publish
            ==> self.size == self.args.expected_size
        &&& self.phase == TransferPhase::Publish ==> self.sha256@ == self.expected_digest()
    }

    pub fn new(args: HfTransferArgs) -> (transfer: Self)
        ensures
            transfer.wf(),
            transfer.arguments() == args,
            transfer.stage() == TransferPhase::Start,
    {
        Transfer {
            args,
            phase: TransferPhase::Start,
            size: 0,
            sha256: String::new(),
            etag: String::new(),
        }
    }

    pub fn args(&self) -> (args: &HfTransferArgs)
        ensures
            *args == self.arguments(),
    {
        &self.args
    }

    pub fn phase(&self) -> (phase: TransferPhase)
        ensures
            phase == self.stage(),
    {
        self.phase
    }

    /// Whether the destination is there decides what comes first.
    pub fn start(&mut self, destination_exists: bool)
        requires
            old(self).wf(),
            old(self).stage() == TransferPhase::Start,
        ensures
            final(self).wf(),
            final(self).arguments() == old(self).arguments(),
            final(self).stage() == if destination_exists {
                TransferPhase::Destination
            } else {
                TransferPhase::Remote
            },
    {
        self.phase = if destination_exists {
            TransferPhase::Destination
        } else {
            TransferPhase::Remote
        };
    }

    /// An existing destination completes the transfer if it is the expected file, and fails it
    /// otherwise: a file that is already there is never replaced.
    pub fn destination_hashed(&mut self, size: u64, sha256: String) -> (r: Result<
        TransferEvent,
        TransferError,
    >)
        requires
            old(self).wf(),
            old(self).stage() == TransferPhase::Destination,
        ensures
            final(self).wf(),
            final(self).arguments() == old(self).arguments(),
            r is Ok == (size == old(self).arguments().expected_size && sha256@ == old(
                self,
            ).expected_digest()),
            r matches Ok(event) ==> {
                &&& final(self).stage() == TransferPhase::Done
                &&& event matches TransferEvent::Complete {
                    path,
                    size: told,
                    sha256: digest,
                    etag,
                } && path@ == old(self).arguments().destination@ && told == size && digest@
                    == sha256@ && etag@.len() == 0
            },
            r matches Err(error) ==> {
                &&& final(self).stage() == TransferPhase::Failed
                &&& error matches TransferError::DestinationMismatch { destination }
                    && destination@ == old(self).arguments().destination@
            },
    {
        let expected: String = self.args.expected_sha256.as_str().to_ascii_lowercase();
        if size == self.args.expected_size && sha256 == expected {
            self.phase = TransferPhase::Done;
            Ok(
                TransferEvent::Complete {
                    path: self.args.destination.clone(),
                    size,
                    sha256,
                    etag: String::new(),
                },
            )
        } else {
            self.phase = TransferPhase::Failed;
            Err(
                TransferError::DestinationMismatch { destination: self.args.destination.clone() },
            )
        }
    }

    /// Holds the identity of the remote file against the arguments: the commit first, then the
    /// size. The identity that the cache is to be filled for follows.
    pub fn remote_resolved(&mut self, remote: RemoteFileIdentity) -> (r: Result<
        TransferIdentity,
        TransferError,
    >)
        requires
            old(self).wf(),
            old(self).stage() == TransferPhase::Remote,
        ensures
            final(self).wf(),
            final(self).arguments() == old(self).arguments(),
            r is Ok == (crate::text::lowered(remote.commit_sha@) == crate::text::lowered(
                old(self).arguments().revision@,
            ) && remote.size == old(self).arguments().expected_size),
            r matches Ok(identity) ==> {
                &&& final(self).stage() == TransferPhase::Download
                &&& final(self).remote_etag() == remote.etag@
                &&& identity@ == (IdentityView {
                    version: TRANSFER_IDENTITY_VERSION,
                    provider: "huggingface"@,
                    repo_id: old(self).arguments().repo_id@,
                    commit_sha: crate::text::lowered(old(self).arguments().revision@),
                    path: old(self).arguments().filename@,
                    expected_size: old(self).arguments().expected_size,
                    expected_sha256: old(self).expected_digest(),
                    etag: remote.etag@,
                })
            },
            r matches Err(error) ==> {
                &&& final(self).stage() == TransferPhase::Failed
                &&& if crate::text::lowered(remote.commit_sha@) != crate::text::lowered(
                    old(self).arguments().revision@,
                ) {
                    error matches TransferError::CommitMismatch { returned, revision }
                        && returned@ == remote.commit_sha@ && revision@ == old(
                        self,
                    ).arguments().revision@
                } else {
                    error matches TransferError::RemoteSizeMismatch {
                        returned,
                        filename,
                        expected,
                    } && returned == remote.size && filename@ == old(self).arguments().filename@
                        && expected == old(self).arguments().expected_size
                }
            },
    {
        let commit: String = remote.commit_sha.as_str().to_ascii_lowercase();
        let revision: String = self.args.revision.as_str().to_ascii_lowercase();
        if commit != revision {
            self.phase = TransferPhase::Failed;
            return Err(
                TransferError::CommitMismatch {
                    returned: remote.commit_sha,
                    revision: self.args.revision.clone(),
                },
            );
        }
        if remote.size != self.args.expected_size {
            self.phase = TransferPhase::Failed;
            return Err(
                TransferError::RemoteSizeMismatch {
                    returned: remote.size,
                    filename: self.args.filename.clone(),
                    expected: self.args.expected_size,
                },
            );
        }
        self.etag = remote.etag.clone();
        self.phase = TransferPhase::Download;
        Ok(
            TransferIdentity {
                version: TRANSFER_IDENTITY_VERSION,
                provider: "huggingface".to_owned(),
                repo_id: self.args.repo_id.clone(),
                commit_sha: revision,
                path: self.args.filename.clone(),
                expected_size: self.args.expected_size,
                expected_sha256: self.args.expected_sha256.as_str().to_ascii_lowercase(),
                etag: remote.etag,
            },
        )
    }

    /// Holds the size of the downloaded file against the manifest.
    pub fn downloaded(&mut self, size: u64) -> (r: Result<(), TransferError>)
        requires
            old(self).wf(),
            old(self).stage() == TransferPhase::Download,
        ensures
            final(self).wf(),
            final(self).arguments() == old(self).arguments(),
            final(self).remote_etag() == old(self).remote_etag(),
            r is Ok == (size == old(self).arguments().expected_size),
            r is Ok ==> final(self).stage() == TransferPhase::Digest,
            r matches Err(error) ==> {
                &&& final(self).stage() == TransferPhase::Failed
                &&& error matches TransferError::DownloadSizeMismatch {
                    actual,
                    filename,
                    expected,
                } && actual == size && filename@ == old(self).arguments().filename@ && expected
                    == old(self).arguments().expected_size
            },
    {
        if size != self.args.expected_size {
            self.phase = TransferPhase::Failed;
            return Err(
                TransferError::DownloadSizeMismatch {
                    actual: size,
                    filename: self.args.filename.clone(),
                    expected: self.args.expected_size,
                },
            );
        }
        self.size = size;
        self.phase = TransferPhase::Digest;
        Ok(())
    }

    /// Holds the digest of the downloaded file against the manifest. A file with another digest
    /// takes the cache with it.
    pub fn download_hashed(&mut self, sha256: String) -> (r: Result<(), TransferError>)
        requires
            old(self).wf(),
            old(self).stage() == TransferPhase::Digest,
        ensures
            final(self).wf(),
            final(self).arguments() == old(self).arguments(),
            final(self).remote_etag() == old(self).remote_etag(),
            r is Ok == (sha256@ == old(self).expected_digest()),
            r is Ok ==> final(self).stage() == TransferPhase::Publish,
            r matches Err(error) ==> {
                &&& final(self).stage() == TransferPhase::FailedDiscardingCache
                &&& error matches TransferError::DigestMismatch { actual, expected } && actual@
                    == sha256@ && expected@ == old(self).expected_digest()
            },
    {
        let expected: String = self.args.expected_sha256.as_str().to_ascii_lowercase();
        if sha256 != expected {
            self.phase = TransferPhase::FailedDiscardingCache;
            return Err(TransferError::DigestMismatch { actual: sha256, expected });
        }
        self.sha256 = sha256;
        self.phase = TransferPhase::Publish;
        Ok(())
    }

    /// The file is at its destination: reports the completed transfer. Whatever happened on the
    /// way, what is reported has the size and the digest that the manifest expects.
    pub fn published(&mut self) -> (event: TransferEvent)
        requires
            old(self).wf(),
            old(self).stage() == TransferPhase::Publish,
        ensures
            final(self).wf(),
            final(self).arguments() == old(self).arguments(),
            final(self).stage() == TransferPhase::Done,
            event matches TransferEvent::Complete { path, size, sha256, etag } && path@ == old(
                self,
            ).arguments().destination@ && size == old(self).arguments().expected_size && sha256@
                == old(self).expected_digest() && etag@ == old(self).remote_etag(),
    {
        self.phase = TransferPhase::Done;
        TransferEvent::Complete {
            path: self.args.destination.clone(),
            size: self.size,
            sha256: self.sha256.clone(),
            etag: self.etag.clone(),
        }
    }
}

} // verus!
