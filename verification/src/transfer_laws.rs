//! What a transfer reads out of a reply, which arguments it takes, and what it reports.
use crate::hf_transfer::{
    HeaderKey, HfTransferArgs, IdentityReply, JsonProgress, PartialRepair, ResolutionView, Transfer,
    TransferError,
};
use crate::text::CharClass;
use vstd::prelude::*;

verus! {

/// Whether `text` is what the bytes of `header` spell, all of them printable ASCII or tabs.
pub open spec fn spells(header: Option<Vec<u8>>, text: Seq<char>) -> bool {
    header matches Some(bytes) && text.len() == bytes@.len() && forall|i: int|
        0 <= i < text.len() ==> (32 <= #[trigger] bytes@[i] <= 126 || bytes@[i] == 9) && text[i]
            == bytes@[i] as char
}

/// Whether `etag` is what `header` spells, without white space and then without quotes around it.
pub open spec fn names_version(header: Option<Vec<u8>>, etag: Seq<char>) -> bool {
    exists|text: Seq<char>, inner: Seq<char>| #[trigger]
        names_version_through(header, text, inner, etag)
}

/// The two steps from a header to the entity tag in it.
pub open spec fn names_version_through(
    header: Option<Vec<u8>>,
    text: Seq<char>,
    inner: Seq<char>,
    etag: Seq<char>,
) -> bool {
    &&& spells(header, text)
    &&& crate::text_laws::is_core(text, inner, CharClass::Space)
    &&& crate::text_laws::is_core(inner, etag, CharClass::Only('"'))
}

/// Whether an entity tag cannot name a file.
pub open spec fn unusable(etag: Seq<char>) -> bool {
    etag.len() == 0 || etag == seq!['.'] || etag == seq!['.', '.'] || etag.contains('/')
        || etag.contains('\\')
}

/// The entity tag of a resolution.
pub open spec fn etag_of(resolution: ResolutionView) -> Seq<char> {
    match resolution {
        ResolutionView::Known { etag, .. } => etag,
        ResolutionView::AskRedirect { etag, .. } => etag,
    }
}

/// The commit of a resolution.
pub open spec fn commit_of(resolution: ResolutionView) -> Seq<char> {
    match resolution {
        ResolutionView::Known { commit_sha, .. } => commit_sha,
        ResolutionView::AskRedirect { commit_sha, .. } => commit_sha,
    }
}

/// The header names of a reply that ask for its resolution are the reply's own: what a required
/// header holds is its text, and one that is missing or is no text is refused by its name.
pub proof fn lemma_required_header_is_its_text(header: Option<Vec<u8>>, key: HeaderKey)
    ensures
        match crate::hf_transfer::required_text(header, key) {
            Ok(text) => spells(header, text),
            Err(error) => match header {
                None => error == TransferError::MissingHeader { key },
                Some(bytes) => error == (TransferError::NonTextHeader { key }) && exists|i: int|
                    0 <= i < bytes@.len() && #[trigger] bytes@[i] != 9 && !(32 <= bytes@[i]
                        <= 126),
            },
        },
        forall|text: Seq<char>| #[trigger]
            spells(header, text) ==> crate::hf_transfer::required_text(header, key) == Ok::<
                Seq<char>,
                TransferError,
            >(text),
{
    if header is Some && !crate::hf_transfer::is_header_text(header->Some_0@) {
        let bytes = header->Some_0@;
        let i = choose|i: int|
            0 <= i < bytes.len() && !(32 <= #[trigger] bytes[i] < 127 || bytes[i] == 9);
        assert(bytes[i] != 9);
    }
    assert forall|text: Seq<char>| #[trigger]
        spells(header, text) implies crate::hf_transfer::required_text(header, key) == Ok::<
        Seq<char>,
        TransferError,
    >(text) by {
        assert(crate::hf_transfer::ascii_text(header->Some_0@) =~= text);
    }
}

/// The entity tag comes from the linked file's header wherever the reply has one, whatever the
/// reply's own entity tag says; only where there is none does the reply's own count. Of either it is
/// the text without white space and quotes around it, and it can always name a file.
pub proof fn lemma_linked_etag_comes_first(reply: IdentityReply)
    ensures
        reply.resolution() matches Ok(resolution) ==> {
            &&& reply.linked_etag is Some ==> names_version(reply.linked_etag, etag_of(resolution))
            &&& reply.linked_etag is None ==> names_version(reply.etag, etag_of(resolution))
            &&& etag_of(resolution).len() > 0
            &&& !etag_of(resolution).contains('/')
            &&& !etag_of(resolution).contains('\\')
            &&& etag_of(resolution) != seq!['.']
            &&& etag_of(resolution) != seq!['.', '.']
        },
{
    if reply.resolution() is Ok {
        let header = if reply.linked_etag is Some {
            reply.linked_etag
        } else {
            reply.etag
        };
        lemma_required_header_is_its_text(header, HeaderKey::Etag);
        let text = crate::hf_transfer::ascii_text(header->Some_0@);
        let inner = crate::text::trimmed(text, CharClass::Space);
        crate::text_laws::lemma_trimmed_is_the_core(text, CharClass::Space);
        crate::text_laws::lemma_trimmed_is_the_core(inner, CharClass::Only('"'));
        let etag = etag_of(reply.resolution()->Ok_0);
        assert(names_version_through(header, text, inner, etag));
    }
}

/// Beside a linked file's entity tag the reply's own plays no part: two replies that differ in
/// nothing else resolve alike.
pub proof fn lemma_own_etag_is_ignored_beside_a_linked_one(
    reply: IdentityReply,
    other: IdentityReply,
)
    requires
        reply.linked_etag is Some,
        other == (IdentityReply { etag: other.etag, ..reply }),
    ensures
        reply.resolution() == other.resolution(),
{
}

/// A reply that names a commit, a usable entity tag and a size resolves to exactly these, and the
/// size is that of the linked file before the end of the content range before, in a reply of
/// success, the content's length. A redirection that tells no size is asked at its location.
pub proof fn lemma_reply_resolves_to_what_it_names(reply: IdentityReply)
    ensures
        reply.resolution() matches Ok(resolution) ==> {
            &&& spells(reply.repo_commit, commit_of(resolution))
            &&& match resolution {
                ResolutionView::Known { size, .. } => if reply.linked_size is Some {
                    exists|text: Seq<char>| #[trigger]
                        spells(reply.linked_size, text) && crate::text::unsigned_value(
                            text,
                            u64::MAX as nat,
                        ) == Some(size)
                } else if reply.content_range is Some {
                    exists|text: Seq<char>, tail: Seq<char>|
                        spells(reply.content_range, text) && #[trigger] crate::text::after_last(
                            text,
                            '/',
                        ) == Some(tail) && #[trigger] crate::text::unsigned_value(
                            tail,
                            u64::MAX as nat,
                        ) == Some(size)
                } else {
                    &&& 200 <= reply.status < 300
                    &&& exists|text: Seq<char>| #[trigger]
                        spells(reply.content_length, text) && crate::text::unsigned_value(
                            text,
                            u64::MAX as nat,
                        ) == Some(size)
                },
                ResolutionView::AskRedirect { location, .. } => {
                    &&& reply.linked_size is None
                    &&& reply.content_range is None
                    &&& !(200 <= reply.status < 300)
                    &&& spells(reply.location, location)
                },
            }
        },
{
    lemma_required_header_is_its_text(reply.repo_commit, HeaderKey::RepoCommit);
    lemma_required_header_is_its_text(reply.linked_size, HeaderKey::LinkedSize);
    lemma_required_header_is_its_text(reply.content_range, HeaderKey::ContentRange);
    lemma_required_header_is_its_text(reply.content_length, HeaderKey::ContentLength);
    lemma_required_header_is_its_text(reply.location, HeaderKey::Location);
    if reply.resolution() is Ok {
        match reply.resolution()->Ok_0 {
            ResolutionView::Known { size, .. } => {
                if reply.linked_size is Some {
                    let text = crate::hf_transfer::ascii_text(reply.linked_size->Some_0@);
                    assert(spells(reply.linked_size, text));
                } else if reply.content_range is Some {
                    let text = crate::hf_transfer::ascii_text(reply.content_range->Some_0@);
                    let tail = crate::text::after_last(text, '/')->Some_0;
                    assert(spells(reply.content_range, text));
                    assert(crate::text::unsigned_value(tail, u64::MAX as nat) == Some(size));
                } else {
                    let text = crate::hf_transfer::ascii_text(reply.content_length->Some_0@);
                    assert(spells(reply.content_length, text));
                }
            },
            _ => {},
        }
    }
}

/// A reply fails to resolve only for a reason: its commit, its entity tag or the header that tells
/// its size is missing or malformed. The first of these is the error.
pub proof fn lemma_reply_is_refused_for_a_reason(reply: IdentityReply)
    ensures
        reply.repo_commit is None ==> reply.resolution() == Err::<ResolutionView, TransferError>(
            TransferError::MissingHeader { key: HeaderKey::RepoCommit },
        ),
        reply.linked_etag is None && reply.etag is None && (exists|commit: Seq<char>| #[trigger]
            spells(reply.repo_commit, commit)) ==> reply.resolution() == Err::<
            ResolutionView,
            TransferError,
        >(TransferError::MissingHeader { key: HeaderKey::Etag }),
        reply.resolution() matches Err(error) ==> match error {
            TransferError::MissingHeader { key } => match key {
                HeaderKey::RepoCommit => reply.repo_commit is None,
                HeaderKey::Etag => reply.linked_etag is None && reply.etag is None,
                HeaderKey::ContentLength => reply.content_length is None && 200 <= reply.status
                    < 300 && reply.linked_size is None && reply.content_range is None,
                HeaderKey::Location => reply.location is None && !(200 <= reply.status < 300)
                    && reply.linked_size is None && reply.content_range is None,
                _ => false,
            },
            TransferError::NonTextHeader { .. } => true,
            TransferError::NotANumber { key } => match key {
                HeaderKey::LinkedSize => reply.linked_size is Some,
                HeaderKey::ContentRange => reply.linked_size is None && reply.content_range is Some,
                HeaderKey::ContentLength => reply.linked_size is None
                    && reply.content_range is None && reply.content_length is Some,
                _ => false,
            },
            TransferError::ContentRangeShape => reply.linked_size is None
                && reply.content_range is Some,
            TransferError::UnsafeEtag => exists|etag: Seq<char>|
                {
                    &&& #[trigger] unusable(etag)
                    &&& reply.linked_etag is Some ==> names_version(reply.linked_etag, etag)
                    &&& reply.linked_etag is None ==> names_version(reply.etag, etag)
                },
            _ => false,
        },
{
    lemma_required_header_is_its_text(reply.repo_commit, HeaderKey::RepoCommit);
    let header = if reply.linked_etag is Some {
        reply.linked_etag
    } else {
        reply.etag
    };
    lemma_required_header_is_its_text(header, HeaderKey::Etag);
    if reply.resolution() matches Err(TransferError::UnsafeEtag) {
        let text = crate::hf_transfer::ascii_text(header->Some_0@);
        let inner = crate::text::trimmed(text, CharClass::Space);
        let etag = crate::text::trimmed(inner, CharClass::Only('"'));
        crate::text_laws::lemma_trimmed_is_the_core(text, CharClass::Space);
        crate::text_laws::lemma_trimmed_is_the_core(inner, CharClass::Only('"'));
        assert(spells(header, text));
        assert(names_version_through(header, text, inner, etag));
        assert(names_version(header, etag));
        assert(unusable(etag));
    }
}

/// A path that climbs to a parent anywhere is refused, as is one that starts at the root or at the
/// current directory and one that is empty.
pub proof fn lemma_no_path_climbs(front: Seq<char>, back: Seq<char>)
    ensures
        ({
            let parent = seq!['.', '.'];
            let refused = |path: Seq<char>| crate::hf_transfer::repository_path_error(path) is Some;
            &&& refused(Seq::empty())
            &&& refused(seq!['/'] + back)
            &&& refused(parent)
            &&& refused(seq!['.'])
            &&& refused(seq!['.'] + seq!['/'] + back)
            &&& refused(parent + seq!['/'] + back)
            &&& refused(front + seq!['/'] + parent)
            &&& refused(front + seq!['/'] + (parent + seq!['/'] + back))
        }),
{
    let parent = seq!['.', '.'];
    let dot = seq!['.'];
    assert(!parent.contains('/'));
    assert(!dot.contains('/'));
    crate::text_laws::lemma_separator_parts(parent, '/', back);
    crate::text_laws::lemma_separator_parts(dot, '/', back);
    crate::text_laws::lemma_separator_parts(front, '/', parent);
    crate::text_laws::lemma_separator_parts(front, '/', parent + seq!['/'] + back);
    let of_front = crate::text::pieces(front, '/');
    assert(crate::text::pieces(parent, '/')[0] == parent);
    assert(crate::text::pieces(dot, '/')[0] == dot);
    assert(crate::text::pieces(dot + seq!['/'] + back, '/')[0] == dot);
    assert(crate::text::pieces(parent + seq!['/'] + back, '/')[0] == parent);
    assert(crate::text::pieces(front + seq!['/'] + parent, '/')[of_front.len() as int] == parent);
    let long = front + seq!['/'] + (parent + seq!['/'] + back);
    assert(crate::text::pieces(long, '/')[of_front.len() as int] == parent);
    assert((seq!['/'] + back)[0] == '/');
}

/// A plain name is a path of its own, and so is one behind an accepted path and a slash. The two
/// reasons for a refusal are told apart by the path's first character.
pub proof fn lemma_plain_paths_are_accepted(path: Seq<char>, name: Seq<char>)
    requires
        name.len() > 0,
        !name.contains('/'),
        name != seq!['.'],
        name != seq!['.', '.'],
    ensures
        crate::hf_transfer::repository_path_error(name) is None,
        crate::hf_transfer::repository_path_error(path) is None
            ==> crate::hf_transfer::repository_path_error(path + seq!['/'] + name) is None,
        crate::hf_transfer::repository_path_error(path) matches Some(error) ==> error == if path.len()
            == 0 || path[0] == '/' {
            TransferError::FilenameNotRelative
        } else {
            TransferError::FilenameUnsafe
        },
{
    crate::text_laws::lemma_separator_parts(name, '/', name);
    crate::text_laws::lemma_separator_parts(path, '/', name);
    assert(name.contains(name[0]));
    let parts = crate::text::pieces(path, '/');
    let longer = path + seq!['/'] + name;
    let all = crate::text::pieces(longer, '/');
    assert(all == parts + seq![name]);
    if crate::hf_transfer::repository_path_error(path) is None {
        assert(longer[0] == path[0]);
        assert(all[0] == parts[0]);
        assert forall|i: int| 0 <= i < all.len() implies #[trigger] all[i] != seq!['.', '.'] by {
            if i < parts.len() {
                assert(all[i] == parts[i]);
            }
        }
    }
}

/// The final name of a path is what stands behind its last slash, where that names a file; slashes
/// at the end do not count, and a parent reference names nothing.
pub proof fn lemma_final_name(dir: Seq<char>, name: Seq<char>)
    requires
        !name.contains('/'),
    ensures
        name.len() > 0 && name != seq!['.'] && name != seq!['.', '.'] ==> {
            &&& crate::hf_transfer::file_name(name) == Some(name)
            &&& crate::hf_transfer::file_name(dir + seq!['/'] + name) == Some(name)
        },
        name.len() == 0 || name == seq!['.'] ==> crate::hf_transfer::file_name(
            dir + seq!['/'] + name,
        ) == crate::hf_transfer::file_name(dir),
        name == seq!['.', '.'] ==> crate::hf_transfer::file_name(dir + seq!['/'] + name) is None,
        crate::hf_transfer::file_name(Seq::empty()) is None,
{
    crate::text_laws::lemma_separator_parts(name, '/', name);
    crate::text_laws::lemma_separator_parts(dir, '/', name);
    crate::text_laws::lemma_separator_parts(Seq::empty(), '/', name);
    let all = crate::text::pieces(dir + seq!['/'] + name, '/');
    let single = crate::text::pieces(name, '/');
    assert(all == crate::text::pieces(dir, '/') + seq![name]);
    assert(all.last() == name);
    assert(all.drop_last() =~= crate::text::pieces(dir, '/'));
    assert(single.last() == name);
    let nothing = crate::text::pieces(Seq::<char>::empty(), '/');
    assert(nothing == seq![Seq::<char>::empty()]);
    assert(nothing.drop_last() =~= Seq::<Seq<char>>::empty());
    assert(crate::hf_transfer::last_name(nothing.drop_last()) is None);
}

/// A repository is an organization and a model with one slash between them.
pub proof fn lemma_repository_has_one_slash(organization: Seq<char>, model: Seq<char>)
    requires
        !organization.contains('/'),
    ensures
        !crate::hf_transfer::is_repo_id(organization),
        crate::hf_transfer::is_repo_id(organization + seq!['/'] + model) <==> organization.len() > 0
            && model.len() > 0 && !model.contains('/'),
{
    crate::text_laws::lemma_separator_parts(organization, '/', model);
    let all = crate::text::pieces(organization + seq!['/'] + model, '/');
    crate::text_laws::lemma_separator_parts(model, '/', model);
    assert(all.len() == 1 + crate::text::pieces(model, '/').len());
    if model.contains('/') {
        let i = choose|i: int| 0 <= i < model.len() && model[i] == '/';
        let left = model.take(i);
        let right = model.skip(i + 1);
        assert(model =~= left + seq!['/'] + right);
        crate::text_laws::lemma_separator_parts(left, '/', right);
        crate::text_laws::lemma_separator_parts(right, '/', right);
    } else {
        assert(all[0] == organization && all[1] == model);
    }
}

/// Arguments are taken exactly where all of them are sound: a repository, a full commit, a full
/// digest, at least one worker and one byte per chunk, a path that only descends, and a cache
/// directory with the suffix of one.
pub proof fn lemma_arguments_are_taken_where_sound(args: HfTransferArgs)
    ensures
        args.refusal() is None <==> {
            let hexadecimal = |s: Seq<char>|
                forall|i: int|
                    0 <= i < s.len() ==> '0' <= #[trigger] s[i] <= '9' || 'a' <= s[i] <= 'f' || 'A'
                        <= s[i] <= 'F';
            &&& crate::hf_transfer::is_repo_id(args.repo_id@)
            &&& args.revision@.len() == 40
            &&& hexadecimal(args.revision@)
            &&& args.expected_sha256@.len() == 64
            &&& hexadecimal(args.expected_sha256@)
            &&& args.parallelism >= 1
            &&& args.chunk_size >= 1
            &&& crate::hf_transfer::repository_path_error(args.filename@) is None
            &&& crate::hf_transfer::file_name(args.cache_dir@) matches Some(name)
                && crate::text::ends_with(name, ".hf-transfer"@)
        },
        args.refusal() matches Some(error) ==> match error {
            TransferError::RepoId => !crate::hf_transfer::is_repo_id(args.repo_id@),
            TransferError::Revision => args.revision@.len() != 40 || exists|i: int|
                0 <= i < args.revision@.len() && !crate::text::is_hex_digit(
                    #[trigger] args.revision@[i],
                ),
            TransferError::ExpectedSha256 => args.expected_sha256@.len() != 64 || exists|i: int|
                0 <= i < args.expected_sha256@.len() && !crate::text::is_hex_digit(
                    #[trigger] args.expected_sha256@[i],
                ),
            TransferError::Parallelism => args.parallelism == 0,
            TransferError::ChunkSize => args.chunk_size == 0,
            TransferError::FilenameNotRelative => args.filename@.len() == 0 || args.filename@[0]
                == '/',
            TransferError::FilenameUnsafe => args.filename@.len() > 0 && args.filename@[0] != '/',
            TransferError::CacheDir => !(crate::hf_transfer::file_name(args.cache_dir@) matches Some(
                name,
            ) && crate::text::ends_with(name, ".hf-transfer"@)),
            _ => false,
        },
{
}

/// Progress counts what is reported: the first report is where the download resumes, every later
/// one adds to the bytes, and none leads beyond the total. An event comes with the first report,
/// with the last byte, every four mebibytes and every fifth of a second, and with nothing else; it
/// is what the next ones are measured from.
pub proof fn lemma_progress_counts_what_is_reported(
    progress: JsonProgress,
    size: u64,
    now_ns: u64,
)
    ensures
        ({
            let after = progress.updated(size, now_ns);
            let reported = if progress.awaiting_baseline {
                size as int
            } else {
                progress.bytes + size
            };
            &&& after.bytes == vstd::math::min(reported, progress.total as int)
            &&& after.total == progress.total
            &&& !after.awaiting_baseline
            &&& progress.worth_an_event(size, now_ns) <==> progress.awaiting_baseline
                || after.bytes == progress.total || after.bytes - progress.last_emitted_bytes
                >= 4194304 || now_ns - progress.last_emitted_at_ns >= 200000000
            &&& progress.worth_an_event(size, now_ns) ==> after.last_emitted_bytes == after.bytes
                && after.last_emitted_at_ns == now_ns
            &&& !progress.worth_an_event(size, now_ns) ==> after.last_emitted_bytes
                == progress.last_emitted_bytes && after.last_emitted_at_ns
                == progress.last_emitted_at_ns
        }),
        ({
            let done = progress.finished(now_ns);
            &&& done.bytes == progress.total
            &&& done.total == progress.total
            &&& done.last_emitted_bytes == progress.total
        }),
        JsonProgress::started(size, now_ns).awaiting_baseline,
        JsonProgress::started(size, now_ns).bytes == 0,
        JsonProgress::started(size, now_ns).total == size,
{
}

/// Reports in pieces and in one count the same.
pub proof fn lemma_progress_adds_up(
    progress: JsonProgress,
    left: u64,
    right: u64,
    now_ns: u64,
    then_ns: u64,
)
    requires
        !progress.awaiting_baseline,
        progress.bytes <= progress.total,
        left + right <= u64::MAX,
    ensures
        progress.updated(left, now_ns).updated(right, then_ns).bytes == progress.updated(
            (left + right) as u64,
            then_ns,
        ).bytes,
{
}

/// A partial file is kept exactly where it is eight bytes longer than the file and its marker
/// counts no more than the file. A marker that counts one byte too many means the whole file, and
/// nothing else is kept.
pub proof fn lemma_partial_is_kept_where_it_can_be(
    storage_len: u64,
    committed: u64,
    expected_size: u64,
)
    ensures
        crate::hf_transfer::partial_repair(storage_len, committed, expected_size)
            == PartialRepair::Keep <==> storage_len == expected_size + 8 && committed
            <= expected_size,
        crate::hf_transfer::partial_repair(storage_len, committed, expected_size)
            == PartialRepair::Remove <==> storage_len != expected_size + 8 || committed
            > expected_size + 1,
        crate::hf_transfer::partial_repair(
            storage_len,
            committed,
            expected_size,
        ) matches PartialRepair::RewriteMarker { committed: whole } ==> whole == expected_size,
{
}

/// A marker of eight bytes counts its bytes with the lowest first.
pub proof fn lemma_marker_counts_lowest_first(bytes: Seq<u8>)
    requires
        bytes.len() == 8,
    ensures
        crate::hf_transfer::little_endian(bytes) == bytes[0] + 0x100 * bytes[1] + 0x1_0000
            * bytes[2] + 0x100_0000 * bytes[3] + 0x1_0000_0000 * bytes[4] + 0x100_0000_0000
            * bytes[5] + 0x1_0000_0000_0000 * bytes[6] + 0x100_0000_0000_0000 * bytes[7],
{
    reveal_with_fuel(crate::hf_transfer::little_endian, 9);
}

/// Two hyphens stand for each slash, and all other characters for themselves.
pub proof fn lemma_slashes_become_hyphens(a: Seq<char>, b: Seq<char>)
    ensures
        crate::hf_transfer::slashes_replaced(a + seq!['/'] + b)
            == crate::hf_transfer::slashes_replaced(a) + seq!['-', '-']
            + crate::hf_transfer::slashes_replaced(b),
        !a.contains('/') ==> crate::hf_transfer::slashes_replaced(a) == a,
{
    lemma_replaced_behind(a + seq!['/'], b);
    assert((a + seq!['/']).drop_last() =~= a);
    if !a.contains('/') {
        lemma_nothing_to_replace(a);
    }
}

proof fn lemma_replaced_behind(a: Seq<char>, b: Seq<char>)
    ensures
        crate::hf_transfer::slashes_replaced(a + b) == crate::hf_transfer::slashes_replaced(a)
            + crate::hf_transfer::slashes_replaced(b),
    decreases b.len(),
{
    if b.len() == 0 {
        assert(a + b =~= a);
        assert(crate::hf_transfer::slashes_replaced(a) + Seq::empty()
            =~= crate::hf_transfer::slashes_replaced(a));
    } else {
        lemma_replaced_behind(a, b.drop_last());
        assert((a + b).drop_last() =~= a + b.drop_last());
        assert((a + b).last() == b.last());
        assert(crate::hf_transfer::slashes_replaced(a + b)
            =~= crate::hf_transfer::slashes_replaced(a) + crate::hf_transfer::slashes_replaced(b));
    }
}

proof fn lemma_nothing_to_replace(a: Seq<char>)
    requires
        !a.contains('/'),
    ensures
        crate::hf_transfer::slashes_replaced(a) == a,
    decreases a.len(),
{
    if a.len() > 0 {
        assert(a.contains(a.last()));
        assert(!a.drop_last().contains('/')) by {
            if a.drop_last().contains('/') {
                let i = choose|i: int| 0 <= i < a.drop_last().len() && a.drop_last()[i] == '/';
                assert(a[i] == '/');
            }
        }
        lemma_nothing_to_replace(a.drop_last());
        assert(a.drop_last().push(a.last()) =~= a);
    }
}

/// An extension and the dot before it are no part of a file's stem. A name without a dot, or with
/// none but at its start, is a stem as it stands.
pub proof fn lemma_stem_has_no_extension(name: Seq<char>, extension: Seq<char>)
    requires
        !extension.contains('.'),
    ensures
        name.len() > 0 ==> crate::hf_transfer::stem(name + seq!['.'] + extension) == name,
        crate::hf_transfer::stem(extension) == extension,
        crate::hf_transfer::stem(seq!['.'] + extension) == seq!['.'] + extension,
{
    crate::text_laws::lemma_behind_the_last_separator(name, '.', extension);
    crate::text_laws::lemma_behind_the_last_separator(Seq::empty(), '.', extension);
    assert(Seq::<char>::empty() + seq!['.'] + extension =~= seq!['.'] + extension);
    assert((name + seq!['.'] + extension).take(name.len() as int) =~= name);
}

/// A digest is told in two hexadecimal digits for each byte, the higher half first.
pub proof fn lemma_digest_is_told_byte_by_byte(bytes: Seq<u8>, i: int)
    requires
        0 <= i < bytes.len(),
    ensures
        crate::sha256::hex(bytes).len() == 2 * bytes.len(),
        crate::sha256::hex(bytes)[2 * i] == "0123456789abcdef"@[bytes[i] as int / 16],
        crate::sha256::hex(bytes)[2 * i + 1] == "0123456789abcdef"@[bytes[i] as int % 16],
    decreases bytes.len(),
{
    reveal_strlit("0123456789abcdef");
    lemma_hex_len(bytes.drop_last());
    let front = bytes.drop_last();
    if i < front.len() {
        lemma_digest_is_told_byte_by_byte(front, i);
        assert(front[i] == bytes[i]);
    }
}

proof fn lemma_hex_len(bytes: Seq<u8>)
    ensures
        crate::sha256::hex(bytes).len() == 2 * bytes.len(),
    decreases bytes.len(),
{
    if bytes.len() > 0 {
        lemma_hex_len(bytes.drop_last());
    }
}

/// A header that spells a number tells that number, and a content range tells the number behind its
/// last slash, whichever request it answers. Neither tells one that it does not spell.
pub proof fn lemma_sizes_are_read_as_spelled(
    header: Option<Vec<u8>>,
    key: HeaderKey,
    front: Seq<char>,
    n: nat,
)
    requires
        n <= u64::MAX,
    ensures
        spells(header, crate::text::decimal(n)) ==> crate::hf_transfer::required_number(
            header,
            key,
        ) == Ok::<nat, TransferError>(n),
        spells(header, front + seq!['/'] + crate::text::decimal(n))
            ==> crate::hf_transfer::range_size(header, key) == Ok::<nat, TransferError>(n),
        spells(header, front) && !front.contains('/') ==> crate::hf_transfer::range_size(
            header,
            key,
        ) == Err::<nat, TransferError>(TransferError::ContentRangeShape),
        header is None ==> crate::hf_transfer::range_size(header, key) == Err::<
            nat,
            TransferError,
        >(TransferError::MissingHeader { key }),
{
    let digits = crate::text::decimal(n);
    lemma_required_header_is_its_text(header, key);
    crate::text_laws::lemma_number_reads_back(n, u64::MAX as nat);
    assert(!digits.contains('/')) by {
        if digits.contains('/') {
            let i = choose|i: int| 0 <= i < digits.len() && digits[i] == '/';
            assert('0' <= digits[i] <= '9');
        }
    }
    crate::text_laws::lemma_behind_the_last_separator(front, '/', digits);
    if !front.contains('/') {
        crate::text_laws::lemma_behind_the_last_separator(digits, '/', front);
    }
}

/// An error in words ends with what was expected, or with what it is about.
pub proof fn lemma_error_ends_with_what_was_expected(error: TransferError)
    ensures
        match error {
            TransferError::DestinationMismatch { destination } => crate::text::ends_with(
                error.text(),
                destination@,
            ),
            TransferError::HttpStatus { status } => crate::text::ends_with(error.text(), status@),
            TransferError::CommitMismatch { revision, .. } => crate::text::ends_with(
                error.text(),
                revision@,
            ),
            TransferError::RemoteSizeMismatch { expected, .. } => crate::text::ends_with(
                error.text(),
                crate::text::decimal(expected as nat),
            ),
            TransferError::DownloadSizeMismatch { expected, .. } => crate::text::ends_with(
                error.text(),
                crate::text::decimal(expected as nat),
            ),
            TransferError::DigestMismatch { expected, .. } => crate::text::ends_with(
                error.text(),
                expected@,
            ),
            _ => true,
        },
{
    let text = error.text();
    match error {
        TransferError::DestinationMismatch { destination } => {
            assert(text.skip(text.len() - destination@.len()) =~= destination@);
        },
        TransferError::HttpStatus { status } => {
            assert(text.skip(text.len() - status@.len()) =~= status@);
        },
        TransferError::CommitMismatch { revision, .. } => {
            assert(text.skip(text.len() - revision@.len()) =~= revision@);
        },
        TransferError::RemoteSizeMismatch { expected, .. } => {
            let digits = crate::text::decimal(expected as nat);
            assert(text.skip(text.len() - digits.len()) =~= digits);
        },
        TransferError::DownloadSizeMismatch { expected, .. } => {
            let digits = crate::text::decimal(expected as nat);
            assert(text.skip(text.len() - digits.len()) =~= digits);
        },
        TransferError::DigestMismatch { expected, .. } => {
            assert(text.skip(text.len() - expected@.len()) =~= expected@);
        },
        _ => {},
    }
}

/// Replies of success and redirections are read, and no others. Only a redirection is asked for its
/// location.
pub proof fn lemma_which_replies_are_read(reply: IdentityReply)
    ensures
        reply.succeeded() || reply.redirects() <==> 200 <= reply.status < 400,
        reply.succeeded() <==> 200 <= reply.status < 300,
        !(reply.succeeded() && reply.redirects()),
        reply.resolution() matches Ok(ResolutionView::AskRedirect { .. })
            ==> !reply.succeeded(),
{
}

/// The digest that a file is held to is the one that was asked for, in small letters.
pub proof fn lemma_digest_is_held_to_in_small_letters(transfer: Transfer, i: int)
    requires
        0 <= i < transfer.arguments().expected_sha256@.len(),
    ensures
        ({
            let asked = transfer.arguments().expected_sha256@;
            let held = transfer.expected_digest();
            &&& held.len() == asked.len()
            &&& !('A' <= held[i] <= 'Z')
            &&& 'A' <= asked[i] <= 'Z' ==> held[i] as nat == asked[i] as nat + 32
            &&& !('A' <= asked[i] <= 'Z') ==> held[i] == asked[i]
        }),
{
    crate::text_laws::lemma_small_letters(transfer.arguments().expected_sha256@, i);
}

} // verus!
