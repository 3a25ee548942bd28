//! The verified transfer of one file from the hub: arguments, headers, partial files, hashing.
use ironmlx::hf_transfer::{
    clean_etag, committed_prefix, has_marker, header_text, marker_bytes, marker_value,
    parse_content_range_size, prepare_transfer_cache, repair_invalid_partial, required_header,
    resolve_redirected_size, resolve_remote_identity, transfer_lock_name, usable_token,
    validate_args, validate_repository_path, HeaderKey, HfTransferArgs, IdentityReply,
    JsonProgress, PartialRepair, RemoteFileIdentity, RemoteResolution, Transfer, TransferError,
    TransferEvent, TransferIdentity, TransferPhase, PROGRESS_MAX_INTERVAL_NS, PROGRESS_MIN_BYTES,
    TRANSFER_IDENTITY_VERSION,
};
use ironmlx::sha256::{HashCursor, HashError, READ_BYTES};

fn args() -> HfTransferArgs {
    HfTransferArgs {
        repo_id: "org/model".to_string(),
        revision: "a".repeat(40),
        filename: "weights/model.safetensors".to_string(),
        destination: "/tmp/model.safetensors".to_string(),
        cache_dir: "/tmp/model.safetensors.hf-transfer".to_string(),
        expected_size: 16,
        expected_sha256: "b".repeat(64),
        endpoint: "https://huggingface.co".to_string(),
        parallelism: 4,
        chunk_size: 10_000_000,
    }
}

fn identity(etag: &str) -> TransferIdentity {
    TransferIdentity {
        version: TRANSFER_IDENTITY_VERSION,
        provider: "huggingface".to_string(),
        repo_id: "org/model".to_string(),
        commit_sha: "a".repeat(40),
        path: "model.safetensors".to_string(),
        expected_size: 5,
        expected_sha256: "b".repeat(64),
        etag: etag.to_string(),
    }
}

#[test]
fn validates_immutable_identity_and_scoped_cache() {
    let valid = args();
    validate_args(&valid).expect("valid arguments");

    let mut mutable = valid;
    mutable.revision = "main".to_string();
    assert!(validate_args(&mutable).is_err());
}

#[test]
fn changed_identity_discards_only_transfer_cache() {
    let first = identity("old");
    let second = identity("new");
    assert!(prepare_transfer_cache(true, &Some(identity("old")), &second));
    assert!(!first.same_as(&second));
    // The identity that is stored next makes the cache usable again.
    assert!(!prepare_transfer_cache(true, &Some(identity("new")), &second));
}

#[test]
fn hashes_only_committed_prefix_then_finishes_without_rehashing() {
    let payload = b"abcdefghijklmnop";
    let mut file: Vec<u8> = payload.to_vec();
    file.extend_from_slice(&8_u64.to_le_bytes());

    let marker = marker_value(&file[16..24].to_vec());
    let committed = committed_prefix(file.len() as u64, marker, payload.len() as u64)
        .expect("valid marker")
        .expect("a partial file with a marker");
    let mut cursor = HashCursor::new();
    loop {
        let n = cursor.next_read(committed);
        if n == 0 {
            break;
        }
        let from = cursor.bytes_hashed() as usize;
        cursor.absorb(&file[from..from + n]).expect("hash prefix");
    }
    assert_eq!(cursor.bytes_hashed(), 8);

    loop {
        let n = cursor.next_read(payload.len() as u64);
        if n == 0 {
            break;
        }
        let from = cursor.bytes_hashed() as usize;
        cursor.absorb(&file[from..from + n]).expect("hash rest");
    }
    let actual = cursor
        .finish_sha256(payload.len() as u64)
        .expect("finish SHA-256");
    assert_eq!(
        actual,
        "f39dac6cbaba535e2c207cd0cd8f154974223c848f727f98b3564cea569b41cf"
    );
}

#[test]
fn invalid_partial_marker_is_removed_before_hf_hub_resume() {
    assert_eq!(
        repair_invalid_partial(24, marker_value(&18_u64.to_le_bytes().to_vec()), 16),
        Ok(PartialRepair::Remove)
    );
}

#[test]
fn json_progress_uses_first_update_as_absolute_resume_baseline() {
    let mut progress = JsonProgress::new(0);

    progress.init(100, 0);
    assert!(progress.awaiting_baseline);
    assert_eq!(progress.bytes, 0);
    assert_eq!(progress.last_emitted_bytes, 0);

    let event = progress.update(20, 0);
    assert!(!progress.awaiting_baseline);
    assert_eq!(progress.bytes, 20);
    assert_eq!(progress.last_emitted_bytes, 20);
    assert_eq!(
        event,
        Some(TransferEvent::Progress {
            bytes: 20,
            total: 100
        })
    );

    assert_eq!(progress.update(7, 0), None);
    assert_eq!(progress.bytes, 27);
    assert_eq!(progress.last_emitted_bytes, 20);
}

#[test]
fn json_progress_reports_zero_when_hf_hub_discards_partial() {
    let mut progress = JsonProgress::new(0);

    progress.init(100, 0);
    let event = progress.update(0, 0);

    assert!(!progress.awaiting_baseline);
    assert_eq!(progress.bytes, 0);
    assert_eq!(progress.last_emitted_bytes, 0);
    assert_eq!(
        event,
        Some(TransferEvent::Progress {
            bytes: 0,
            total: 100
        })
    );
}

#[test]
fn progress_is_reported_by_size_by_time_and_at_the_end() {
    let total = 4 * PROGRESS_MIN_BYTES;
    let mut progress = JsonProgress::new(0);
    progress.init(total, 0);
    progress.update(0, 0);
    assert_eq!(progress.update(PROGRESS_MIN_BYTES - 1, 1), None);
    assert_eq!(
        progress.update(1, 2),
        Some(TransferEvent::Progress {
            bytes: PROGRESS_MIN_BYTES,
            total
        })
    );
    assert_eq!(progress.update(1, 1 + PROGRESS_MAX_INTERVAL_NS), None);
    assert_eq!(
        progress.update(1, 2 + PROGRESS_MAX_INTERVAL_NS),
        Some(TransferEvent::Progress {
            bytes: PROGRESS_MIN_BYTES + 2,
            total
        })
    );
    assert_eq!(
        progress.finish(9),
        Some(TransferEvent::Progress {
            bytes: total,
            total
        })
    );
    assert_eq!(progress.finish(10), None);
}

#[test]
fn each_argument_has_its_own_refusal() {
    let mut a = args();
    a.repo_id = "model".to_string();
    assert_eq!(validate_args(&a), Err(TransferError::RepoId));
    a.repo_id = "org//model".to_string();
    assert_eq!(validate_args(&a), Err(TransferError::RepoId));

    let mut a = args();
    a.revision = "g".repeat(40);
    assert_eq!(validate_args(&a), Err(TransferError::Revision));

    let mut a = args();
    a.expected_sha256 = "b".repeat(63);
    assert_eq!(validate_args(&a), Err(TransferError::ExpectedSha256));

    let mut a = args();
    a.parallelism = 0;
    assert_eq!(validate_args(&a), Err(TransferError::Parallelism));

    let mut a = args();
    a.chunk_size = 0;
    assert_eq!(validate_args(&a), Err(TransferError::ChunkSize));

    let mut a = args();
    a.filename = "/etc/passwd".to_string();
    assert_eq!(validate_args(&a), Err(TransferError::FilenameNotRelative));
    a.filename = "weights/../model".to_string();
    assert_eq!(validate_args(&a), Err(TransferError::FilenameUnsafe));

    let mut a = args();
    a.cache_dir = "/tmp/cache".to_string();
    assert_eq!(validate_args(&a), Err(TransferError::CacheDir));

    assert_eq!(
        TransferError::RepoId.message(),
        "repo-id must use organization/model form"
    );
}

#[test]
fn repository_paths_stay_inside_the_repository() {
    assert_eq!(validate_repository_path("a/b.bin"), Ok(()));
    assert_eq!(
        validate_repository_path(""),
        Err(TransferError::FilenameNotRelative)
    );
    assert_eq!(validate_repository_path("a//b"), Ok(()));
    assert_eq!(
        validate_repository_path("a/../b"),
        Err(TransferError::FilenameUnsafe)
    );
    assert_eq!(
        validate_repository_path("./b"),
        Err(TransferError::FilenameUnsafe)
    );
}

#[test]
fn sizes_come_from_content_ranges() {
    assert_eq!(parse_content_range_size("bytes 0-0/1234"), Ok(1234));
    assert_eq!(
        parse_content_range_size("bytes 0-0"),
        Err(TransferError::ContentRangeShape)
    );
    assert_eq!(
        parse_content_range_size("bytes 0-0/*"),
        Err(TransferError::NotANumber {
            key: HeaderKey::ContentRange
        })
    );
}

#[test]
fn entity_tags_are_bared_and_held_to_safe_names() {
    assert_eq!(clean_etag(" \"abc\" "), Ok("abc".to_string()));
    assert_eq!(clean_etag("\"\""), Err(TransferError::UnsafeEtag));
    assert_eq!(clean_etag("\"../x\""), Err(TransferError::UnsafeEtag));
}

#[test]
fn headers_are_visible_ascii() {
    assert_eq!(header_text(&b"a b".to_vec()), Some("a b".to_string()));
    assert_eq!(header_text(&vec![200]), None);
    assert_eq!(
        required_header(&None, HeaderKey::Etag),
        Err(TransferError::MissingHeader {
            key: HeaderKey::Etag
        })
    );
    assert_eq!(
        required_header(&Some(vec![1]), HeaderKey::Etag),
        Err(TransferError::NonTextHeader {
            key: HeaderKey::Etag
        })
    );
}

#[test]
fn markers_are_little_endian_words() {
    for value in [0u64, 1, 255, 256, 0x0102_0304_0506_0708, u64::MAX] {
        assert_eq!(marker_bytes(value), value.to_le_bytes().to_vec());
        assert_eq!(marker_value(&marker_bytes(value)), value);
        let marker = value.to_be_bytes().to_vec();
        assert_eq!(marker_bytes(marker_value(&marker)), marker);
    }
}

#[test]
fn partial_files_are_kept_cut_or_removed() {
    assert_eq!(has_marker(24, 16), Ok(true));
    assert_eq!(has_marker(16, 16), Ok(false));
    assert_eq!(
        has_marker(0, u64::MAX),
        Err(TransferError::PartialSizeOverflow)
    );
    assert_eq!(repair_invalid_partial(24, 8, 16), Ok(PartialRepair::Keep));
    assert_eq!(repair_invalid_partial(23, 8, 16), Ok(PartialRepair::Remove));
    assert_eq!(
        committed_prefix(0, 0, u64::MAX),
        Err(TransferError::MarkerOffsetOverflow)
    );
    assert_eq!(committed_prefix(24, 8, 16), Ok(Some(8)));
    assert_eq!(committed_prefix(16, 0, 16), Ok(None));
    assert_eq!(
        committed_prefix(24, 18, 16),
        Err(TransferError::InvalidMarker)
    );
    // A marker that counts itself is rewritten, and what was repaired needs no repair.
    assert_eq!(
        repair_invalid_partial(24, 17, 16),
        Ok(PartialRepair::RewriteMarker { committed: 16 })
    );
    assert_eq!(repair_invalid_partial(24, 16, 16), Ok(PartialRepair::Keep));
    assert_eq!(committed_prefix(24, 17, 16), Ok(Some(16)));
}

#[test]
fn partial_files_have_the_hub_layout() {
    let location = args().partial_location("abc");
    assert_eq!(location.repo_folder, "models--org--model");
    assert_eq!(location.file, "abc.sync.part");
    assert_eq!(args().partial_location("abc.def").file, "abc.sync.part");
    assert_eq!(
        transfer_lock_name("/tmp/model.safetensors.hf-transfer"),
        Ok("model.safetensors.hf-transfer.lock".to_string())
    );
    assert_eq!(
        transfer_lock_name("/tmp/.."),
        Err(TransferError::CacheDirName)
    );
}

#[test]
fn blank_tokens_are_no_tokens() {
    assert_eq!(usable_token(None), None);
    assert_eq!(usable_token(Some("  ".to_string())), None);
    assert_eq!(
        usable_token(Some("hf_x".to_string())),
        Some("hf_x".to_string())
    );
}

fn reply(status: u16) -> IdentityReply {
    IdentityReply {
        status,
        status_text: "503 Service Unavailable".to_string(),
        repo_commit: Some(b"A".repeat(40)),
        linked_etag: None,
        etag: Some(b"\"tag\"".to_vec()),
        linked_size: None,
        content_range: None,
        content_length: None,
        location: None,
    }
}

#[test]
fn remote_identity_takes_the_first_size_it_finds() {
    let mut r = reply(200);
    r.content_length = Some(b"7".to_vec());
    r.content_range = Some(b"bytes 0-0/16".to_vec());
    match resolve_remote_identity(&r) {
        Ok(RemoteResolution::Known(identity)) => {
            assert_eq!(identity.size, 16);
            assert_eq!(identity.etag, "tag");
            assert_eq!(identity.commit_sha, "A".repeat(40));
        }
        other => panic!("unexpected resolution {other:?}"),
    }
    r.linked_size = Some(b"20".to_vec());
    match resolve_remote_identity(&r) {
        Ok(RemoteResolution::Known(identity)) => assert_eq!(identity.size, 20),
        other => panic!("unexpected resolution {other:?}"),
    }
}

#[test]
fn remote_identity_follows_a_redirect_for_its_size() {
    let mut r = reply(302);
    r.location = Some(b"https://cdn.example/file".to_vec());
    match resolve_remote_identity(&r) {
        Ok(RemoteResolution::AskRedirect {
            location,
            commit_sha,
            etag,
        }) => {
            assert_eq!(location, "https://cdn.example/file");
            let identity =
                resolve_redirected_size(commit_sha, etag, &Some(b"bytes 0-0/99".to_vec()))
                    .expect("a size");
            assert_eq!(identity.size, 99);
        }
        other => panic!("unexpected resolution {other:?}"),
    }
    assert!(resolve_redirected_size("c".to_string(), "e".to_string(), &None).is_err());
}

#[test]
fn remote_identity_needs_a_good_status() {
    match resolve_remote_identity(&reply(503)) {
        Err(TransferError::HttpStatus { status }) => assert_eq!(status, "503 Service Unavailable"),
        other => panic!("unexpected resolution {other:?}"),
    }
    let mut r = reply(200);
    r.repo_commit = None;
    assert!(matches!(
        resolve_remote_identity(&r),
        Err(TransferError::MissingHeader {
            key: HeaderKey::RepoCommit
        })
    ));
}

#[test]
fn a_transfer_publishes_what_was_promised() {
    let mut a = args();
    a.expected_sha256 = "B".repeat(64);
    let mut transfer = Transfer::new(a);
    transfer.start(false);
    let identity = transfer
        .remote_resolved(RemoteFileIdentity {
            commit_sha: "A".repeat(40),
            etag: "tag".to_string(),
            size: 16,
        })
        .expect("the expected file");
    assert_eq!(identity.commit_sha, "a".repeat(40));
    assert_eq!(identity.expected_sha256, "b".repeat(64));
    transfer.downloaded(16).expect("the expected size");
    transfer
        .download_hashed("b".repeat(64))
        .expect("the expected digest");
    assert_eq!(
        transfer.published(),
        TransferEvent::Complete {
            path: "/tmp/model.safetensors".to_string(),
            size: 16,
            sha256: "b".repeat(64),
            etag: "tag".to_string(),
        }
    );
    assert_eq!(transfer.phase(), TransferPhase::Done);
}

#[test]
fn a_transfer_refuses_every_mismatch() {
    let remote = |commit: &str, size: u64| RemoteFileIdentity {
        commit_sha: commit.to_string(),
        etag: "tag".to_string(),
        size,
    };
    let mut t = Transfer::new(args());
    t.start(false);
    assert!(matches!(
        t.remote_resolved(remote("other", 16)),
        Err(TransferError::CommitMismatch { .. })
    ));
    assert_eq!(t.phase(), TransferPhase::Failed);

    let mut t = Transfer::new(args());
    t.start(false);
    assert!(matches!(
        t.remote_resolved(remote(&"a".repeat(40), 17)),
        Err(TransferError::RemoteSizeMismatch {
            returned: 17,
            expected: 16,
            ..
        })
    ));

    let mut t = Transfer::new(args());
    t.start(false);
    t.remote_resolved(remote(&"a".repeat(40), 16)).expect("ok");
    assert!(matches!(
        t.downloaded(15),
        Err(TransferError::DownloadSizeMismatch { actual: 15, .. })
    ));

    let mut t = Transfer::new(args());
    t.start(false);
    t.remote_resolved(remote(&"a".repeat(40), 16)).expect("ok");
    t.downloaded(16).expect("ok");
    assert!(matches!(
        t.download_hashed("c".repeat(64)),
        Err(TransferError::DigestMismatch { .. })
    ));
    assert_eq!(t.phase(), TransferPhase::FailedDiscardingCache);
}

#[test]
fn an_existing_destination_is_verified_and_never_replaced() {
    let mut t = Transfer::new(args());
    t.start(true);
    assert_eq!(t.phase(), TransferPhase::Destination);
    assert!(t.destination_hashed(16, "b".repeat(64)).is_ok());
    assert_eq!(t.phase(), TransferPhase::Done);

    let mut t = Transfer::new(args());
    t.start(true);
    assert!(matches!(
        t.destination_hashed(16, "c".repeat(64)),
        Err(TransferError::DestinationMismatch { .. })
    ));
    assert_eq!(t.args().repo_id, "org/model");
}

#[test]
fn digests_of_known_messages() {
    assert_eq!(
        HashCursor::new().finish_sha256(0).expect("empty"),
        "e3b0c44298fc1c149afbf4c8996fb92427ae41e4649b934ca495991b7852b855"
    );
    let mut cursor = HashCursor::new();
    cursor.absorb(b"a").expect("bytes");
    cursor.absorb(b"bc").expect("bytes");
    assert_eq!(
        cursor.finish_sha256(3).expect("abc"),
        "ba7816bf8f01cfea414140de5dae2223b00361a396177a9cb410ff61f20015ad"
    );
}

#[test]
fn hashing_needs_the_whole_file() {
    let mut cursor = HashCursor::new();
    cursor.absorb(b"abc").expect("bytes");
    assert_eq!(cursor.absorb(b""), Err(HashError::UnexpectedEof { at: 3 }));
    assert_eq!(cursor.next_read(3), 0);
    assert_eq!(cursor.next_read(5), 2);
    assert_eq!(cursor.next_read(u64::MAX), READ_BYTES as usize);
    assert_eq!(cursor.finish_sha256(4), Err(HashError::Incomplete));
}
