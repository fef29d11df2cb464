use argon2::password_hash::{rand_core::OsRng, PasswordHasher, SaltString};
use archive_site::api::archive::{Entry, EntryHashes};
use archive_site::api::article::rubrics_of_article_uri;
use archive_site::api::rubrics::{rubric_uri, FileForm, NEW_RUBRIC_TITLE};
use archive_site::api::upload::{
    file_picker_redirect, path_to, relative_path_to, stored_file_path, upload_path, upload_target,
    FilesHolder, Hashes,
};
use archive_site::auth::{
    login_redirect, new_session, session_for, AdminMaybe, AdminOnly, GuardOutcome, Login, SessionCheck,
};
use archive_site::errors::{found, Errors};
use archive_site::hexcodec::{decode_hashes, HexError};
use archive_site::models::article::{
    Article, ArticleForm, Block, BlockVariant, CleanString, EditorJS, Paragraph,
};
use archive_site::models::file::{
    upload_limit, AllowedContentType, FileRecord, HashedFile, HashedFileBuf, PersistError,
    UploadRejection, DEFAULT_FILE_LIMIT,
};
use archive_site::models::rubrics::Rubric;
use archive_site::text::{i32_to_decimal, nat_to_decimal, same_ignoring_ascii_case};

fn hex_of(bytes: &[u8]) -> String {
    FileRecord::from(bytes, String::new(), String::new()).hash
}

fn hex_decode(text: &str) -> Result<Vec<u8>, HexError> {
    match AdminMaybe::session_id(text) {
        Ok(v) => Ok(v),
        Err(Errors::Hex(h)) => Err(h),
        Err(other) => panic!("unexpected {:?}", other),
    }
}

fn ct(top: &str, sub: &str) -> AllowedContentType {
    AllowedContentType::new(top.to_string(), sub.to_string())
}

fn strings(v: &[&str]) -> Vec<String> {
    v.iter().map(|s| s.to_string()).collect()
}

#[test]
fn hex_encode_is_lower_case_two_digits_per_byte() {
    assert_eq!(hex_of(&[0xde, 0xad, 0x01, 0x0f]), "dead010f");
    assert_eq!(hex_of(&[]), "");
}

#[test]
fn hex_decode_accepts_both_cases() {
    assert_eq!(hex_decode("DEad01"), Ok(vec![0xde, 0xad, 0x01]));
    assert_eq!(hex_decode(""), Ok(vec![]));
}

#[test]
fn hex_decode_refuses_odd_length_first() {
    assert_eq!(hex_decode("abc"), Err(HexError::OddLength));
    assert_eq!(hex_decode("zzz"), Err(HexError::OddLength));
}

#[test]
fn hex_decode_reports_first_bad_byte() {
    assert_eq!(
        hex_decode("0g1z"),
        Err(HexError::InvalidHexCharacter { c: 'g', index: 1 })
    );
    // "é" is two bytes in UTF-8: C3 A9; the first is reported as a character.
    assert_eq!(
        hex_decode("éaa"),
        Err(HexError::InvalidHexCharacter { c: '\u{c3}', index: 0 })
    );
    assert_eq!(hex_decode("é0"), Err(HexError::OddLength));
}

#[test]
fn hex_roundtrip_on_concrete_bytes() {
    let bytes = vec![0u8, 1, 127, 128, 255];
    assert_eq!(hex_decode(&hex_of(&bytes)), Ok(bytes));
}

#[test]
fn decode_hashes_stops_at_first_bad_text() {
    assert_eq!(
        decode_hashes(&strings(&["00ff", "10"])).unwrap(),
        vec![vec![0x00, 0xff], vec![0x10]]
    );
    match decode_hashes(&strings(&["00", "x1", "1"])) {
        Err(Errors::Hex(HexError::InvalidHexCharacter { c: 'x', index: 0 })) => {}
        other => panic!("unexpected {:?}", other),
    }
    assert!(decode_hashes(&vec![]).unwrap().is_empty());
}

#[test]
fn entry_hashes_and_hashes_decode() {
    let form = EntryHashes { entry: 3, hashes: strings(&["abcd"]) };
    assert_eq!(form.decoded_hashes().unwrap(), vec![vec![0xab, 0xcd]]);
    let del = Hashes { entry: None, hashes: strings(&["abc"]), ext: vec![] };
    match del.decoded_hashes() {
        Err(Errors::Hex(HexError::OddLength)) => {}
        other => panic!("unexpected {:?}", other),
    }
}

#[test]
fn error_statuses() {
    assert_eq!(Errors::Db("x".into()).status(), 500);
    assert_eq!(Errors::Io("x".into()).status(), 500);
    assert_eq!(Errors::Serialization("x".into()).status(), 500);
    assert_eq!(Errors::Hex(HexError::OddLength).status(), 400);
    assert_eq!(Errors::NotFound.status(), 404);
    assert_eq!(Errors::Validation("x".into()).status(), 422);
    assert_eq!(Errors::Authorization.status(), 401);
    assert_eq!(Errors::Custom("x".into(), 418).status(), 418);
    let from: Errors = HexError::OddLength.into();
    assert!(matches!(from, Errors::Hex(HexError::OddLength)));
}

#[test]
fn missing_row_is_not_found() {
    assert!(matches!(found::<i32>(None), Err(Errors::NotFound)));
    assert_eq!(found(Some(5)).unwrap(), 5);
}

#[test]
fn file_record_shows_hash_in_hex() {
    let r = FileRecord::from(&[0x01, 0xab], "report".into(), "pdf".into());
    assert_eq!(r.hash, "01ab");
    assert_eq!(r.name, "report");
    assert_eq!(r.ext, "pdf");
}

#[test]
fn accepted_media_types() {
    assert_eq!(ct("image", "png").extension().as_deref(), Some("png"));
    assert_eq!(ct("IMAGE", "Png").extension().as_deref(), Some("png"));
    assert_eq!(ct("image", "jpeg").extension().as_deref(), Some("jpeg"));
    assert_eq!(ct("application", "pdf").extension().as_deref(), Some("pdf"));
    assert_eq!(ct("image", "webp").extension().as_deref(), Some("webp"));
    assert_eq!(
        ct("application", "x-fictionbook+xml").extension().as_deref(),
        Some("fb2")
    );
    assert_eq!(ct("application", "msword").extension().as_deref(), Some("doc"));
    assert_eq!(
        ct(
            "application",
            "vnd.openxmlformats-officedocument.wordprocessingml.document"
        )
        .extension()
        .as_deref(),
        Some("docx")
    );
    assert_eq!(ct("image", "vnd.djvu").extension().as_deref(), Some("djvu"));
}

#[test]
fn refused_media_types() {
    assert_eq!(ct("application", "epub+zip").extension(), None);
    assert_eq!(ct("text", "plain").extension(), None);
    assert_eq!(ct("image", "pngx").extension(), None);
    assert_eq!(ct("png", "image").extension(), None);
    match ct("text", "html").extension_err() {
        Err(Errors::Validation(msg)) => assert_eq!(msg, "Invalid file type"),
        other => panic!("unexpected {:?}", other),
    }
    assert_eq!(ct("image", "webp").extension_err().unwrap(), "webp");
}

#[test]
fn case_insensitive_comparison() {
    assert!(same_ignoring_ascii_case("AbC", "aBc"));
    assert!(!same_ignoring_ascii_case("abc", "abd"));
    assert!(!same_ignoring_ascii_case("abc", "ab"));
    assert!(same_ignoring_ascii_case("Ä", "Ä"));
    assert!(!same_ignoring_ascii_case("Ä", "ä"));
}

#[test]
fn upload_limit_is_24_mebibytes() {
    assert_eq!(upload_limit(), 24 * 1024 * 1024);
    assert_eq!(DEFAULT_FILE_LIMIT, 24 * 1024 * 1024);
}

#[test]
fn upload_refusals() {
    assert_eq!(
        HashedFileBuf::from_received(ct("text", "plain"), None, vec![1], true, 5).unwrap_err(),
        UploadRejection::InvalidFileType
    );
    assert_eq!(
        HashedFileBuf::from_received(ct("image", "png"), None, vec![1], false, 5).unwrap_err(),
        UploadRejection::TooLarge { limit: 5 }
    );
    assert_eq!(
        HashedFileBuf::from_received(ct("image", "png"), None, vec![], true, 5).unwrap_err(),
        UploadRejection::Empty
    );
}

#[test]
fn upload_named_by_client_or_by_hash() {
    let f = HashedFileBuf::from_received(
        ct("application", "pdf"),
        Some("scan.pdf".into()),
        b"hello".to_vec(),
        true,
        100,
    )
    .unwrap();
    assert_eq!(f.name, "scan.pdf");
    assert_eq!(hex_of(&f.hash), "5d41402abc4b2a76b9719d911017c592");
    assert_eq!(f.data, b"hello".to_vec());
    let g =
        HashedFileBuf::from_received(ct("application", "pdf"), None, b"hello".to_vec(), true, 100)
            .unwrap();
    assert_eq!(g.name, "5d41402abc4b2a76b9719d911017c592");
}

#[test]
fn persisting_frees_data_once() {
    let mut f =
        HashedFileBuf::from_received(ct("image", "png"), None, vec![7, 8, 9], true, 100).unwrap();
    assert_eq!(f.persist_source().unwrap(), &[7, 8, 9]);
    let hash = f.hash;
    f.mark_persisted();
    assert_eq!(f.persist_source(), Err(PersistError::EmptyFile));
    assert_eq!(f.hash, hash);
    let done: HashedFile = f.into();
    assert_eq!(done.hash, hash);
    assert_eq!(done.content_type.sub, "png");
}

#[test]
fn clean_string_replaces_nbsp() {
    assert_eq!(CleanString::new("a&nbsp;b".into()).as_str(), "a b");
    assert_eq!(CleanString::new("&nbsp;&nbsp;".into()).as_str(), "  ");
    assert_eq!(CleanString::new("&&nbsp;nbsp;".into()).as_str(), "& nbsp;");
    assert_eq!(CleanString::new("&nbsp".into()).as_str(), "&nbsp");
    assert_eq!(CleanString::new("é&nbsp;ü".into()).as_str(), "é ü");
    assert_eq!(CleanString::new("".into()).as_str(), "");
    assert_eq!(CleanString::empty().as_str(), "");
}

#[test]
fn clean_string_is_idempotent() {
    let once = CleanString::new("x&&nbsp;nbsp;&nbsp;y".into());
    let twice = CleanString::new(once.as_str().to_string());
    assert_eq!(once.as_str(), twice.as_str());
    assert!(!once.as_str().contains("&nbsp;"));
}

#[test]
fn empty_block_is_an_empty_paragraph() {
    let b = Block::empty();
    assert_eq!(b.id, "1234");
    match b.variant {
        BlockVariant::Paragraph(Paragraph { text }) => assert_eq!(text.as_str(), ""),
        _ => panic!("not a paragraph"),
    }
}

#[test]
fn contents_get_a_block_once() {
    let mut c = EditorJS { version: "2.28".into(), time: 17, blocks: vec![] };
    c.ensure_block();
    assert_eq!(c.blocks.len(), 1);
    assert_eq!(c.blocks[0].id, "1234");
    c.ensure_block();
    assert_eq!(c.blocks.len(), 1);
    assert_eq!(c.version, "2.28");
    assert_eq!(c.time, 17);
    let mut article = Article {
        id: 1,
        title: "t".into(),
        author: "a".into(),
        cover: None,
        contents: EditorJS { version: "v".into(), time: 0, blocks: vec![] },
    };
    article.contents.ensure_block();
    assert_eq!(article.contents.blocks.len(), 1);
}

#[test]
fn article_entries() {
    let d = ArticleForm::default();
    assert_eq!((d.id, d.title.as_str(), d.published), (0, "", false));
    let p = ArticleForm::published_entry(4, "T".into(), "A".into(), Some("c".into()));
    assert!(p.published);
    assert!(p.rubrics.is_empty());
    let l = ArticleForm::listed(4, "T".into(), "A".into(), None, false);
    assert!(!l.published);
    let draft = ArticleForm::draft(9);
    assert_eq!(draft.title, "Черновик");
    assert_eq!(draft.id, 9);
    assert!(!draft.published);
    let e = ArticleForm::for_editing(2, "x".into(), "y".into());
    assert_eq!((e.id, e.title.as_str(), e.author.as_str()), (2, "x", "y"));
}

#[test]
fn rubric_from_row() {
    let r = Rubric::from_row(1, "History".into(), None);
    assert_eq!((r.id, r.title.as_str(), r.cover.clone()), (1, "History", None));
    assert_eq!(NEW_RUBRIC_TITLE, "NEED RUBRIC TITLE");
}

#[test]
fn decimal_numerals() {
    assert_eq!(i32_to_decimal(0), "0");
    assert_eq!(i32_to_decimal(42), "42");
    assert_eq!(i32_to_decimal(-7), "-7");
    assert_eq!(i32_to_decimal(i32::MIN), "-2147483648");
    assert_eq!(i32_to_decimal(i32::MAX), "2147483647");
    assert_eq!(nat_to_decimal(u64::MAX), u64::MAX.to_string());
}

#[test]
fn upload_paths() {
    assert_eq!(path_to("abc", &"png".to_string()), "/static/uploads/abc.png");
    assert_eq!(path_to("/etc/x", &"png".to_string()), "/etc/x.png");
    assert_eq!(
        relative_path_to("/srv/site//static/uploads/", "ab", &"pdf".to_string()),
        "/srv/site//static/uploads/ab.pdf"
    );
    assert_eq!(upload_path("base", "h", "e"), "base/h.e");
    assert_eq!(upload_path("", "h", "e"), "h.e");
    assert_eq!(
        stored_file_path("/up/", &[0xff, 0x01], &"doc".to_string()),
        "/up/ff01.doc"
    );
}

#[test]
fn file_picker_redirects() {
    assert_eq!(
        file_picker_redirect(Some(5), &strings(&["pdf", "png"])),
        "/upload/file-picker?id=5&ext[]=pdf&ext[]=png"
    );
    assert_eq!(file_picker_redirect(None, &vec![]), "/upload/file-picker?");
    assert_eq!(
        file_picker_redirect(Some(-12), &vec![]),
        "/upload/file-picker?id=-12"
    );
    let holder = FilesHolder { entry: None, ext: strings(&["djvu"]), files: vec![] };
    assert_eq!(holder.redirect_target(), "/upload/file-picker?&ext[]=djvu");
    let del = Hashes { entry: Some(1), hashes: vec![], ext: vec![] };
    assert_eq!(del.redirect_target(), "/upload/file-picker?id=1");
}

#[test]
fn upload_target_and_cover_location() {
    let f =
        HashedFileBuf::from_received(ct("image", "png"), None, b"hello".to_vec(), true, 100).unwrap();
    let t = upload_target(&f, "/root/uploads").unwrap();
    assert_eq!(t.hex, "5d41402abc4b2a76b9719d911017c592");
    assert_eq!(t.ext, "png");
    assert_eq!(t.location, "/root/uploads/5d41402abc4b2a76b9719d911017c592.png");
    let form = FileForm { file: f };
    assert_eq!(
        form.cover_location().unwrap(),
        "/static/uploads/5d41402abc4b2a76b9719d911017c592.png"
    );
    let bad = HashedFileBuf {
        data: vec![],
        content_type: ct("text", "plain"),
        hash: [0; 16],
        name: "n".into(),
    };
    match upload_target(&bad, "/x") {
        Err(Errors::Validation(m)) => assert_eq!(m, "Invalid file type"),
        other => panic!("unexpected {:?}", other),
    }
    match (FileForm { file: bad }).cover_location() {
        Err(Errors::Validation(m)) => assert_eq!(m, "Invalid file type"),
        other => panic!("unexpected {:?}", other),
    }
}

#[test]
fn redirect_uris() {
    assert_eq!(rubric_uri(7), "/rubrics/get?id=7");
    assert_eq!(rubrics_of_article_uri(-3), "/articles/rubrics-of-article/-3");
}

#[test]
fn archive_entries() {
    let e = Entry::created(5, "T".into(), "A".into());
    assert_eq!(e.description, "");
    assert!(e.cover.is_none() && e.files.is_empty());
    let l = Entry::listed(5, "T".into(), "A".into(), Some("c".into()), "d".into());
    assert_eq!(l.description, "d");
}

#[test]
fn admin_guard_decisions() {
    assert!(matches!(
        AdminMaybe::decide(SessionCheck::NoCookie),
        GuardOutcome::Success(AdminMaybe(false))
    ));
    match AdminMaybe::decide(SessionCheck::NoDatabase) {
        GuardOutcome::Error(500, Errors::Custom(msg, 500)) => {
            assert_eq!(msg, "Failed to connect to database!")
        }
        other => panic!("unexpected {:?}", other),
    }
    assert!(matches!(
        AdminMaybe::decide(SessionCheck::Checked(Ok(true))),
        GuardOutcome::Success(AdminMaybe(true))
    ));
    assert!(matches!(
        AdminMaybe::decide(SessionCheck::Checked(Err(Errors::NotFound))),
        GuardOutcome::Error(500, Errors::NotFound)
    ));
}

#[test]
fn admin_only_guard() {
    assert!(matches!(
        AdminOnly::decide(GuardOutcome::Success(AdminMaybe(true))),
        GuardOutcome::Success(AdminOnly)
    ));
    assert!(matches!(
        AdminOnly::decide(GuardOutcome::Success(AdminMaybe(false))),
        GuardOutcome::Error(401, Errors::Authorization)
    ));
    assert!(matches!(
        AdminOnly::decide(GuardOutcome::Error(500, Errors::NotFound)),
        GuardOutcome::Error(500, Errors::NotFound)
    ));
    assert!(matches!(
        AdminOnly::decide(GuardOutcome::Forward),
        GuardOutcome::Forward
    ));
    assert!(matches!(
        AdminOnly::decide(AdminMaybe::decide(SessionCheck::NoCookie)),
        GuardOutcome::Error(401, Errors::Authorization)
    ));
}

#[test]
fn login_page_redirects_the_administrator() {
    assert_eq!(login_redirect(&AdminMaybe(true)).as_deref(), Some("/dashboard"));
    assert_eq!(login_redirect(&AdminMaybe(false)), None);
}

#[test]
fn session_for_given_id() {
    let id = [0xab; 16];
    let s = session_for(id);
    assert_eq!(s.id, id);
    assert_eq!(s.cookie, "abababababababababababababababab");
}

#[test]
fn session_cookie_roundtrip() {
    let s = new_session().expect("the system random source failed");
    assert_eq!(s.cookie.len(), 32);
    assert_eq!(s.cookie, hex_of(&s.id));
    assert_eq!(AdminMaybe::session_id(&s.cookie).unwrap(), s.id.to_vec());
    assert!(matches!(
        AdminMaybe::session_id("zz"),
        Err(Errors::Hex(HexError::InvalidHexCharacter { c: 'z', index: 0 }))
    ));
}

fn phc_of(password: &str) -> String {
    let salt = SaltString::generate(&mut OsRng);
    argon2::Argon2::default()
        .hash_password(password.as_bytes(), &salt)
        .unwrap()
        .to_string()
}

#[test]
fn login_checks_password() {
    let stored = phc_of("correct horse");
    let good = Login { username: "admin".into(), password: "correct horse".into() };
    let bad = Login { username: "admin".into(), password: "battery".into() };
    assert_eq!(good.authenticate(Some((3, stored.clone()))).unwrap(), 3);
    assert!(matches!(
        bad.authenticate(Some((3, stored.clone()))),
        Err(Errors::Authorization)
    ));
    assert!(matches!(good.authenticate(None), Err(Errors::Authorization)));
    assert_eq!(good.try_authenticate(Some((3, stored))).unwrap().unwrap(), 3);
    assert!(good.try_authenticate(Some((3, "not a hash".into()))).is_none());
    assert!(matches!(
        good.try_authenticate(None),
        Some(Err(Errors::Authorization))
    ));
}
