use converty::db::api_keys::{api_key_from_bytes, generate_api_key, hash_api_key, ApiKeyRole};
use converty::error::AppError;
use converty::handlers::image::{convert_image, get_image_format, ImageFormat};
use converty::utils::encoding::{image_encoding, ImageEncoding};
use converty::handlers::pdf::{
    convert_pdf_all_pages, convert_pdf_to_image, convert_pdf_to_zip, get_pdf_page_count,
    run_pdftoppm,
};
use converty::middleware::auth::{api_key_auth, provided_key, require_admin, require_auth, KeyLookup};
use converty::models::auth::AuthInfo;
use converty::services::google_auth::{GoogleAuthError, GoogleClaims, VerifiedGoogleUser};
use converty::services::google_drive::{
    folder_search_url, get_mime_type, thumbnail_url, upload_body, upload_content_type, upload_name,
    upload_url, DriveError,
};
use converty::services::stats::mask_api_key;

fn strings(items: &[&str]) -> Vec<String> {
    items.iter().map(|s| s.to_string()).collect()
}

#[test]
fn test_api_key_generation() {
    assert_eq!(
        hash_api_key("abc"),
        "ba7816bf8f01cfea414140de5dae2223b00361a396177a9cb410ff61f20015ad"
    );
    assert_eq!(
        hash_api_key(""),
        "e3b0c44298fc1c149afbf4c8996fb92427ae41e4649b934ca495991b7852b855"
    );
    let (key, prefix, hash) = api_key_from_bytes(&[0u8; 32]);
    assert_eq!(key, "cv_AAAAAAAAAAAAAAAAAAAAAAAAAAAAAAAAAAAAAAAAAAA");
    assert_eq!(prefix, "cv_AAAAAAAAA");
    assert_eq!(hash, hash_api_key(&key));
    let (key, prefix, _) = api_key_from_bytes(&[0xffu8; 32]);
    assert_eq!(key, "cv___________________________________________8");
    assert_eq!(prefix.len(), 12);
    let mut bytes = [0u8; 32];
    bytes[0] = 0xfb;
    bytes[1] = 0xef;
    bytes[2] = 0xbe;
    let (key, _, _) = api_key_from_bytes(&bytes);
    assert!(key.starts_with("cv_----AAAA"));

    let (key, prefix, hash) = generate_api_key();
    assert_eq!(key.len(), 46);
    assert!(key.starts_with("cv_"));
    assert_eq!(prefix, &key[..12]);
    assert_eq!(hash, hash_api_key(&key));
    assert_eq!(hash.len(), 64);
    assert_ne!(generate_api_key().0, key);
}

#[test]
fn test_mask_api_key() {
    assert_eq!(mask_api_key(""), "****");
    assert_eq!(mask_api_key("12345678"), "****");
    assert_eq!(mask_api_key("123456789"), "1234...6789");
    assert_eq!(mask_api_key("cv_abcdefghijklmnop"), "cv_a...mnop");
    assert_eq!(mask_api_key("èè12345èè"), "èè...èè");
}

#[test]
fn test_image_formats() {
    assert_eq!(get_image_format("PNG").unwrap(), ImageFormat::Png);
    assert_eq!(get_image_format("jpg").unwrap(), ImageFormat::Jpeg);
    assert_eq!(get_image_format("jpeg").unwrap(), ImageFormat::Jpeg);
    assert_eq!(get_image_format("gif").unwrap(), ImageFormat::Gif);
    assert_eq!(get_image_format("bmp").unwrap(), ImageFormat::Bmp);
    assert_eq!(get_image_format("webp").unwrap(), ImageFormat::WebP);
    assert_eq!(get_image_format("tiff").unwrap(), ImageFormat::Tiff);
    assert_eq!(get_image_format("ico").unwrap(), ImageFormat::Ico);
    match get_image_format("Avif") {
        Err(AppError::UnsupportedFormat(text)) => assert_eq!(text, "Formato non supportato: Avif"),
        other => panic!("unexpected: {:?}", other),
    }
    assert_eq!(image_encoding("jpg", None).unwrap(), ImageEncoding::Jpeg(85));
    assert_eq!(image_encoding("JPEG", Some(80)).unwrap(), ImageEncoding::Jpeg(80));
    assert_eq!(image_encoding("png", Some(80)).unwrap(), ImageEncoding::Png);
    assert_eq!(image_encoding("webp", None).unwrap(), ImageEncoding::WebP);
    assert_eq!(image_encoding("gif", None).unwrap(), ImageEncoding::Gif);
    assert_eq!(image_encoding("bmp", None).unwrap(), ImageEncoding::Bmp);
    assert_eq!(image_encoding("avif", None).unwrap(), ImageEncoding::Avif);
    assert_eq!(image_encoding("qoi", None).unwrap(), ImageEncoding::Qoi);
    assert_eq!(image_encoding("tiff", None).unwrap(), ImageEncoding::Tiff);
    assert_eq!(image_encoding("tif", None).unwrap(), ImageEncoding::Tiff);
    match image_encoding("xyz", None) {
        Err(AppError::UnsupportedFormat(text)) => {
            assert_eq!(text, "Formato output non supportato: xyz")
        }
        other => panic!("unexpected: {:?}", other),
    }
    assert!(convert_image("png", "jpg").is_ok());
    assert!(convert_image("EXR", "QOI").is_ok());
    match convert_image("svg", "xyz") {
        Err(AppError::UnsupportedFormat(text)) => {
            assert_eq!(text, "Formato input non supportato: svg")
        }
        other => panic!("unexpected: {:?}", other),
    }
    match convert_image("png", "ico") {
        Err(AppError::UnsupportedFormat(text)) => {
            assert_eq!(text, "Formato output non supportato: ico")
        }
        other => panic!("unexpected: {:?}", other),
    }
}

#[test]
fn test_pdf_conversion_settings() {
    assert_eq!(convert_pdf_to_image("png", None, None, true).unwrap(), (1, 150));
    assert_eq!(convert_pdf_to_image("JPG", Some(4), Some(300), true).unwrap(), (4, 300));
    match convert_pdf_to_image("png", None, None, false) {
        Err(AppError::PopplerError(text)) => {
            assert_eq!(text, "pdftoppm (poppler-utils) non e' installato nel sistema")
        }
        other => panic!("unexpected: {:?}", other),
    }
    match convert_pdf_to_image("webp", None, None, true) {
        Err(AppError::UnsupportedFormat(text)) => assert_eq!(
            text,
            "Formato output non supportato per PDF: webp. Formati supportati: png, jpg, tiff"
        ),
        other => panic!("unexpected: {:?}", other),
    }
}

#[test]
fn test_pdftoppm_run() {
    let run = run_pdftoppm("/in/a.pdf", "/tmp/x/output", "png", 3, 150).unwrap();
    assert_eq!(
        run.args,
        strings(&[
            "-f", "3", "-l", "3", "-r", "150", "-singlefile", "-png", "/in/a.pdf", "/tmp/x/output"
        ])
    );
    assert_eq!(run.output_path, "/tmp/x/output.png");
    let run = run_pdftoppm("/in/a.pdf", "/tmp/x/output", "JPEG", 1, 72).unwrap();
    assert_eq!(run.args[7], "-jpeg");
    assert_eq!(run.args[5], "72");
    assert_eq!(run.output_path, "/tmp/x/output.jpg");
    let run = run_pdftoppm("/in/a.pdf", "/tmp/x/output", "jpg", 1, 72).unwrap();
    assert_eq!(run.output_path, "/tmp/x/output.jpg");
    let run = run_pdftoppm("/in/a.pdf", "/tmp/x/output", "tiff", 1, 72).unwrap();
    assert_eq!(run.args[7], "-tiff");
    assert_eq!(run.output_path, "/tmp/x/output.tif");
    let run = run_pdftoppm("/in/a.pdf", "/tmp/x/output", "PNG", 1, 72).unwrap();
    assert_eq!(run.output_path, "/tmp/x/output.PNG");
    match run_pdftoppm("/in/a.pdf", "/tmp/x/output", "gif", 1, 72) {
        Err(AppError::UnsupportedFormat(text)) => assert_eq!(text, "Formato non supportato: gif"),
        other => panic!("unexpected: {:?}", other),
    }
}

#[test]
fn test_pdf_page_count() {
    let report = "Title:          Report\nProducer:       x\nPages:          12\nEncrypted:      no\n";
    assert_eq!(get_pdf_page_count(report), 12);
    assert_eq!(get_pdf_page_count("Pages: 3"), 3);
    assert_eq!(get_pdf_page_count("Pages:\t+7\r\nPages: 9\n"), 7);
    assert_eq!(get_pdf_page_count("Pages: many\nPages: 2\n"), 2);
    assert_eq!(get_pdf_page_count("Pages:5\nPages: 6 7\n"), 6);
    assert_eq!(get_pdf_page_count("Pages:5 8\n"), 8);
    assert_eq!(get_pdf_page_count(" Pages: 5\n"), 1);
    assert_eq!(get_pdf_page_count("pages: 5\n"), 1);
    assert_eq!(get_pdf_page_count(""), 1);
    assert_eq!(get_pdf_page_count("Pages: 0"), 0);
    assert_eq!(get_pdf_page_count("Pages: 007"), 7);
    assert_eq!(get_pdf_page_count("Pages: 4294967295"), 4294967295);
    assert_eq!(get_pdf_page_count("Pages: 4294967296\nPages: 1234"), 1234);
    assert_eq!(get_pdf_page_count("Pages: 99999999999999999999999"), 1);
    assert_eq!(get_pdf_page_count("Pages: -1"), 1);
    assert_eq!(get_pdf_page_count("Pages: +"), 1);
    assert_eq!(get_pdf_page_count("Pages: 1.5"), 1);
    assert_eq!(get_pdf_page_count("Pages: ٣"), 1);
}

#[test]
fn test_pdf_page_and_entry_names() {
    assert_eq!(convert_pdf_all_pages(0, "png"), Vec::<String>::new());
    assert_eq!(
        convert_pdf_all_pages(3, "png"),
        strings(&["page_001.png", "page_002.png", "page_003.png"])
    );
    let names = convert_pdf_all_pages(1000, "jpg");
    assert_eq!(names.len(), 1000);
    assert_eq!(names[8], "page_009.jpg");
    assert_eq!(names[9], "page_010.jpg");
    assert_eq!(names[98], "page_099.jpg");
    assert_eq!(names[99], "page_100.jpg");
    assert_eq!(names[999], "page_1000.jpg");
    assert_eq!(
        convert_pdf_to_zip("report", 2, "tiff"),
        strings(&["report/page_001.tiff", "report/page_002.tiff"])
    );
    assert_eq!(convert_pdf_to_zip("pages", 0, "png"), Vec::<String>::new());
}

#[test]
fn test_provided_key() {
    assert_eq!(provided_key(Some("h"), Some("api_key=q"), Some("Bearer b")), Some("h".to_string()));
    assert_eq!(provided_key(None, Some("api_key=q"), Some("Bearer b")), Some("q".to_string()));
    assert_eq!(provided_key(None, Some("x=1"), Some("Bearer b")), Some("b".to_string()));
    assert_eq!(provided_key(None, None, Some("Bearer b c")), Some("b c".to_string()));
    assert_eq!(provided_key(None, None, Some("bearer b")), None);
    assert_eq!(provided_key(None, None, Some("Bearer")), None);
    assert_eq!(provided_key(None, None, Some("Bearer ")), Some(String::new()));
    assert_eq!(provided_key(None, None, None), None);
    assert_eq!(provided_key(None, Some("a=1&api_key=k1&api_key=k2"), None), Some("k1".to_string()));
    assert_eq!(provided_key(None, Some("api_key=api_key=k"), None), Some("k".to_string()));
    assert_eq!(provided_key(None, Some("api_key="), None), Some(String::new()));
    assert_eq!(provided_key(None, Some("xapi_key=k"), None), None);
    assert_eq!(provided_key(None, Some("a&&api_key=k&"), None), Some("k".to_string()));
    assert_eq!(provided_key(None, Some(""), Some("Bearer t")), Some("t".to_string()));
    assert_eq!(provided_key(Some(""), Some("api_key=q"), None), Some(String::new()));
}

#[test]
fn test_api_key_auth() {
    let guest = api_key_auth(None, Some("1.2.3.4".to_string())).unwrap();
    assert!(guest.is_guest);
    assert_eq!(guest.api_key_id, None);
    assert_eq!(guest.role, ApiKeyRole::User);
    assert_eq!(guest.client_ip, Some("1.2.3.4".to_string()));

    let found = KeyLookup::Found { id: "k1".to_string(), role: ApiKeyRole::Admin, is_active: true };
    let holder = api_key_auth(Some(found), None).unwrap();
    assert!(!holder.is_guest);
    assert_eq!(holder.api_key_id, Some("k1".to_string()));
    assert_eq!(holder.role, ApiKeyRole::Admin);

    let off = KeyLookup::Found { id: "k1".to_string(), role: ApiKeyRole::User, is_active: false };
    let refused = api_key_auth(Some(off), None).unwrap_err();
    assert_eq!((refused.status, refused.error.as_str()), (401, "API Key disattivata"));
    let refused = api_key_auth(Some(KeyLookup::Missing), None).unwrap_err();
    assert_eq!((refused.status, refused.error.as_str()), (401, "API Key non valida"));
    let refused = api_key_auth(Some(KeyLookup::Failed), None).unwrap_err();
    assert_eq!((refused.status, refused.error.as_str()), (500, "Errore interno autenticazione"));

    assert!(require_auth(&holder).is_ok());
    assert!(require_admin(&holder).is_ok());
    let refused = require_auth(&guest).unwrap_err();
    assert_eq!(
        (refused.status, refused.error.as_str()),
        (401, "Autenticazione richiesta. Fornire una API Key valida.")
    );
    let refused = require_admin(&guest).unwrap_err();
    assert_eq!((refused.status, refused.error.as_str()), (401, "Autenticazione richiesta"));
    let user = AuthInfo { is_guest: false, ..AuthInfo::default() };
    let refused = require_admin(&user).unwrap_err();
    assert_eq!((refused.status, refused.error.as_str()), (403, "Privilegi admin richiesti"));
}

#[test]
fn test_drive_requests() {
    assert_eq!(
        folder_search_url("Converty Exports"),
        "https://www.googleapis.com/drive/v3/files?q=name%20%3D%20%27Converty%20Exports%27%20and%20mimeType%20%3D%20%27application%2Fvnd.google-apps.folder%27%20and%20trashed%20%3D%20false&fields=files(id,name)"
    );
    assert!(folder_search_url("a-b_c.d~è").contains("%27a-b_c.d~%C3%A8%27"));
    assert_eq!(
        upload_url(),
        "https://www.googleapis.com/upload/drive/v3/files?uploadType=multipart&fields=id,name,webViewLink"
    );
    assert_eq!(upload_content_type(), "multipart/related; boundary=converty_upload_boundary");
    let body = upload_body("{\"name\":\"a.png\"}", "image/png", &[1, 2, 255]);
    let mut expected: Vec<u8> = Vec::new();
    expected.extend_from_slice(b"--converty_upload_boundary\r\n");
    expected.extend_from_slice(b"Content-Type: application/json; charset=UTF-8\r\n\r\n");
    expected.extend_from_slice(b"{\"name\":\"a.png\"}\r\n");
    expected.extend_from_slice(b"--converty_upload_boundary\r\n");
    expected.extend_from_slice(b"Content-Type: image/png\r\n\r\n");
    expected.extend_from_slice(&[1, 2, 255]);
    expected.extend_from_slice(b"\r\n--converty_upload_boundary--\r\n");
    assert_eq!(body, expected);
    assert_eq!(upload_name(Some("x.png"), Some("output.png")), "x.png");
    assert_eq!(upload_name(None, Some("output.png")), "output.png");
    assert_eq!(upload_name(None, None), "converted_file");
    assert_eq!(get_mime_type("PNG"), "image/png");
    assert_eq!(get_mime_type("jpeg"), "image/jpeg");
    assert_eq!(get_mime_type("zip"), "application/zip");
    assert_eq!(get_mime_type("tif"), "image/tiff");
    assert_eq!(get_mime_type("svg"), "image/svg+xml");
    assert_eq!(get_mime_type("bmp"), "application/octet-stream");
    assert_eq!(get_mime_type(""), "application/octet-stream");
    assert_eq!(thumbnail_url("https://t/x=s220", 80), "https://t/x=s80");
    assert_eq!(thumbnail_url("https://t/x=s2200=s220", 64), "https://t/x=s640=s64");
    assert_eq!(thumbnail_url("https://t/x", 80), "https://t/x");
    assert_eq!(DriveError::NoTokens.to_string(), "No OAuth tokens available");
    assert_eq!(DriveError::TokenExpired.to_string(), "OAuth token expired and refresh failed");
    assert_eq!(DriveError::RefreshFailed("x".into()).to_string(), "Token refresh failed: x");
    assert_eq!(DriveError::ApiFailed("x".into()).to_string(), "Drive API failed: x");
    assert_eq!(DriveError::UploadFailed("x".into()).to_string(), "Upload failed: x");
}

#[test]
fn test_identity_claims() {
    let claims = GoogleClaims {
        sub: "g1".to_string(),
        email: "a@b.c".to_string(),
        email_verified: true,
        name: Some("A".to_string()),
        picture: None,
        aud: "client".to_string(),
        iss: "accounts.google.com".to_string(),
        exp: 2,
        iat: 1,
    };
    let user = VerifiedGoogleUser::from_claims(claims);
    assert_eq!(user.google_id, "g1");
    assert_eq!(user.email, "a@b.c");
    assert_eq!(user.name, Some("A".to_string()));
    assert_eq!(user.picture_url, None);
    assert_eq!(GoogleAuthError::InvalidToken("x".into()).to_string(), "Token non valido: x");
    assert_eq!(GoogleAuthError::TokenExpired.to_string(), "Token scaduto");
    assert_eq!(GoogleAuthError::InvalidIssuer.to_string(), "Issuer non valido");
    assert_eq!(GoogleAuthError::InvalidAudience.to_string(), "Audience non valido");
    assert_eq!(
        GoogleAuthError::KeyFetchError("x".into()).to_string(),
        "Errore nel recupero delle chiavi Google: x"
    );
    assert_eq!(GoogleAuthError::KeyNotFound("k".into()).to_string(), "Chiave non trovata: k");
}

#[test]
fn test_rate_limit_answer() {
    assert_eq!(converty::middleware::rate_limit::REQUESTS_PER_MINUTE, 100);
    assert!(converty::middleware::rate_limit::rate_limit_middleware(true).is_ok());
    let refused = converty::middleware::rate_limit::rate_limit_middleware(false).unwrap_err();
    assert_eq!(refused.error, "Troppe richieste. Riprova tra poco.");
    assert_eq!(refused.status, 429);
}
