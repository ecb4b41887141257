use camfc::config::{backend_reply_ok, get_backend_config, get_backend_url, parse_backend_url, BackendConfig, ConfigError};
use camfc::filetype::{file_type_of_lowercase, get_file_type_from_extension, FileType};
use camfc::remote::{
    check_status, chunk_part_name, content_digest, download_url, metadata_size, range_header, upload_chunk_url,
    upload_finish_url, upload_init_url, upload_status_url, AuthInfo, RemoteError,
};

#[test]
fn backend_address_parsing() {
    assert_eq!(parse_backend_url("  example.org:9000 \n").unwrap(), ("http://example.org".to_string(), 9000));
    assert_eq!(parse_backend_url("example.org").unwrap(), ("http://example.org".to_string(), 8005));
    assert_eq!(parse_backend_url("https://example.org").unwrap_err_port(), "//example.org");
    assert_eq!(parse_backend_url("host:+80").unwrap(), ("http://host".to_string(), 80));
    assert_eq!(parse_backend_url("host:65535").unwrap().1, 65535);
    assert_eq!(parse_backend_url("host:65536").unwrap_err_port(), "65536");
    assert_eq!(parse_backend_url("host:").unwrap_err_port(), "");
    assert_eq!(parse_backend_url("host:8a").unwrap_err_port(), "8a");
}

trait PortErr {
    fn unwrap_err_port(self) -> String;
}

impl PortErr for Result<(String, u16), ConfigError> {
    fn unwrap_err_port(self) -> String {
        match self {
            Err(ConfigError::InvalidPort(p)) => p,
            other => panic!("unexpected {:?}", other),
        }
    }
}

#[test]
fn backend_config_access() {
    let c = BackendConfig { base_url: "http://localhost".to_string(), port: 8005 };
    assert_eq!(c.get_full_url(), "http://localhost:8005");
    let loaded = Some(c);
    assert_eq!(get_backend_config(&loaded).unwrap().port, 8005);
    assert_eq!(get_backend_url(&loaded).unwrap(), "http://localhost:8005");
    assert!(matches!(get_backend_url(&None), Err(ConfigError::NotInitialized)));
}

#[test]
fn backend_reply_must_be_json() {
    assert!(backend_reply_ok(true, "{\"ok\":1}"));
    assert!(!backend_reply_ok(true, "not json"));
    assert!(!backend_reply_ok(false, "{}"));
}

#[test]
fn auth_header_is_compact_json() {
    let a = AuthInfo { device_id: "pen-1".to_string(), totp: "123456".to_string() };
    assert_eq!(a.get_auth_header(), "{\"Id\":\"pen-1\",\"Totp\":\"123456\"}");
    let b = AuthInfo { device_id: "a\"b".to_string(), totp: "x\\y".to_string() };
    assert_eq!(b.get_auth_header(), "{\"Id\":\"a\\\"b\",\"Totp\":\"x\\\\y\"}");
}

#[test]
fn endpoint_addresses() {
    assert_eq!(
        download_url("http://localhost:8005", "ds/下载.png"),
        "http://localhost:8005/download/ds%2F%E4%B8%8B%E8%BD%BD.png"
    );
    assert_eq!(upload_init_url("http://h:1"), "http://h:1/upload/init");
    assert_eq!(upload_chunk_url("http://h:1"), "http://h:1/upload/chunk");
    assert_eq!(upload_status_url("http://h:1", "abc"), "http://h:1/upload/status/abc");
    assert_eq!(upload_finish_url("http://h:1"), "http://h:1/upload/finish");
    assert_eq!(range_header(0, 4_194_303), "bytes=0-4194303");
    assert_eq!(range_header(8_388_608, 8_999_999), "bytes=8388608-8999999");
    assert_eq!(chunk_part_name(7), "chunk_0007");
    assert_eq!(chunk_part_name(42), "chunk_0042");
    assert_eq!(chunk_part_name(999), "chunk_0999");
    assert_eq!(chunk_part_name(12345), "chunk_12345");
}

#[test]
fn endpoint_answers() {
    assert!(check_status(200).is_ok());
    assert!(check_status(206).is_ok());
    assert_eq!(check_status(404), Err(RemoteError::NotFound));
    assert_eq!(check_status(500), Err(RemoteError::Status(500)));
    assert_eq!(metadata_size(200, Some("1234")), Ok(1234));
    assert_eq!(metadata_size(200, Some("x")), Ok(0));
    assert_eq!(metadata_size(200, None), Ok(0));
    assert_eq!(metadata_size(200, Some("18446744073709551615")), Ok(u64::MAX));
    assert_eq!(metadata_size(200, Some("18446744073709551616")), Ok(0));
    assert_eq!(metadata_size(404, Some("10")), Err(RemoteError::NotFound));
    assert_eq!(metadata_size(403, None), Err(RemoteError::Status(403)));
}

#[test]
fn content_digest_is_hex_sha256() {
    assert_eq!(
        content_digest(b"abc"),
        "ba7816bf8f01cfea414140de5dae2223b00361a396177a9cb410ff61f20015ad"
    );
    assert_eq!(
        content_digest(b""),
        "e3b0c44298fc1c149afbf4c8996fb92427ae41e4649b934ca495991b7852b855"
    );
}

#[test]
fn file_types_by_extension() {
    assert_eq!(get_file_type_from_extension("JPG"), FileType::Image);
    assert_eq!(get_file_type_from_extension("Mp4"), FileType::Video);
    assert_eq!(get_file_type_from_extension("flac"), FileType::Audio);
    assert_eq!(get_file_type_from_extension("PDF"), FileType::Document);
    assert_eq!(get_file_type_from_extension("7z"), FileType::Archive);
    assert_eq!(get_file_type_from_extension("Rs"), FileType::Code);
    assert_eq!(get_file_type_from_extension("exe"), FileType::Other);
    assert_eq!(get_file_type_from_extension(""), FileType::Other);
    assert_eq!(file_type_of_lowercase("JPG"), FileType::Other);
    assert_eq!(FileType::Image.folder_name(), "图片");
    assert_eq!(FileType::Archive.folder_name(), "压缩包");
    assert_eq!(FileType::Other.folder_name(), "其他");
}

#[test]
fn content_digest_has_sixty_four_digits() {
    assert_eq!(content_digest(&[0u8; 1000]).len(), 64);
}
