use speem::config::{get_config, set_config, Config};
use speem::encoding::hex_string;

#[test]
fn config_default_values() {
    let config = Config::default();
    assert_eq!(config.database_url, "speem.db");
    assert_eq!(config.database_passphrase, "default_passphrase");
}

#[test]
fn config_set_then_get() {
    let mut current = Config::default();
    set_config(
        &mut current,
        Config {
            database_url: "other.db".to_owned(),
            database_passphrase: "s3cret".to_owned(),
        },
    );
    let read_back = get_config(&current);
    assert_eq!(read_back.database_url, "other.db");
    assert_eq!(read_back.database_passphrase, "s3cret");
    // The original is untouched by handing out a copy.
    assert_eq!(current.database_url, "other.db");
}

#[test]
fn hex_rendering_exact() {
    assert_eq!(hex_string(&[]), "");
    assert_eq!(hex_string(&[0x00]), "00");
    assert_eq!(hex_string(&[0xbe, 0xef]), "beef");
    assert_eq!(hex_string(&[0x01, 0x23, 0x45, 0x67, 0x89, 0xab, 0xcd, 0xef]), "0123456789abcdef");
    assert_eq!(hex_string(&[0xff; 4]), "ffffffff");
}
