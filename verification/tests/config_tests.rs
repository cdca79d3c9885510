use onetime_cli::args::{Decrypt, Encrypt};
use onetime_cli::config::{DEFAULT_BUFFER, DEFAULT_SUFFIX1, DEFAULT_SUFFIX2};
use onetime_cli::{extend_extension, Config, Slot};

#[test]
fn new_fills_in_the_defaults() {
    let c = Config::new("secret.txt");
    assert_eq!(c.file, "secret.txt");
    assert_eq!(c.suffix1, "otp.0");
    assert_eq!(c.suffix2, "otp.1");
    assert_eq!(c.buffer, 1048576);
    assert!(!c.rm);
    assert!(c.quiet);
}

#[test]
fn the_default_constants_are_what_new_uses() {
    assert_eq!(DEFAULT_SUFFIX1, "otp.0");
    assert_eq!(DEFAULT_SUFFIX2, "otp.1");
    assert_eq!(DEFAULT_BUFFER, 1024 * 1024);
}

#[test]
fn new_with_suffixes_takes_the_suffixes() {
    let c = Config::new_with_suffixes("file1.txt", "encrypted.part0", "encrypted.part1");
    assert_eq!(c.file, "file1.txt");
    assert_eq!(c.suffix1, "encrypted.part0");
    assert_eq!(c.suffix2, "encrypted.part1");
    assert_eq!(c.buffer, 1048576);
    assert!(!c.rm);
    assert!(c.quiet);
}

#[test]
fn extend_extension_appends_after_the_whole_name() {
    assert_eq!(extend_extension("secret.txt", "otp.0"), "secret.txt.otp.0");
    assert_eq!(extend_extension("a.tar.gz", "otp.0"), "a.tar.gz.otp.0");
    assert_eq!(extend_extension("secret", "otp.1"), "secret.otp.1");
    assert_eq!(extend_extension(".hidden", "otp.0"), ".hidden.otp.0");
    assert_eq!(extend_extension("dir.d/name", "x"), "dir.d/name.x");
    assert_eq!(extend_extension("", ""), ".");
}

#[test]
fn path_names_the_three_files() {
    let c = Config::new("secret.txt");
    assert_eq!(c.path(Slot::Subject), "secret.txt");
    assert_eq!(c.path(Slot::First), "secret.txt.otp.0");
    assert_eq!(c.path(Slot::Second), "secret.txt.otp.1");

    let c = Config::new_with_suffixes("a.tar.gz", "p0", "p1");
    assert_eq!(c.path(Slot::Subject), "a.tar.gz");
    assert_eq!(c.path(Slot::First), "a.tar.gz.p0");
    assert_eq!(c.path(Slot::Second), "a.tar.gz.p1");
}

#[test]
fn encrypt_arguments_become_a_config() {
    let args = Encrypt {
        file: "f".to_string(),
        out1_suffix: "a".to_string(),
        out2_suffix: "b".to_string(),
        buffer: 7,
        rm: true,
    };
    let c = args.into_config(false);
    assert_eq!(c.file, "f");
    assert_eq!(c.suffix1, "a");
    assert_eq!(c.suffix2, "b");
    assert_eq!(c.buffer, 7);
    assert!(c.rm);
    assert!(!c.quiet);
}

#[test]
fn decrypt_arguments_become_a_config() {
    let args = Decrypt {
        file: "g".to_string(),
        in1_suffix: "x".to_string(),
        in2_suffix: "y".to_string(),
        buffer: 4096,
        rm: false,
    };
    let c = args.into_config(true);
    assert_eq!(c.file, "g");
    assert_eq!(c.suffix1, "x");
    assert_eq!(c.suffix2, "y");
    assert_eq!(c.buffer, 4096);
    assert!(!c.rm);
    assert!(c.quiet);
}
