use vst3info::bundle::{binary_candidate, locate_binary, BinaryLocation, PathError, Platform};
use vst3info::classes::find_audio_class;
use vst3info::model::ClassDescriptor;
use vst3info::text::{c_str_to_string, chars_of, contains_chars, utf16_to_string};

#[test]
fn narrow_buffer_stops_at_nul() {
    assert_eq!(c_str_to_string(&[b'a', b'b', 0, b'c']), "ab");
    assert_eq!(c_str_to_string(&[b'x', b'y']), "xy");
    assert_eq!(c_str_to_string(&[0, b'x']), "");
    assert_eq!(c_str_to_string(&[]), "");
}

#[test]
fn narrow_buffer_replaces_invalid_utf8() {
    assert_eq!(c_str_to_string(&[b'a', 0xff, b'b', 0]), "a\u{fffd}b");
    assert_eq!(c_str_to_string("Grüße".as_bytes()), "Grüße");
}

#[test]
fn wide_buffer_stops_at_nul() {
    let mut buf = [0u16; 128];
    for (i, u) in "Gain".encode_utf16().enumerate() {
        buf[i] = u;
    }
    buf[10] = 'x' as u16;
    assert_eq!(utf16_to_string(&buf), "Gain");
    assert_eq!(utf16_to_string(&[0xd800, 'a' as u16, 0]), "\u{fffd}a");
}

#[test]
fn substring_search() {
    let hay = chars_of("Audio Module Class");
    assert!(contains_chars(&hay, &chars_of("Module")));
    assert!(contains_chars(&hay, &chars_of("")));
    assert!(!contains_chars(&hay, &chars_of("module")));
    assert!(!contains_chars(&chars_of("ab"), &chars_of("abc")));
}

#[test]
fn first_audio_class_is_found() {
    let classes = vec![
        ClassDescriptor::from_raw([1; 16], 1, b"Component Controller Class\0", b"Ctl\0"),
        ClassDescriptor::from_raw([2; 16], 1, b"Audio Module Class\0", b"A\0"),
        ClassDescriptor::from_raw([3; 16], 1, b"Audio Module Class\0", b"B\0"),
    ];
    assert_eq!(find_audio_class(&classes), Some(1));
    let only_controller = vec![ClassDescriptor::from_raw([1; 16], 1, b"Component Controller Class\0", b"Ctl\0")];
    assert_eq!(find_audio_class(&only_controller), None);
    assert_eq!(find_audio_class(&Vec::new()), None);
}

#[test]
fn bundle_paths() {
    assert_eq!(locate_binary("/x/a.so", true, Platform::Linux, true), Ok(BinaryLocation::AsGiven));
    assert_eq!(locate_binary("/x/a.vst", false, Platform::Linux, true), Err(PathError::InvalidBundle));
    assert_eq!(
        locate_binary("/x/a.vst3", false, Platform::Linux, true),
        Ok(BinaryLocation::InBundle("Contents", "x86_64-linux"))
    );
    assert_eq!(
        locate_binary("/x/a.vst3", false, Platform::Windows, false),
        Ok(BinaryLocation::InBundle("Contents", "x86-win"))
    );
    assert_eq!(
        locate_binary("/x/a.vst3", false, Platform::MacOs, true),
        Ok(BinaryLocation::InBundle("Contents", "MacOS"))
    );
    assert_eq!(locate_binary("/x/a.vst3", false, Platform::Other, true), Err(PathError::UnsupportedPlatform));
}

#[test]
fn binary_candidates() {
    assert!(binary_candidate(Platform::Linux, "plugin.so"));
    assert!(!binary_candidate(Platform::Linux, ".so"));
    assert!(!binary_candidate(Platform::Linux, "plugin.dll"));
    assert!(binary_candidate(Platform::Windows, "plugin.vst3"));
    assert!(!binary_candidate(Platform::Windows, "plugin.dll"));
    assert!(binary_candidate(Platform::MacOs, "Plugin"));
    assert!(!binary_candidate(Platform::MacOs, ".DS_Store"));
    assert!(!binary_candidate(Platform::MacOs, "Info.plist"));
    assert!(!binary_candidate(Platform::MacOs, "readme.txt"));
    assert_eq!(PathError::NoBinary.message(), "No binary found");
}

#[test]
fn wide_buffer_decodes_surrogate_pairs() {
    assert_eq!(utf16_to_string(&[0xd83d, 0xde00, 0]), "\u{1f600}");
    assert_eq!(utf16_to_string(&[0xdc00, 0xd800, 'b' as u16]), "\u{fffd}\u{fffd}b");
    assert_eq!(utf16_to_string(&[0xd800, 0xd83d, 0xde00]), "\u{fffd}\u{1f600}");
}
