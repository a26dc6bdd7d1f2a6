use hide_utils::path::{append_bytes, name_bounds, sibling, DOT, SEPARATOR};
use hide_utils::text::{encode_marker, marker_width};

#[test]
fn separator_is_the_slash() {
    assert_eq!(SEPARATOR, b'/');
    assert_eq!(DOT, b'.');
}

#[test]
fn name_bounds_enclose_the_last_component() {
    assert_eq!(name_bounds(b"file.txt"), Some((0, 8)));
    assert_eq!(name_bounds(b"/some/path/to/file.txt"), Some((14, 22)));
    assert_eq!(name_bounds(b"/hello/.world/"), Some((7, 13)));
    assert_eq!(name_bounds(b"a//b//"), Some((3, 4)));
    assert_eq!(name_bounds(b"..."), Some((0, 3)));
    assert_eq!(name_bounds(b"..a"), Some((0, 3)));
    assert_eq!(name_bounds(b"a."), Some((0, 2)));
    assert_eq!(name_bounds(b".a"), Some((0, 2)));
}

#[test]
fn name_bounds_pass_over_what_names_nothing() {
    assert_eq!(name_bounds(b"foo.txt/."), Some((0, 7)));
    assert_eq!(name_bounds(b"foo.txt/./"), Some((0, 7)));
    assert_eq!(name_bounds(b"dir/foo/.//./"), Some((4, 7)));
    assert_eq!(name_bounds(b"./foo"), Some((2, 5)));
    assert_eq!(name_bounds(b"../foo"), Some((3, 6)));
    assert_eq!(name_bounds(b"/./foo/."), Some((3, 6)));
}

#[test]
fn name_bounds_find_no_name() {
    assert_eq!(name_bounds(b"/"), None);
    assert_eq!(name_bounds(b"//"), None);
    assert_eq!(name_bounds(b""), None);
    assert_eq!(name_bounds(b"."), None);
    assert_eq!(name_bounds(b"./"), None);
    assert_eq!(name_bounds(b"./."), None);
    assert_eq!(name_bounds(b"/."), None);
    assert_eq!(name_bounds(b".."), None);
    assert_eq!(name_bounds(b"../"), None);
    assert_eq!(name_bounds(b"dir/.."), None);
    assert_eq!(name_bounds(b"dir/../."), None);
    assert_eq!(name_bounds(b"/.."), None);
}

#[test]
fn name_bounds_agree_with_the_standard_library() {
    let pieces = ["", "/", ".", "..", "a", ".b", "...", "//", "/.", "./", "c.d"];
    for first in pieces {
        for second in pieces {
            for third in pieces {
                for fourth in pieces {
                    let text = format!("{}{}{}{}", first, second, third, fourth);
                    let expected = std::path::Path::new(&text)
                        .file_name()
                        .map(|name| name.as_encoded_bytes().to_vec());
                    let actual = name_bounds(text.as_bytes())
                        .map(|(start, end)| text.as_bytes()[start..end].to_vec());
                    assert_eq!(actual, expected, "file name of {:?}", text);
                }
            }
        }
    }
}

#[test]
fn sibling_agrees_with_the_standard_library() {
    let pieces = ["", "/", ".", "..", "a", ".b", "...", "//", "/.", "./", "c.d"];
    for first in pieces {
        for second in pieces {
            for third in pieces {
                for fourth in pieces {
                    let text = format!("{}{}{}{}", first, second, third, fourth);
                    let path = std::path::Path::new(&text);
                    if path.file_name().is_none() {
                        continue;
                    }
                    let expected = match path.parent() {
                        Some(parent) => parent.join("new"),
                        None => std::path::PathBuf::from("new"),
                    };
                    let actual = sibling(text.as_bytes(), b"new");
                    assert_eq!(
                        actual,
                        expected.as_os_str().as_encoded_bytes().to_vec(),
                        "sibling of {:?}",
                        text
                    );
                }
            }
        }
    }
}

#[test]
fn sibling_keeps_the_parent() {
    assert_eq!(sibling(b"file.txt", b"other"), b"other".to_vec());
    assert_eq!(sibling(b"/file.txt", b"other"), b"/other".to_vec());
    assert_eq!(sibling(b"///file.txt", b"other"), b"/other".to_vec());
    assert_eq!(sibling(b"dir/file.txt", b"other"), b"dir/other".to_vec());
    assert_eq!(sibling(b"dir///file.txt///", b"other"), b"dir/other".to_vec());
    assert_eq!(sibling(b"/a/b/c", b""), b"/a/b/".to_vec());
    assert_eq!(sibling(b"./file.txt", b"other"), b"./other".to_vec());
    assert_eq!(sibling(b"././file.txt", b"other"), b"./other".to_vec());
    assert_eq!(sibling(b"a/./file.txt", b"other"), b"a/other".to_vec());
    assert_eq!(sibling(b"/./file.txt", b"other"), b"/other".to_vec());
    assert_eq!(sibling(b"../file.txt", b"other"), b"../other".to_vec());
    assert_eq!(sibling(b"a/b/.", b"other"), b"a/other".to_vec());
    assert_eq!(sibling(b"..", b"other"), b"other".to_vec());
}

#[test]
fn append_bytes_appends() {
    let mut out = b"ab".to_vec();
    append_bytes(&mut out, b"cd");
    assert_eq!(out, b"abcd".to_vec());
    append_bytes(&mut out, b"");
    assert_eq!(out, b"abcd".to_vec());
}

#[test]
fn marker_bytes_are_its_encoding() {
    assert_eq!(encode_marker('.'), vec![0x2e]);
    assert_eq!(encode_marker('é'), vec![0xc3, 0xa9]);
    assert_eq!(encode_marker('€'), vec![0xe2, 0x82, 0xac]);
    assert_eq!(encode_marker('😀'), vec![0xf0, 0x9f, 0x98, 0x80]);
    assert_eq!(marker_width('.'), 1);
    assert_eq!(marker_width('é'), 2);
    assert_eq!(marker_width('€'), 3);
    assert_eq!(marker_width('😀'), 4);
}

#[test]
fn marker_bytes_agree_with_the_standard_encoding() {
    let mut code: u32 = 0;
    while code <= 0x10ffff {
        if let Some(marker) = char::from_u32(code) {
            let mut buffer = [0u8; 4];
            let expected = marker.encode_utf8(&mut buffer).as_bytes().to_vec();
            assert_eq!(encode_marker(marker), expected);
            assert_eq!(marker_width(marker), expected.len());
        }
        code += if code < 0x3000 { 1 } else { 7 };
    }
}
