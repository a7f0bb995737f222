use vdl::path::join;

#[test]
fn a_name_goes_under_its_base() {
    assert_eq!(join("/cache/vdl", "yt:abc"), "/cache/vdl/yt:abc");
    assert_eq!(join("/cache/vdl/", "yt:abc"), "/cache/vdl/yt:abc");
    assert_eq!(join("", "name"), "name");
    assert_eq!(join("relative", "name"), "relative/name");
    assert_eq!(join("/", "name"), "/name");
    assert_eq!(join("/base", ""), "/base/");
    assert_eq!(join("", ""), "");
}

#[test]
fn an_absolute_name_stands_for_itself() {
    assert_eq!(join("/cache/vdl", "/elsewhere/file"), "/elsewhere/file");
    assert_eq!(join("", "/"), "/");
}

#[test]
fn join_agrees_with_the_standard_library() {
    let bases = ["", "/", "a", "a/", "/a", "/a/b", "/a/b/", "a//", ".", "..", "/caf\u{e9}"];
    let names = ["", "x", "x/y", "/x", "/", ".", "..", "x/", "Stream [abc].mkv", "\u{e9}"];
    for b in bases {
        for n in names {
            let expected = std::path::Path::new(b).join(n);
            assert_eq!(join(b, n), expected.to_str().unwrap(), "{b:?} {n:?}");
        }
    }
}
