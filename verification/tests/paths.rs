use fileserver::assemble_file_path;

fn tc(root_path: &str, url: &str, expected: &str) {
    assert_eq!(assemble_file_path(root_path, url), expected);
}

#[test]
fn simple() {
    tc("/foo/bar", "/baz/qux", "/foo/bar/baz/qux");
}

#[test]
fn simple_slash() {
    tc("/foo/bar/", "/baz/qux", "/foo/bar/baz/qux");
}

#[test]
fn parent() {
    tc("/foo/bar", "/bar/../qux", "/foo/bar/qux");
}

#[test]
fn too_many_parents() {
    tc("/foo/bar", "/bar/../../qux", "/foo/bar/qux");
}

#[test]
fn current() {
    tc("/foo/bar", "/bar/././qux", "/foo/bar/bar/qux");
}

#[test]
fn no_leading_slash() {
    tc("/root", "a/b", "/root/a/b");
}

#[test]
fn empty_url() {
    tc("/root", "", "/root");
}

#[test]
fn url_of_only_markers() {
    tc("/root", "/./../..", "/root");
}

#[test]
fn repeated_separators() {
    tc("/root", "//a///b", "/root/a/b");
}

#[test]
fn parents_inside() {
    tc("/srv/files", "/a/b/../c/../../d", "/srv/files/d");
}

#[test]
fn escape_attempt_clamped() {
    tc("/srv/files", "/../../../etc/passwd", "/srv/files/etc/passwd");
}

#[test]
fn root_is_slash() {
    tc("/", "/a", "/a");
}
