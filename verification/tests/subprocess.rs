use webview::{args_indicate_subprocess, bytes_contain};

fn args(list: &[&str]) -> Vec<Vec<u8>> {
    list.iter().map(|s| s.as_bytes().to_vec()).collect()
}

#[test]
fn marker_inside_an_argument_is_found() {
    let a = args(&["/usr/bin/host", "--type=renderer", "--lang=en"]);
    assert!(args_indicate_subprocess(&a, b"--type"));
}

#[test]
fn plain_invocation_is_not_a_subprocess() {
    let a = args(&["/usr/bin/host", "--cache=/tmp"]);
    assert!(!args_indicate_subprocess(&a, b"--type"));
}

#[test]
fn empty_argument_list_is_not_a_subprocess() {
    assert!(!args_indicate_subprocess(&Vec::new(), b"--type"));
}

#[test]
fn bytes_contain_finds_runs() {
    assert!(bytes_contain(b"abcdef", b"cde"));
    assert!(bytes_contain(b"abcdef", b""));
    assert!(bytes_contain(b"abc", b"abc"));
    assert!(!bytes_contain(b"abc", b"abcd"));
    assert!(!bytes_contain(b"abcdef", b"ce"));
    assert!(bytes_contain(b"aaab", b"aab"));
}
