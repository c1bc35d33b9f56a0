use tcplisten::invocation::{contains_nul, parse_invocation, ArgError};

fn args(list: &[&str]) -> Vec<Vec<u8>> {
    list.iter().map(|a| a.as_bytes().to_vec()).collect()
}

#[test]
fn no_arguments_is_usage_error() {
    assert_eq!(parse_invocation(&args(&[])).unwrap_err(), ArgError::Usage);
}

#[test]
fn one_argument_is_usage_error() {
    assert_eq!(parse_invocation(&args(&["127.0.0.1:9000"])).unwrap_err(), ArgError::Usage);
}

#[test]
fn address_and_command_are_split_verbatim() {
    let inv = parse_invocation(&args(&["[::]:0", "cat", "-u", ""])).unwrap();
    assert_eq!(inv.address, b"[::]:0".to_vec());
    assert_eq!(inv.command, args(&["cat", "-u", ""]));
}

#[test]
fn nul_in_command_token_is_refused() {
    let mut a = args(&["127.0.0.1:9000", "echo"]);
    a.push(vec![b'a', 0, b'b']);
    assert_eq!(parse_invocation(&a).unwrap_err(), ArgError::NulByte);
}

#[test]
fn nul_in_address_is_not_a_command_error() {
    let a = vec![vec![b'1', 0], b"true".to_vec()];
    let inv = parse_invocation(&a).unwrap();
    assert_eq!(inv.address, vec![b'1', 0]);
}

#[test]
fn usage_comes_before_nul_check() {
    let a = vec![vec![0u8]];
    assert_eq!(parse_invocation(&a).unwrap_err(), ArgError::Usage);
}

#[test]
fn nul_detection() {
    assert!(!contains_nul(&b"abc".to_vec()));
    assert!(!contains_nul(&Vec::new()));
    assert!(contains_nul(&vec![0u8]));
    assert!(contains_nul(&vec![b'x', b'y', 0]));
}
