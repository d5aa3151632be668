use promptcmd::dotprompt::helper_args::{cat_arguments, env_arguments, head_arguments, parse_usize};

#[test]
fn head_defaults_to_ten_lines() {
    let a = head_arguments(&vec!["notes.txt".to_string()], None).unwrap();
    assert_eq!(a.filename, "notes.txt");
    assert_eq!(a.lines, 10);
    let b = head_arguments(&vec!["notes.txt".to_string()], Some("+3")).unwrap();
    assert_eq!(b.lines, 3);
}

#[test]
fn head_rejects_bad_lines() {
    let e = head_arguments(&vec!["f".to_string()], Some("-1")).unwrap_err();
    assert_eq!(e, "Expected a positive integer for lines, found -1");
    let e = head_arguments(&Vec::new(), Some("2")).unwrap_err();
    assert_eq!(e, "filename not specified");
}

#[test]
fn parse_usize_matches_std() {
    for s in ["0", "42", "+7", "", "+", "1a", "-3", "18446744073709551615", "18446744073709551616", " 1"] {
        assert_eq!(parse_usize(s), s.parse::<usize>().ok(), "{s}");
    }
}

#[test]
fn cat_and_env_arguments() {
    assert_eq!(cat_arguments(&vec!["a.txt".to_string()]).unwrap().filename, "a.txt");
    assert_eq!(cat_arguments(&Vec::new()).unwrap_err(), "filename not specified");
    let e = env_arguments(&vec!["HOME".to_string()]).unwrap();
    assert_eq!(e.name, "HOME");
    assert_eq!(e.default, Some(String::new()));
    let e = env_arguments(&vec!["X".to_string(), "fallback".to_string()]).unwrap();
    assert_eq!(e.default, Some("fallback".to_string()));
    assert_eq!(env_arguments(&Vec::new()).unwrap_err(), "env field name not specified");
}
