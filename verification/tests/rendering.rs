use config_loader::config::ConfigParseError;
use config_loader::position::to_linecol;
use config_loader::render::append_decimal;
use config_loader::scan::Diag;

#[test]
fn linecol_of_first_byte() {
    assert_eq!(to_linecol(b"ab\ncd", 0), (1, 1));
}

#[test]
fn linecol_within_first_line() {
    assert_eq!(to_linecol(b"ab\ncd", 2), (1, 3));
}

#[test]
fn linecol_after_newline() {
    assert_eq!(to_linecol(b"ab\ncd", 3), (2, 1));
    assert_eq!(to_linecol(b"ab\ncd", 4), (2, 2));
}

#[test]
fn linecol_at_end_of_text() {
    assert_eq!(to_linecol(b"ab\ncd", 5), (2, 3));
}

#[test]
fn linecol_clamps_past_the_end() {
    assert_eq!(to_linecol(b"ab\ncd", 100), (2, 3));
}

#[test]
fn linecol_of_empty_text() {
    assert_eq!(to_linecol(b"", 0), (1, 1));
    assert_eq!(to_linecol(b"", 7), (1, 1));
}

#[test]
fn decimal_digits() {
    for (n, expect) in [
        (0usize, "0"),
        (7, "7"),
        (10, "10"),
        (42, "42"),
        (1000, "1000"),
        (65535, "65535"),
    ] {
        let mut s = String::new();
        append_decimal(&mut s, n);
        assert_eq!(s, expect);
    }
}

#[test]
fn one_diagnostic_is_location_tagged() {
    let diags = vec![Diag { span: Some((3, 4)), desc: "boom".to_string() }];
    let r = ConfigParseError::from_toml_errors(b"ab\ncd", &diags);
    match r {
        ConfigParseError::ParseError(m) => assert_eq!(m, "[2:1-2:2]: boom"),
        ConfigParseError::Io(_) => panic!("expected a syntax failure"),
    }
}

#[test]
fn diagnostics_join_with_a_bare_comma() {
    let diags = vec![
        Diag { span: Some((0, 1)), desc: "first".to_string() },
        Diag { span: Some((4, 5)), desc: "second".to_string() },
    ];
    let r = ConfigParseError::from_toml_errors(b"ab\ncd", &diags);
    match r {
        ConfigParseError::ParseError(m) => {
            assert_eq!(m, "[1:1-1:2]: first,[2:2-2:3]: second")
        },
        ConfigParseError::Io(_) => panic!("expected a syntax failure"),
    }
}

#[test]
fn diagnostic_without_a_span_points_at_the_start() {
    let diags = vec![Diag { span: None, desc: "lost".to_string() }];
    let r = ConfigParseError::from_toml_errors(b"ab\ncd", &diags);
    match r {
        ConfigParseError::ParseError(m) => assert_eq!(m, "[1:1-1:1]: lost"),
        ConfigParseError::Io(_) => panic!("expected a syntax failure"),
    }
}

#[test]
fn no_diagnostics_render_as_an_empty_message() {
    let r = ConfigParseError::from_toml_errors(b"ab\ncd", &Vec::new());
    match r {
        ConfigParseError::ParseError(m) => assert_eq!(m, ""),
        ConfigParseError::Io(_) => panic!("expected a syntax failure"),
    }
}
