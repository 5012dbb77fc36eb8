use lights::text::{float_token, parse_u16_token, split_lines, split_sep_parts, split_ws_tokens};

#[test]
fn whitespace_splitting_matches_the_standard_library() {
    for s in ["", "   ", "a b  c", "\tv 1.0\t2.0  3.0 ", "one", " leading", "trailing "] {
        let ours = split_ws_tokens(s);
        let std_way: Vec<&str> = s.split_whitespace().collect();
        assert_eq!(ours, std_way, "tokens of {:?}", s);
    }
}

#[test]
fn line_splitting_matches_the_standard_library() {
    for s in ["", "a", "a\n", "a\nb", "a\r\nb\r\n", "\n\n", "a\rb\n", "v 1 2 3\nf 1//1 2//2 3//3\n"]
    {
        let ours = split_lines(s);
        let std_way: Vec<&str> = s.lines().collect();
        assert_eq!(ours, std_way, "lines of {:?}", s);
    }
}

#[test]
fn separator_splitting_matches_the_standard_library() {
    for s in ["", "1//2", "1//2//3", "//", "///", "////", "1//", "//1", "1/2"] {
        let ours = split_sep_parts(s);
        let std_way: Vec<&str> = s.split("//").collect();
        assert_eq!(ours, std_way, "pieces of {:?}", s);
    }
}

#[test]
fn decimal_tokens_match_the_standard_library() {
    for s in ["0", "7", "65535", "65536", "99999999999999999999", "+12", "-1", "", "+", "1x", "١٢"]
    {
        let ours = parse_u16_token(s);
        let std_way = s.parse::<u16>().ok();
        assert_eq!(ours, std_way, "value of {:?}", s);
    }
}

#[test]
fn float_tokens_match_the_standard_library() {
    for s in [
        "0", "1.5", "-1.5", "+.5", "1.", ".", "1e10", "1E-10", "2.5e+3", "inf", "-INF", "Infinity",
        "nan", "NaN", "", "+", "e", "1e", "1e+", "0x1", "1.2.3", "--1", "infinit", "nans", "١",
    ] {
        let ours = float_token(s);
        let std_way = s.parse::<f32>().is_ok();
        assert_eq!(ours, std_way, "acceptance of {:?}", s);
    }
}
