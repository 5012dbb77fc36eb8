use lights::obj::{parse, parse_face, parse_index, parse_vec, ObjError};

#[test]
fn parses_a_small_model() {
    let src = "# a comment\nv 1 2 3\nv 4.5 -6 7e0\nvn 0 0 1\nf 1//1 2//2 3//3\n";
    let obj = parse(src).unwrap();
    assert_eq!(obj.vertices.len(), 2);
    assert_eq!(obj.vertices[0][0], "1");
    assert_eq!(obj.vertices[0][1], "2");
    assert_eq!(obj.vertices[0][2], "3");
    assert_eq!(obj.vertices[1][0], "4.5");
    assert_eq!(obj.vertices[1][1], "-6");
    assert_eq!(obj.vertices[1][2], "7e0");
    assert_eq!(obj.normals.len(), 1);
    assert_eq!(obj.normals[0][2], "1");
    assert_eq!(obj.indices, vec![0u16, 1, 2]);
}

#[test]
fn coordinates_convert_to_floats() {
    let src = "v -0.5 .25 1e-2\n";
    let obj = parse(src).unwrap();
    let x: f32 = obj.vertices[0][0].parse().unwrap();
    let y: f32 = obj.vertices[0][1].parse().unwrap();
    let z: f32 = obj.vertices[0][2].parse().unwrap();
    assert_eq!(x, -0.5);
    assert_eq!(y, 0.25);
    assert_eq!(z, 0.01);
}

#[test]
fn empty_input_gives_an_empty_model() {
    let obj = parse("").unwrap();
    assert!(obj.vertices.is_empty());
    assert!(obj.normals.is_empty());
    assert!(obj.indices.is_empty());
}

#[test]
fn unknown_lines_are_ignored() {
    let src = "mtllib spot.mtl\no spot\nvt 0.5 0.5\ns off\nv 0 0 0\n";
    let obj = parse(src).unwrap();
    assert_eq!(obj.vertices.len(), 1);
    assert_eq!(obj.indices.len(), 0);
}

#[test]
fn windows_line_endings_are_accepted() {
    let src = "v 1 2 3\r\nf 1//1 1//1 1//1\r\n";
    let obj = parse(src).unwrap();
    assert_eq!(obj.vertices.len(), 1);
    assert_eq!(obj.indices, vec![0u16, 0, 0]);
}

#[test]
fn extra_blanks_between_tokens_are_accepted() {
    let src = "v \t 1   2  \t 3\n";
    let obj = parse(src).unwrap();
    assert_eq!(obj.vertices[0][1], "2");
}

#[test]
fn a_bad_coordinate_reports_the_line() {
    let err = parse("v 1 2 trouble\n").unwrap_err();
    match err {
        ObjError::SyntaxError(line) => assert_eq!(line, "v 1 2 trouble"),
        other => panic!("expected a syntax error, got {:?}", other),
    }
}

#[test]
fn a_short_vertex_line_reports_the_line() {
    let err = parse("v 1 2\n").unwrap_err();
    match err {
        ObjError::SyntaxError(line) => assert_eq!(line, "v 1 2"),
        other => panic!("expected a syntax error, got {:?}", other),
    }
}

#[test]
fn a_long_vertex_line_reports_the_line() {
    let err = parse("v 1 2 3 4\n").unwrap_err();
    assert!(matches!(err, ObjError::SyntaxError(_)));
}

#[test]
fn mismatched_corner_indices_are_not_supported() {
    let err = parse("f 1//2 3//3 4//4\n").unwrap_err();
    assert!(matches!(err, ObjError::NotSupported));
}

#[test]
fn a_corner_without_a_normal_index_reports_the_corner() {
    let err = parse("f 1 2 3\n").unwrap_err();
    match err {
        ObjError::SyntaxError(tok) => assert_eq!(tok, "1"),
        other => panic!("expected a syntax error, got {:?}", other),
    }
}

#[test]
fn a_quad_face_reports_the_line() {
    let err = parse("f 1//1 2//2 3//3 4//4\n").unwrap_err();
    match err {
        ObjError::SyntaxError(line) => assert_eq!(line, "f 1//1 2//2 3//3 4//4"),
        other => panic!("expected a syntax error, got {:?}", other),
    }
}

#[test]
fn parse_vec_returns_the_three_tokens() {
    let arr = parse_vec("vn 0.0 1.0 0.0").unwrap();
    assert_eq!(arr[0], "0.0");
    assert_eq!(arr[1], "1.0");
    assert_eq!(arr[2], "0.0");
}

#[test]
fn parse_face_returns_zero_based_indices() {
    let idx = parse_face("f 7//7 8//8 9//9").unwrap();
    assert_eq!(idx, vec![6u16, 7, 8]);
}

#[test]
fn parse_index_reads_one_corner() {
    assert_eq!(parse_index("12//12").unwrap(), 11);
    assert_eq!(parse_index("+5//5").unwrap(), 4);
}

#[test]
fn parse_index_zero_wraps_around() {
    assert_eq!(parse_index("0//0").unwrap(), 0xffff);
}

#[test]
fn parse_index_rejects_overflow() {
    assert!(matches!(parse_index("70000//70000"), Err(ObjError::SyntaxError(_))));
    assert_eq!(parse_index("65535//65535").unwrap(), 65534);
}

#[test]
fn parse_index_rejects_odd_shapes() {
    assert!(matches!(parse_index("1"), Err(ObjError::SyntaxError(_))));
    assert!(matches!(parse_index("1//2//3"), Err(ObjError::SyntaxError(_))));
    assert!(matches!(parse_index("1//"), Err(ObjError::SyntaxError(_))));
    assert!(matches!(parse_index("-1//-1"), Err(ObjError::SyntaxError(_))));
    assert!(matches!(parse_index("1///1"), Err(ObjError::SyntaxError(_))));
}

#[test]
fn float_tokens_follow_the_standard_grammar() {
    for good in ["1", "1.", ".5", "-0.5", "+3", "1e3", "1.5E-3", ".5e+1", "inf", "-inf", "Infinity", "NaN", "nan"] {
        let src = format!("v {} 0 0\n", good);
        assert!(parse(&src).is_ok(), "{} should be accepted", good);
    }
    for bad in [".", "e5", "1e", "1e+", "--1", "1.2.3", "0x1", "infin", "+-1", "nanny"] {
        let src = format!("v {} 0 0\n", bad);
        assert!(parse(&src).is_err(), "{} should be rejected", bad);
    }
}

#[test]
fn the_first_bad_line_wins() {
    let err = parse("v 1 2 3\nv oops 0 0\nf 1//2 1//1 1//1\n").unwrap_err();
    match err {
        ObjError::SyntaxError(line) => assert_eq!(line, "v oops 0 0"),
        other => panic!("expected a syntax error, got {:?}", other),
    }
}

#[test]
fn error_messages_render() {
    let e = ObjError::SyntaxError("v x".to_owned());
    assert_eq!(e.display_message(), "Syntax Error in v x");
    assert_eq!(e.description(), "Syntax Error");
    assert_eq!(ObjError::NotSupported.display_message(), "Feature not supported");
    let io = ObjError::Io("file vanished".to_owned());
    assert_eq!(io.display_message(), "IO error: file vanished");
    assert_eq!(io.description(), "file vanished");
}
