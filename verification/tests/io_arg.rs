use io_arg::IoArg;

#[test]
fn parsing() {
    let actual: IoArg = "-".parse().unwrap();
    assert_eq!(IoArg::StdStream, actual);

    let actual: IoArg = "filename".parse().unwrap();
    assert!(matches!(actual, IoArg::File(_)));
}

#[test]
fn dash_is_the_standard_stream() {
    let arg = IoArg::parse("-");
    assert_eq!(arg, IoArg::StdStream);
    assert!(!arg.is_file());
}

#[test]
fn any_other_text_is_a_path_kept_as_written() {
    let texts = [
        "filename",
        "out.txt",
        "./-",
        "--",
        "-x",
        "x-",
        " -",
        "- ",
        "-\n",
        "/dev/stdin",
        "dir/sub/file.TXT",
        "Ünïcödé/päth",
        "\u{2013}",
        "\u{2d}\u{2d}",
    ];
    for text in texts {
        let arg = IoArg::parse(text);
        assert!(arg.is_file(), "{:?}", text);
        assert_eq!(arg, IoArg::File(text.to_string()));
        match arg {
            IoArg::File(path) => assert_eq!(path, text),
            IoArg::StdStream => panic!("{:?} was read as the standard stream", text),
        }
    }
}

#[test]
fn empty_text_is_a_path() {
    let arg = IoArg::parse("");
    assert!(arg.is_file());
    assert_eq!(arg, IoArg::File(String::new()));
}

#[test]
fn text_is_neither_trimmed_nor_folded() {
    assert_eq!(IoArg::parse("  a.txt "), IoArg::File("  a.txt ".to_string()));
    assert_eq!(IoArg::parse("A.TXT"), IoArg::File("A.TXT".to_string()));
    assert_ne!(IoArg::parse("A.TXT"), IoArg::parse("a.txt"));
    assert_eq!(IoArg::parse("a/../b"), IoArg::File("a/../b".to_string()));
}

#[test]
fn every_text_is_accepted() {
    let mut texts: Vec<String> = vec![String::new(), "-".to_string(), "\0".to_string()];
    for len in 1..40usize {
        texts.push("-".repeat(len));
        texts.push("a".repeat(len));
        texts.push("\u{1F600}".repeat(len));
    }
    for text in &texts {
        let parsed: Result<IoArg, _> = text.parse();
        let arg = parsed.unwrap();
        assert_eq!(arg.is_file(), text != "-");
    }
}

#[test]
fn reading_twice_gives_equal_arguments() {
    for text in ["-", "", "filename", "--", "a b"] {
        assert_eq!(IoArg::parse(text), IoArg::parse(text));
        assert!(IoArg::parse(text) == IoArg::parse(text));
    }
}

#[test]
fn different_texts_give_different_arguments() {
    let texts = ["-", "", "filename", "--", "Filename", "filename "];
    for (i, a) in texts.iter().enumerate() {
        for (j, b) in texts.iter().enumerate() {
            assert_eq!(IoArg::parse(a) == IoArg::parse(b), i == j);
        }
    }
}

#[test]
fn equality_goes_by_variant_and_path() {
    assert_eq!(IoArg::StdStream, IoArg::StdStream);
    assert_eq!(IoArg::File("a".to_string()), IoArg::File("a".to_string()));
    assert_ne!(IoArg::File("a".to_string()), IoArg::File("b".to_string()));
    assert_ne!(IoArg::StdStream, IoArg::File("-".to_string()));
    assert_ne!(IoArg::File(String::new()), IoArg::StdStream);
}

#[test]
fn a_file_named_dash_can_only_be_built_by_hand() {
    let by_hand = IoArg::File("-".to_string());
    assert!(by_hand.is_file());
    assert_ne!(by_hand, IoArg::parse("-"));
}

#[test]
fn clone_is_equal_to_what_was_cloned() {
    for arg in [IoArg::StdStream, IoArg::File("some/path".to_string()), IoArg::File(String::new())] {
        let copy = arg.clone();
        assert_eq!(copy, arg);
        assert_eq!(copy.is_file(), arg.is_file());
    }
}

#[test]
fn from_str_agrees_with_parse() {
    for text in ["-", "", "in.txt", "--"] {
        let through_trait: IoArg = text.parse().unwrap();
        assert_eq!(through_trait, IoArg::parse(text));
    }
}

#[test]
fn is_file_tells_the_variants_apart() {
    assert!(!IoArg::StdStream.is_file());
    assert!(IoArg::File("x".to_string()).is_file());
}
