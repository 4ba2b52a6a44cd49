use multer_derive::helpers::{file_extension, InputFile, InputValue, MultipartFormBuilder, ToBytes};

/// Whether `body` holds the bytes of `text` somewhere.
fn holds(body: &[u8], text: &str) -> bool {
    let wanted = text.as_bytes();
    wanted.is_empty() || body.windows(wanted.len()).any(|window| window == wanted)
}

/// The body as text, for messages.
fn shown(body: &[u8]) -> String {
    String::from_utf8_lossy(body).into_owned()
}

#[test]
fn test_is_text() {
    let text_input = InputValue::Text("hello".to_owned());
    let file_input = InputValue::Files(vec![InputFile {
        contents: vec![],
        file_name: "".to_owned(),
        content_type: mime::APPLICATION_OCTET_STREAM.to_string(),
    }]);

    assert!(text_input.is_text());
    assert!(!file_input.is_text());
}

#[test]
fn test_is_file() {
    let text_input = InputValue::Text("hello".to_owned());
    let file_input = InputValue::Files(vec![InputFile {
        contents: vec![],
        file_name: "".to_owned(),
        content_type: mime::APPLICATION_OCTET_STREAM.to_string(),
    }]);

    assert!(!text_input.is_file());
    assert!(file_input.is_file());
}

#[test]
fn test_text() {
    let mut builder = MultipartFormBuilder::new();
    builder.text("username", "john_doe");

    let form_data = builder.build("my_boundary");

    assert!(holds(&form_data, "Content-Disposition: form-data; name=\"username\"\r\n\r\njohn_doe\r\n"));
}

#[test]
fn test_raw_file() {
    let mut builder = MultipartFormBuilder::new();
    builder.raw_file(
        "file",
        vec![0, 1, 2],
        "file.bin",
        mime::APPLICATION_OCTET_STREAM.as_ref(),
    );

    let form_data = builder.build("my_boundary");

    assert!(holds(&form_data, "Content-Disposition: form-data; name=\"file\"; filename=\"file.bin\"\r\n"));
    assert!(
        holds(&form_data, "Content-Type: application/octet-stream\r\n\r\n\u{0}\u{1}\u{2}\r\n")
    );
}

#[test]
fn test_build() {
    let mut builder = MultipartFormBuilder::new();
    builder.text("username", "john_doe");
    builder.raw_file(
        "file",
        vec![0, 1, 2],
        "file.bin",
        mime::APPLICATION_OCTET_STREAM.as_ref(),
    );

    let form_data = builder.build("my_boundary");

    assert_eq!(
        form_data,
        format!(
            "--my_boundary\r\nContent-Disposition: form-data; name=\"username\"\r\n\r\njohn_doe\r\n--my_boundary\r\nContent-Disposition: form-data; name=\"file\"; filename=\"file.bin\"\r\nContent-Type: application/octet-stream\r\n\r\n\u{0}\u{1}\u{2}\r\n--my_boundary--\r\n"
        )
        .as_bytes()
    );
}

#[test]
fn builder_chains_and_keeps_order() {
    let body = MultipartFormBuilder::new()
        .text("name", "collections")
        .raw_file("files[]", b"one", "file1.txt", "text/plain")
        .text("other", "x")
        .raw_file("files[]", b"two", "file2.txt", "text/plain")
        .build("b");
    assert_eq!(
        body,
        "--b\r\nContent-Disposition: form-data; name=\"name\"\r\n\r\ncollections\r\n--b\r\nContent-Disposition: form-data; name=\"files[]\"; filename=\"file1.txt\"\r\nContent-Type: text/plain\r\n\r\none\r\n--b\r\nContent-Disposition: form-data; name=\"files[]\"; filename=\"file2.txt\"\r\nContent-Type: text/plain\r\n\r\ntwo\r\n--b\r\nContent-Disposition: form-data; name=\"other\"\r\n\r\nx\r\n--b--\r\n"
            .as_bytes()
    );
}

#[test]
fn a_text_replaces_what_was_sent_under_its_name() {
    let body = MultipartFormBuilder::new()
        .text("a", "1")
        .text("b", "2")
        .text("a", "3")
        .build("x");
    assert_eq!(
        body,
        "--x\r\nContent-Disposition: form-data; name=\"a\"\r\n\r\n3\r\n--x\r\nContent-Disposition: form-data; name=\"b\"\r\n\r\n2\r\n--x--\r\n"
            .as_bytes()
    );
}

#[test]
fn a_file_replaces_a_text_and_a_text_replaces_files() {
    let mut builder = MultipartFormBuilder::new();
    builder.text("a", "text").text("b", "kept");
    builder.raw_file("a", b"1", "one", "text/plain");
    assert_eq!(
        builder.build("x"),
        "--x\r\nContent-Disposition: form-data; name=\"a\"; filename=\"one\"\r\nContent-Type: text/plain\r\n\r\n1\r\n--x\r\nContent-Disposition: form-data; name=\"b\"\r\n\r\nkept\r\n--x--\r\n"
            .as_bytes()
    );
    builder.text("a", "again");
    assert_eq!(
        builder.build("x"),
        "--x\r\nContent-Disposition: form-data; name=\"a\"\r\n\r\nagain\r\n--x\r\nContent-Disposition: form-data; name=\"b\"\r\n\r\nkept\r\n--x--\r\n"
            .as_bytes()
    );
}

#[test]
fn an_empty_builder_builds_the_closing_line() {
    assert_eq!(MultipartFormBuilder::new().build("edge"), b"--edge--\r\n");
    assert_eq!(MultipartFormBuilder::new().build(""), b"----\r\n");
}

#[test]
fn building_keeps_the_inputs() {
    let mut builder = MultipartFormBuilder::new();
    builder.text("a", "1");
    let first = builder.build("x");
    let second = builder.build("x");
    assert_eq!(first, second);
    let copy = builder.clone();
    builder.text("b", "2");
    assert_eq!(copy.clone().build("x"), first);
    assert!(builder.build("x").len() > first.len());
}

#[test]
fn bytes_of_a_file_go_in_as_they_are() {
    let body = MultipartFormBuilder::new()
        .raw_file("f", vec![0x41, 0x80, 0xFF], "f.bin", "application/octet-stream")
        .build("x");
    let mut expected = b"--x\r\nContent-Disposition: form-data; name=\"f\"; filename=\"f.bin\"\r\nContent-Type: application/octet-stream\r\n\r\n".to_vec();
    expected.extend_from_slice(&[0x41, 0x80, 0xFF]);
    expected.extend_from_slice(b"\r\n--x--\r\n");
    assert_eq!(body, expected);
}

#[test]
fn texts_and_names_go_in_as_utf8() {
    let body = MultipartFormBuilder::new()
        .text("grüße", "€ 5")
        .build("é");
    assert_eq!(
        body,
        "--é\r\nContent-Disposition: form-data; name=\"grüße\"\r\n\r\n€ 5\r\n--é--\r\n".as_bytes()
    );
}

#[test]
fn contents_of_many_kinds() {
    assert_eq!(vec![1u8, 2].to_bytes(), vec![1, 2]);
    assert_eq!((&vec![1u8, 2]).to_bytes(), vec![1, 2]);
    assert_eq!([1u8, 2, 3].to_bytes(), vec![1, 2, 3]);
    assert_eq!((&[1u8, 2, 3]).to_bytes(), vec![1, 2, 3]);
    assert_eq!((&[1u8, 2, 3][..]).to_bytes(), vec![1, 2, 3]);
    assert_eq!("hé".to_bytes(), vec![b'h', 0xC3, 0xA9]);
    assert_eq!("hé".to_owned().to_bytes(), vec![b'h', 0xC3, 0xA9]);
    assert_eq!(b"".to_bytes(), Vec::<u8>::new());
}

#[test]
fn test_file_from_path() {
    let mut builder = MultipartFormBuilder::new();
    builder.file_from_path("example_file", "example.txt", b"Hello World!".to_vec());

    let form_data = builder.build("my_boundary");

    assert!(
        holds(
            &form_data,
            "Content-Disposition: form-data; name=\"example_file\"; filename=\"example.txt\"\r\n"
        ),
        "actual:\n{}",
        shown(&form_data)
    );
    assert!(
        holds(&form_data, "Content-Type: text/plain\r\n\r\nHello World!"),
        "actual:\n{}",
        shown(&form_data)
    );
}

#[test]
fn the_media_type_is_guessed_from_the_extension() {
    let guess = |file_name: &str| {
        let body = shown(
            &MultipartFormBuilder::new()
                .file_from_path("f", file_name, vec![])
                .build("x"),
        );
        let start = body.find("Content-Type: ").unwrap() + "Content-Type: ".len();
        let end = body[start..].find("\r\n").unwrap() + start;
        body[start..end].to_owned()
    };
    assert_eq!(guess("a.txt"), "text/plain");
    assert_eq!(guess("a.TXT"), "text/plain");
    assert_eq!(guess("photo.final.png"), "image/png");
    assert_eq!(guess("archive.tar.gz"), mime_guess::from_path("archive.tar.gz").first_or_octet_stream().as_ref());
    assert_eq!(guess("noextension"), "application/octet-stream");
    assert_eq!(guess(".png"), "application/octet-stream");
    assert_eq!(guess("trailing."), "application/octet-stream");
    assert_eq!(guess("a.unknown-extension"), "application/octet-stream");
    assert_eq!(guess(""), "application/octet-stream");

    assert_eq!(file_extension("a.txt").as_deref(), Some("txt"));
    assert_eq!(file_extension("a.b.c").as_deref(), Some("c"));
    assert_eq!(file_extension("a.").as_deref(), Some(""));
    assert_eq!(file_extension(".hidden"), None);
    assert_eq!(file_extension(".hidden.txt").as_deref(), Some("txt"));
    assert_eq!(file_extension("plain"), None);
    assert_eq!(file_extension(""), None);
    for name in ["a.txt", "a.b.c", "a.", ".hidden", ".hidden.txt", "plain", "é.ö"] {
        let expected = std::path::Path::new(name).extension().map(|e| e.to_str().unwrap().to_owned());
        assert_eq!(file_extension(name), expected, "{name:?}");
    }
}

fn texts_over(alphabet: &[char], longest: usize) -> Vec<String> {
    let mut all = vec![String::new()];
    let mut last = vec![String::new()];
    for _ in 0..longest {
        let mut next = Vec::new();
        for text in &last {
            for c in alphabet {
                let mut longer = text.clone();
                longer.push(*c);
                next.push(longer);
            }
        }
        all.extend(next.iter().cloned());
        last = next;
    }
    all
}

#[test]
fn extensions_are_those_of_the_standard_library() {
    for name in texts_over(&['.', 'a', 'B', '-'], 6) {
        let expected = std::path::Path::new(&name)
            .extension()
            .map(|e| e.to_str().unwrap().to_owned());
        assert_eq!(file_extension(&name), expected, "{name:?}");
    }
}
