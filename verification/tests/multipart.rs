use futures::executor::block_on;
use futures::stream;
use http::HeaderValue;
use multer::Multipart;
use multer_derive::assemble::assemble;
use multer_derive::derive::{
    derive_from_multipart, AttributeInput, Derivation, MemberInput, RecordInput, Shape,
};
use multer_derive::helpers::MultipartFormBuilder;
use multer_derive::{
    Error, FieldParts, FileCollection, FormContext, FormFile, FromMultipart, FromMultipartField,
    MultipartField, MultipartForm,
};
use std::convert::Infallible;

/// Reads a whole body with the byte-stream parser and buffers its fields.
fn buffer(body: impl AsRef<[u8]>, boundary: &str) -> MultipartForm {
    let chunk: Result<Vec<u8>, Infallible> = Ok(body.as_ref().to_vec());
    let mut multipart = Multipart::new(stream::iter(vec![chunk]), boundary);
    block_on(async {
        let mut parts = Vec::new();
        let mut expected_index = 0;
        while let Some((index, field)) = multipart.next_field_with_idx().await.unwrap() {
            assert_eq!(index, expected_index);
            expected_index += 1;
            let name = field.name().map(|s| s.to_owned());
            let file_name = field.file_name().map(|s| s.to_owned());
            let content_type = field.content_type().map(|m| m.to_string());
            let headers = field.headers().clone();
            let bytes = field.bytes().await.unwrap().to_vec();
            parts.push(FieldParts {
                name,
                file_name,
                content_type,
                headers,
                bytes,
            });
        }
        MultipartForm::with_multipart(parts)
    })
}

fn member(name: &str, ty: &str, directives: Option<&str>) -> MemberInput {
    MemberInput {
        name: name.to_owned(),
        ty: ty.to_owned(),
        attributes: match directives {
            Some(arguments) => vec![AttributeInput {
                path: "multer".to_owned(),
                arguments: arguments.to_owned(),
            }],
            None => vec![],
        },
    }
}

fn record(name: &str, members: Vec<MemberInput>) -> Derivation {
    derive_from_multipart(&RecordInput {
        name: name.to_owned(),
        impl_generics: String::new(),
        ty_generics: String::new(),
        where_clause: String::new(),
        shape: Shape::Named,
        members,
    })
    .unwrap()
}

fn no_with(_path: &String, _form: &MultipartForm, _ctx: FormContext<'_>) -> Result<Member, Error> {
    Err(Error::new("this record names no function"))
}

/// The values that the members of the records below take.
enum Member {
    Text(String),
    Number(u8),
    Flag(bool),
    File(FormFile),
    Files(Vec<FormFile>),
    Truth(Truthy),
    Float(f32),
    Named(Name),
}

impl Member {
    fn text(self) -> String {
        match self {
            Member::Text(text) => text,
            _ => panic!("not a text"),
        }
    }

    fn number(self) -> u8 {
        match self {
            Member::Number(number) => number,
            _ => panic!("not a number"),
        }
    }

    fn flag(self) -> bool {
        match self {
            Member::Flag(flag) => flag,
            _ => panic!("not a flag"),
        }
    }

    fn file(self) -> FormFile {
        match self {
            Member::File(file) => file,
            _ => panic!("not a file"),
        }
    }

    fn files(self) -> Vec<FormFile> {
        match self {
            Member::Files(files) => files,
            _ => panic!("not a list of files"),
        }
    }
}

const MULTI_PART_STR: &str = "--MyBoundary\r\nContent-Disposition: form-data; name=\"name\"\r\n\r\nJohn Doe\r\n--MyBoundary\r\nContent-Disposition: form-data; name=\"email\"\r\n\r\njohndoe@example.com\r\n--MyBoundary\r\nContent-Disposition: form-data; name=\"age\"\r\n\r\n25\r\n--MyBoundary\r\nContent-Disposition: form-data; name=\"file\"; filename=\"example.txt\"\r\nContent-Type: text/plain\r\n\r\nThis is an example file.\r\n--MyBoundary--\r\n";

const PERSON_FORM: &str = "--boundary_string\r\nContent-Disposition: form-data; name=\"name\"\r\n\r\nJohn Smith\r\n--boundary_string\r\nContent-Disposition: form-data; name=\"email\"\r\n\r\njohn@example.com\r\n--boundary_string\r\nContent-Disposition: form-data; name=\"age\"\r\n\r\n25\r\n--boundary_string\r\nContent-Disposition: form-data; name=\"married\"\r\n\r\ntrue\r\n--boundary_string\r\nContent-Disposition: form-data; name=\"photo\"; filename=\"example.jpg\"\r\nContent-Type: image/jpeg\r\n\r\n[Binary data]\r\n--boundary_string--\r\n";

#[test]
fn with_multipart_test() {
    let form = buffer(MULTI_PART_STR, "MyBoundary");

    assert_eq!(form.len(), 4);
    assert_eq!(form[0].name(), Some("name"));
    assert_eq!(form[1].name(), Some("email"));
    assert_eq!(form[2].name(), Some("age"));
    assert_eq!(form[3].name(), Some("file"));
}

#[test]
fn with_multipart_get_test() {
    let form = buffer(MULTI_PART_STR, "MyBoundary");

    assert_eq!(form.get(0).unwrap().name(), Some("name"));
    assert_eq!(form.get(1).unwrap().name(), Some("email"));
    assert_eq!(form.get(2).unwrap().name(), Some("age"));
    assert_eq!(form.get(3).unwrap().name(), Some("file"));
    assert!(form.get(4).is_none());
}

#[test]
fn form_field_text_test() {
    let form = buffer(MULTI_PART_STR, "MyBoundary");

    assert_eq!(form.get(0).unwrap().text(), String::from("John Doe"));
    assert_eq!(
        form.get(1).unwrap().text(),
        String::from("johndoe@example.com")
    );
    assert_eq!(form.get(2).unwrap().text(), String::from("25"));
    assert_eq!(
        form.get(3).unwrap().text(),
        String::from("This is an example file.")
    );
    assert!(form.get(4).is_none());
}

#[test]
fn form_field_file_test() {
    let form = buffer(MULTI_PART_STR, "MyBoundary");

    let file = &form[3];
    assert_eq!(file.text(), "This is an example file.");
    assert_eq!(file.file_name(), Some("example.txt"));
    assert_eq!(file.content_type(), Some(mime::TEXT_PLAIN.as_ref()));

    let headers = file.headers();
    assert_eq!(headers.len(), 2);

    assert_eq!(
        headers.get("content-disposition"),
        Some(&HeaderValue::from_static(
            "form-data; name=\"file\"; filename=\"example.txt\""
        ))
    );

    assert_eq!(
        headers.get("content-type"),
        Some(&HeaderValue::from_static("text/plain"))
    );
}

#[test]
fn positions_are_arrival_order() {
    let form = buffer(MULTI_PART_STR, "MyBoundary");
    for i in 0..form.len() {
        assert_eq!(form[i].index(), i);
        assert_eq!(form.fields()[i].index(), i);
    }
    assert!(!form.is_empty());
    assert!(buffer("--b--\r\n", "b").is_empty());
}

struct Person {
    name: String,
    email: String,
    age: u8,
    married: bool,
    photo: FormFile,
}

impl FromMultipart for Person {
    fn from_multipart(multipart: &MultipartForm, _ctx: FormContext<'_>) -> Result<Self, Error> {
        let name = <String as FromMultipart>::from_multipart(
            multipart,
            FormContext {
                field_name: Some("name"),
            },
        )?;

        let email = <String as FromMultipart>::from_multipart(
            multipart,
            FormContext {
                field_name: Some("email"),
            },
        )?;

        let age = <u8 as FromMultipart>::from_multipart(
            multipart,
            FormContext {
                field_name: Some("age"),
            },
        )?;

        let married = <bool as FromMultipart>::from_multipart(
            multipart,
            FormContext {
                field_name: Some("married"),
            },
        )?;

        let photo = <FormFile as FromMultipart>::from_multipart(
            multipart,
            FormContext {
                field_name: Some("photo"),
            },
        )?;

        Ok(Self {
            name,
            email,
            age,
            married,
            photo,
        })
    }
}

#[test]
fn parse_struct_test() {
    let form = buffer(PERSON_FORM, "boundary_string");
    let person = Person::from_multipart(&form, Default::default()).unwrap();

    assert_eq!(person.name, "John Smith");
    assert_eq!(person.email, "john@example.com");
    assert_eq!(person.age, 25);
    assert_eq!(person.married, true);

    let str = String::from_utf8(person.photo.bytes().to_vec()).unwrap();
    assert_eq!(str, "[Binary data]");
}

/// Converts the members of `Person` by their positions, as the derived
/// implementation would by their types.
fn person_member(index: usize, form: &MultipartForm, ctx: FormContext<'_>) -> Result<Member, Error> {
    match index {
        0 | 1 => String::from_multipart(form, ctx).map(Member::Text),
        2 => u8::from_multipart(form, ctx).map(Member::Number),
        3 => bool::from_multipart(form, ctx).map(Member::Flag),
        _ => FormFile::from_multipart(form, ctx).map(Member::File),
    }
}

fn derived_person(derivation: &Derivation, form: &MultipartForm) -> Result<Person, Error> {
    let mut values = assemble(derivation, form, no_with, person_member)?.into_iter();
    Ok(Person {
        name: values.next().unwrap().text(),
        email: values.next().unwrap().text(),
        age: values.next().unwrap().number(),
        married: values.next().unwrap().flag(),
        photo: values.next().unwrap().file(),
    })
}

#[test]
fn person_from_multipart_test() {
    let derivation = record(
        "Person",
        vec![
            member("name", "String", None),
            member("email", "String", None),
            member("age", "u8", None),
            member("married", "bool", None),
            member("photo", "FormFile", None),
        ],
    );

    let form = buffer(PERSON_FORM, "boundary_string");
    let person = derived_person(&derivation, &form).unwrap();

    assert_eq!(person.name, "John Smith");
    assert_eq!(person.email, "john@example.com");
    assert_eq!(person.age, 25);
    assert_eq!(person.married, true);

    let str = String::from_utf8(person.photo.bytes().to_vec()).unwrap();
    assert_eq!(str, "[Binary data]");
    assert_eq!(person.photo.name(), "photo");
    assert_eq!(person.photo.file_name(), "example.jpg");
    assert_eq!(person.photo.content_type(), "image/jpeg");
}

#[derive(Debug, PartialEq)]
enum Truthy {
    On,
    Off,
}

impl FromMultipartField for Truthy {
    fn from_field(field: &MultipartField, form: &MultipartForm) -> Result<Self, Error> {
        match bool::from_field(field, form)? {
            true => Ok(Truthy::On),
            false => Ok(Truthy::Off),
        }
    }
}

fn generic_member(index: usize, form: &MultipartForm, ctx: FormContext<'_>) -> Result<Member, Error> {
    match index {
        0 | 1 => String::from_multipart(form, ctx).map(Member::Text),
        2 => {
            let text = String::from_multipart(form, ctx)?;
            match text.parse::<f32>() {
                Ok(number) => Ok(Member::Float(number)),
                Err(_) => Err(Error::new("not a number")),
            }
        }
        3 => multer_derive::from_multipart::from_named_field::<Truthy>(form, ctx).map(Member::Truth),
        _ => FormFile::from_multipart(form, ctx).map(Member::File),
    }
}

#[test]
fn generic_person_from_multipart_test() {
    let derivation = derive_from_multipart(&RecordInput {
        name: "Person".to_owned(),
        impl_generics: "<S, N, B>".to_owned(),
        ty_generics: "<S, N, B>".to_owned(),
        where_clause: String::new(),
        shape: Shape::Named,
        members: vec![
            member("name", "S", None),
            member("email", "S", None),
            member("age", "N", None),
            member("married", "B", None),
            member("photo", "FormFile", None),
        ],
    })
    .unwrap();

    let form = buffer(PERSON_FORM, "boundary_string");
    let mut values = assemble(&derivation, &form, no_with, generic_member)
        .unwrap()
        .into_iter();

    assert_eq!(values.next().unwrap().text().as_str(), "John Smith");
    assert_eq!(values.next().unwrap().text().as_str(), "john@example.com");
    match values.next().unwrap() {
        Member::Float(age) => assert_eq!(age, 25.0),
        _ => panic!("not a number"),
    }
    match values.next().unwrap() {
        Member::Truth(married) => assert_eq!(married, Truthy::On),
        _ => panic!("not a truth value"),
    }

    let str = String::from_utf8(values.next().unwrap().file().bytes().to_vec()).unwrap();
    assert_eq!(str, "[Binary data]");
}

#[test]
fn multer_rename_from_multipart_test() {
    let derivation = record(
        "Person",
        vec![
            member("name", "String", None),
            member("email", "String", None),
            member("age", "u8", None),
            member("is_married", "bool", Some("rename = \"married\"")),
            member("image_file", "FormFile", Some("rename = \"photo\"")),
        ],
    );
    assert_eq!(derivation.members[3].member, "is_married");
    assert_eq!(derivation.members[3].match_name, "married");
    assert_eq!(derivation.members[4].match_name, "photo");

    let form = buffer(PERSON_FORM, "boundary_string");
    let person = derived_person(&derivation, &form).unwrap();

    assert_eq!(person.name, "John Smith");
    assert_eq!(person.email, "john@example.com");
    assert_eq!(person.age, 25);
    assert_eq!(person.married, true);

    let str = String::from_utf8(person.photo.bytes().to_vec()).unwrap();
    assert_eq!(str, "[Binary data]");
}

#[test]
fn renamed_member_does_not_bind_to_declared_name() {
    // The form has a field `married`, and none named `wed`.
    let derivation = record(
        "Person",
        vec![
            member("name", "String", None),
            member("email", "String", None),
            member("age", "u8", None),
            member("married", "bool", Some("rename = \"wed\"")),
            member("photo", "FormFile", None),
        ],
    );
    let form = buffer(PERSON_FORM, "boundary_string");
    match derived_person(&derivation, &form) {
        Err(Error::FieldNotFound { name }) => assert_eq!(name, "wed"),
        _ => panic!("the member bound to a field of another name"),
    }
}

#[derive(Debug, PartialEq)]
struct Name(String);

fn name_from_multipart(multipart: &MultipartForm, ctx: FormContext<'_>) -> Result<Name, Error> {
    let field_name = ctx.field_name.ok_or(Error::new("no field to parse"))?;

    let field = multipart
        .get_by_name(field_name)
        .ok_or(Error::new(&format!("`{field_name}` form field was not found")))?;

    let s = String::from_field(field, multipart)?;
    Ok(Name(s))
}

fn person_with(path: &String, form: &MultipartForm, ctx: FormContext<'_>) -> Result<Member, Error> {
    match path.as_str() {
        "name_from_multipart" => name_from_multipart(form, ctx).map(Member::Named),
        _ => Err(Error::new("no such function")),
    }
}

#[test]
fn multer_with_from_multipart_test() {
    let derivation = record(
        "Person",
        vec![
            member("name", "Name", Some("with = \"name_from_multipart\"")),
            member("email", "String", None),
            member("age", "u8", None),
            member("married", "bool", None),
            member("photo", "FormFile", None),
        ],
    );
    assert_eq!(
        derivation.members[0].with.as_deref(),
        Some("name_from_multipart")
    );

    let form = buffer(PERSON_FORM, "boundary_string");
    let mut values = assemble(&derivation, &form, person_with, person_member)
        .unwrap()
        .into_iter();

    match values.next().unwrap() {
        Member::Named(name) => assert_eq!(name, Name("John Smith".to_owned())),
        _ => panic!("not a name"),
    }
    assert_eq!(values.next().unwrap().text(), "john@example.com");
    assert_eq!(values.next().unwrap().number(), 25);
    assert_eq!(values.next().unwrap().flag(), true);

    let str = String::from_utf8(values.next().unwrap().file().bytes().to_vec()).unwrap();
    assert_eq!(str, "[Binary data]");
}

const FILES_FORM: &str = "--boundary\r\nContent-Disposition: form-data; name=\"name\"\r\n\r\nfield1_value\r\n--boundary\r\nContent-Disposition: form-data; name=\"files\"; filename=\"filename1\"\r\nContent-Type: application/octet-stream\r\n\r\n[contents of file1]\r\n--boundary\r\nContent-Disposition: form-data; name=\"files\"; filename=\"filename2\"\r\nContent-Type: application/octet-stream\r\n\r\n[contents of file2]\r\n--boundary\r\nContent-Disposition: form-data; name=\"photo\"; filename=\"filename3\"\r\nContent-Type: application/octet-stream\r\n\r\n[contents of file3]\r\n--boundary--";

fn files_member(index: usize, form: &MultipartForm, ctx: FormContext<'_>) -> Result<Member, Error> {
    match index {
        0 => String::from_multipart(form, ctx).map(Member::Text),
        1 => FormFile::from_multipart(form, ctx).map(Member::File),
        _ => <Vec<FormFile>>::from_multipart(form, ctx).map(Member::Files),
    }
}

#[test]
fn multiple_files_test() {
    let derivation = record(
        "InputWithFiles1",
        vec![
            member("name", "String", None),
            member("photo", "FormFile", None),
            member("files", "Vec<FormFile>", None),
        ],
    );
    let form = buffer(FILES_FORM, "boundary");
    let mut values = assemble(&derivation, &form, no_with, files_member)
        .unwrap()
        .into_iter();
    let name = values.next().unwrap().text();
    let photo = values.next().unwrap().file();
    let files = values.next().unwrap().files();

    // A list takes every field that converts, whatever its name: the two
    // files sent as `files` and the one sent as `photo`.
    assert_eq!(files.len(), 3);
    assert_eq!(name, "field1_value");

    //
    let file1 = String::from_utf8(files[0].bytes().to_vec()).unwrap();
    assert_eq!(files[0].name(), "files");
    assert_eq!(files[0].file_name(), "filename1");
    assert_eq!(file1, "[contents of file1]");

    let file2 = String::from_utf8(files[1].bytes().to_vec()).unwrap();
    assert_eq!(files[1].name(), "files");
    assert_eq!(files[1].file_name(), "filename2");
    assert_eq!(file2, "[contents of file2]");

    assert_eq!(files[2].name(), "photo");
    assert_eq!(files[2].file_name(), "filename3");

    let file3 = String::from_utf8(photo.bytes().to_vec()).unwrap();
    assert_eq!(photo.name(), "photo");
    assert_eq!(photo.file_name(), "filename3");
    assert_eq!(file3, "[contents of file3]");
}

fn collected_member(index: usize, form: &MultipartForm, ctx: FormContext<'_>) -> Result<Member, Error> {
    match index {
        0 => String::from_multipart(form, ctx).map(Member::Text),
        1 => FormFile::from_multipart(form, ctx).map(Member::File),
        _ => FileCollection::from_multipart(form, ctx).map(|files| Member::Files(files.into_inner())),
    }
}

#[test]
fn a_collection_beside_a_photo_holds_the_files_of_its_name() {
    let derivation = record(
        "InputWithFiles1",
        vec![
            member("name", "String", None),
            member("photo", "FormFile", None),
            member("files", "FileCollection", None),
        ],
    );
    let form = buffer(FILES_FORM, "boundary");
    let mut values = assemble(&derivation, &form, no_with, collected_member)
        .unwrap()
        .into_iter();
    assert_eq!(values.next().unwrap().text(), "field1_value");
    let photo = values.next().unwrap().file();
    let files = values.next().unwrap().files();

    assert_eq!(files.len(), 2);
    assert_eq!(files[0].file_name(), "filename1");
    assert_eq!(files[1].file_name(), "filename2");
    assert!(files.iter().all(|f| f.name() == "files"));
    assert_eq!(photo.file_name(), "filename3");
}

#[test]
fn a_list_of_files_takes_every_file_of_the_form() {
    let form = buffer(FILES_FORM, "boundary");
    let files = <Vec<FormFile> as FromMultipart>::from_multipart(
        &form,
        FormContext {
            field_name: Some("files"),
        },
    )
    .unwrap();
    let names: Vec<&str> = files.iter().map(|f| f.file_name()).collect();
    assert_eq!(names, vec!["filename1", "filename2", "filename3"]);
}

fn get_form_data() -> Vec<u8> {
    MultipartFormBuilder::new()
        .text("name", "collections")
        .raw_file(
            "files[]",
            b"[contents of file1]",
            "file1.txt",
            mime::TEXT_PLAIN.as_ref(),
        )
        .raw_file(
            "files[]",
            b"[contents of file2]",
            "file2.txt",
            mime::TEXT_PLAIN.as_ref(),
        )
        .raw_file(
            "files[]",
            b"[contents of file3]",
            "file3.txt",
            mime::TEXT_PLAIN.as_ref(),
        )
        .build("my_boundary")
}

fn renamed_files_member(index: usize, form: &MultipartForm, ctx: FormContext<'_>) -> Result<Member, Error> {
    match index {
        0 => String::from_multipart(form, ctx).map(Member::Text),
        _ => <Vec<FormFile>>::from_multipart(form, ctx).map(Member::Files),
    }
}

#[test]
fn multiple_files_rename_test() {
    let derivation = record(
        "FormWithMultipleFiles",
        vec![
            member("name", "String", None),
            member("files", "Vec<FormFile>", Some("rename = \"files[]\"")),
        ],
    );
    let form_data = get_form_data();
    let form = buffer(&form_data, "my_boundary");
    let mut values = assemble(&derivation, &form, no_with, renamed_files_member)
        .unwrap()
        .into_iter();
    let name = values.next().unwrap().text();
    let files = values.next().unwrap().files();

    assert_eq!(
        files.len(),
        3,
        "actual:\n{}",
        String::from_utf8_lossy(&form_data)
    );
    assert_eq!(name, "collections");

    //
    let file1 = String::from_utf8(files[0].bytes().to_vec()).unwrap();
    assert_eq!(files[0].name(), "files[]");
    assert_eq!(files[0].file_name(), "file1.txt");
    assert_eq!(file1, "[contents of file1]");

    let file2 = String::from_utf8(files[1].bytes().to_vec()).unwrap();
    assert_eq!(files[1].name(), "files[]");
    assert_eq!(files[1].file_name(), "file2.txt");
    assert_eq!(file2, "[contents of file2]");

    let file3 = String::from_utf8(files[2].bytes().to_vec()).unwrap();
    assert_eq!(files[2].name(), "files[]");
    assert_eq!(files[2].file_name(), "file3.txt");
    assert_eq!(file3, "[contents of file3]");
}

#[test]
fn renamed_collection_and_single_file_stay_apart() {
    let body = MultipartFormBuilder::new()
        .raw_file("files[]", b"one", "file1.txt", "text/plain")
        .raw_file("photo", b"picture", "me.png", "image/png")
        .raw_file("files[]", b"two", "file2.txt", "text/plain")
        .raw_file("files[]", b"three", "file3.txt", "text/plain")
        .build("edge");
    let form = buffer(&body, "edge");
    assert_eq!(form.len(), 4);

    let derivation = record(
        "Upload",
        vec![
            member("name", "Option<String>", None),
            member("photo", "FormFile", None),
            member("files", "FileCollection", Some("rename = \"files[]\"")),
        ],
    );
    let convert = |index: usize, form: &MultipartForm, ctx: FormContext<'_>| match index {
        0 => <Option<String>>::from_multipart(form, ctx).map(|name| Member::Text(name.unwrap_or_default())),
        1 => FormFile::from_multipart(form, ctx).map(Member::File),
        _ => FileCollection::from_multipart(form, ctx).map(|files| Member::Files(files.into_inner())),
    };
    let mut values = assemble(&derivation, &form, no_with, convert)
        .unwrap()
        .into_iter();
    assert_eq!(values.next().unwrap().text(), "");
    let photo = values.next().unwrap().file();
    let files = values.next().unwrap().files();

    assert_eq!(photo.name(), "photo");
    assert_eq!(photo.file_name(), "me.png");
    assert_eq!(photo.bytes().as_slice(), b"picture");
    assert_eq!(files.len(), 3);
    let contents: Vec<&[u8]> = files.iter().map(|f| f.bytes().as_slice()).collect();
    assert_eq!(contents, vec![&b"one"[..], &b"two"[..], &b"three"[..]]);
    assert!(files.iter().all(|f| f.name() == "files[]"));
}

#[test]
fn bytes_that_are_no_text_round_trip() {
    let mut builder = MultipartFormBuilder::new();
    builder.raw_file(
        "f",
        vec![0xFFu8, 0x80],
        "x.bin",
        mime::APPLICATION_OCTET_STREAM.as_ref(),
    );
    let form = buffer(builder.build("b"), "b");
    assert_eq!(form.len(), 1);
    assert_eq!(form[0].bytes().as_slice(), &[0xFFu8, 0x80][..]);

    let every_byte: Vec<u8> = (0..=255u8).collect();
    let body = MultipartFormBuilder::new()
        .raw_file("all", every_byte.clone(), "all.bin", "application/octet-stream")
        .text("after", "grüße")
        .build("frontier");
    let form = buffer(&body, "frontier");
    assert_eq!(form.len(), 2);
    assert_eq!(form[0].bytes(), &every_byte);
    assert_eq!(form[0].file_name(), Some("all.bin"));
    assert_eq!(form[1].text(), "grüße");
}

#[test]
fn built_body_round_trips_through_the_parser() {
    let body = MultipartFormBuilder::new()
        .text("title", "A form")
        .raw_file("upload", vec![0u8, 1, 2, 65, 127, 128, 255], "data.bin", "application/octet-stream")
        .text("note", "line one\nline two")
        .raw_file("upload", b"second", "notes.txt", "text/plain")
        .build("frontier");
    let form = buffer(&body, "frontier");

    assert_eq!(form.len(), 4);

    assert_eq!(form[0].name(), Some("title"));
    assert_eq!(form[0].file_name(), None);
    assert_eq!(form[0].content_type(), None);
    assert_eq!(form[0].bytes().as_slice(), b"A form");

    assert_eq!(form[1].name(), Some("upload"));
    assert_eq!(form[1].file_name(), Some("data.bin"));
    assert_eq!(form[1].content_type(), Some("application/octet-stream"));
    assert_eq!(form[1].bytes().as_slice(), &[0u8, 1, 2, 65, 127, 128, 255][..]);

    assert_eq!(form[2].name(), Some("upload"));
    assert_eq!(form[2].file_name(), Some("notes.txt"));
    assert_eq!(form[2].content_type(), Some("text/plain"));
    assert_eq!(form[2].bytes().as_slice(), b"second");

    assert_eq!(form[3].name(), Some("note"));
    assert_eq!(form[3].text(), "line one\nline two");
}
