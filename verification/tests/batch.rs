use exif::experimental::Writer;
use exif::{Field, In, Tag, Value};
use export_metadata::batch::{
    check_list_argument, handle_arg_text_file, handle_image_files, plan_from_parts,
    plan_image_file, DATA_DIRECTORY,
};
use export_metadata::data::{Attempt, Error, ImagePlan, ImageSource};
use export_metadata::extract::{
    check_image_name, extract_exif_metadata_from_image, store_outcome,
};
use export_metadata::list::read_text_lines;
use std::io::Cursor;
use std::path::Path;

const PROJECT: &str = "/home/born99/Woka/export_metadata";

/// Files that stand for a disk: each with its full path and its contents.
struct Disk {
    files: Vec<(String, Vec<u8>)>,
    written: Vec<(String, Vec<u8>)>,
}

fn image(model: &str) -> Vec<u8> {
    let fields = vec![
        Field {
            tag: Tag::Model,
            ifd_num: In::PRIMARY,
            value: Value::Ascii(vec![model.as_bytes().to_vec()]),
        },
        Field { tag: Tag::Orientation, ifd_num: In::PRIMARY, value: Value::Short(vec![1]) },
    ];
    let mut writer = Writer::new();
    for field in &fields {
        writer.push_field(field);
    }
    let mut buffer = Cursor::new(Vec::new());
    writer.write(&mut buffer, false).unwrap();
    buffer.into_inner()
}

fn disk() -> Disk {
    let data = format!("{}/{}", PROJECT, DATA_DIRECTORY);
    let lists: Vec<(&str, &str)> = vec![
        ("text.txt", "JAM19896.jpg\nrotated_CCW90.jpg\ntest1.jpg\nCanon_40D.jpg\n"),
        ("text_empty.txt", ""),
        ("text_blank.txt", "\n   \n\n\t\n"),
        ("text_wrong.txt", "abcdef43256.jpg\nnothing.jpg\n"),
        ("text_extra_dash.txt", "/JAM19896.jpg\n/test1.jpg\n"),
        ("text_abs_path.txt", "/home/born99/Woka/JAM19896.jpg\n"),
        ("text_file_ext.txt", "JAM19896.json\ntext.txt\n"),
    ];
    let mut files = Vec::new();
    for (name, lines) in lists {
        files.push((format!("{}/{}", PROJECT, name), lines.as_bytes().to_vec()));
    }
    files.push((format!("{}/JAM19896.jpg", data), image("Canon EOS 5D Mark IV")));
    files.push((format!("{}/rotated_CCW90.jpg", data), image("Rotated")));
    files.push((format!("{}/test1.jpg", data), image("Test")));
    files.push((format!("{}/Canon_40D.jpg", data), image("Canon EOS 40D")));
    files.push((format!("{}/JAM19896.json", data), b"{\"size\":953458}".to_vec()));
    files.push((format!("{}/text.txt", data.clone() + "/sub"), Vec::new()));
    // Images in the working directory, which a bare name would reach.
    files.push(("JAM19896.jpg".to_string(), image("Canon EOS 5D Mark IV")));
    files.push(("relative.jpg".to_string(), image("Relative")));
    files.push(("    ".to_string(), image("Blank")));
    Disk { files, written: Vec::new() }
}

fn read(disk: &Disk, path: &Path) -> Option<Vec<u8>> {
    let wanted = path.to_string_lossy().into_owned();
    for (name, contents) in &disk.files {
        if *name == wanted {
            return Some(contents.clone());
        }
    }
    None
}

/// Plays the part of the program around the library for one image.
fn extract(disk: &mut Disk, directory: &Path, full_image_name: &str) -> Result<(), Error> {
    check_image_name(full_image_name)?;
    let source = match read(disk, &directory.join(full_image_name)) {
        Some(contents) => {
            let size = contents.len() as u64;
            ImageSource::Opened { contents, size: Some(size) }
        },
        None => ImageSource::Unopened,
    };
    let export =
        extract_exif_metadata_from_image(&directory.to_string_lossy(), full_image_name, source)?;
    let target =
        Path::new(&export.directory).join(&export.file_name).to_string_lossy().into_owned();
    disk.written.push((target, export.contents));
    store_outcome(true)
}

fn run_image_files(disk: &mut Disk, paths: Vec<String>) -> Result<Vec<String>, Error> {
    let mut attempts = Vec::new();
    for path in paths {
        match plan_image_file(&path) {
            ImagePlan::SkipEmpty => {},
            ImagePlan::SkipMalformed => {},
            ImagePlan::Extract { directory, file_name } => {
                let outcome = extract(disk, Path::new(&directory), &file_name);
                attempts.push(Attempt { file_name, outcome });
            },
        }
    }
    handle_image_files(attempts)
}

fn run_text_file(disk: &mut Disk, arg_text_file: &str) -> Result<Vec<String>, Error> {
    check_list_argument(arg_text_file)?;
    let directory = Path::new(PROJECT).join(DATA_DIRECTORY);
    let listing = match read(disk, Path::new(arg_text_file)) {
        Some(contents) => {
            let mut attempts = Vec::new();
            for file_name in read_text_lines(&contents) {
                let outcome = extract(disk, &directory, &file_name);
                attempts.push(Attempt { file_name, outcome });
            }
            Some(attempts)
        },
        None => None,
    };
    handle_arg_text_file(arg_text_file, listing)
}

fn failed(file_name: &str, error: Error) -> Attempt {
    Attempt { file_name: file_name.to_string(), outcome: Err(error) }
}

fn done(file_name: &str) -> Attempt {
    Attempt { file_name: file_name.to_string(), outcome: Ok(()) }
}

#[test]
fn test_handle_image_file() {
    let mut disk = disk();

    let case = vec!["/home/born99/Woka/export_metadata/data/JAM19896.jpg".to_string()];
    assert_eq!(run_image_files(&mut disk, case), Ok(vec!["JAM19896.jpg".to_string()]));

    // empty path
    let case = vec!["".to_string()];
    assert_eq!(run_image_files(&mut disk, case), Ok(vec![]));

    // blank path
    let case = vec!["    ".to_string()];
    assert_eq!(run_image_files(&mut disk, case), Ok(vec![]));

    // extra dash
    let case = vec!["/JAM19896.jpg".to_string()];
    assert_eq!(run_image_files(&mut disk, case), Ok(vec![]));

    // relative_path
    let case = vec!["JAM19896.jpg".to_string()];
    assert_eq!(run_image_files(&mut disk, case), Ok(vec![]));

    // no such image
    let case = vec!["abcdef43256.jpg".to_string()];
    assert_eq!(run_image_files(&mut disk, case), Ok(vec![]));

    // wrong file extension
    let case = vec!["JAM19896.json".to_string()];
    assert_eq!(run_image_files(&mut disk, case), Ok(vec![]));
}

#[test]
fn test_handle_arg_text_file() {
    let mut disk = disk();

    // TRUE
    let case = "/home/born99/Woka/export_metadata/text.txt";
    assert_eq!(
        run_text_file(&mut disk, case),
        Ok(vec![
            "JAM19896.jpg".to_string(),
            "rotated_CCW90.jpg".to_string(),
            "test1.jpg".to_string(),
            "Canon_40D.jpg".to_string()
        ])
    );

    // empty path
    let case = "";
    assert_eq!(run_text_file(&mut disk, case), Err(Error::EmptyArgument));

    // wrong path
    let case = "/home/born99/Woka/export_metadata/data/text.txt";
    let status = run_text_file(&mut disk, case);
    assert_eq!(status, Err(Error::IOError));

    // blank path (no suck text file)
    let case = "    ";
    let status = run_text_file(&mut disk, case);
    assert_eq!(status, Err(Error::EmptyArgument));

    // extra dash path
    let case = "/home/born99/Woka/export_metadata/data/text.txt/";
    let status = run_text_file(&mut disk, case);
    assert_eq!(status, Err(Error::IOError));

    // empty txt
    let case = "/home/born99/Woka/export_metadata/text_empty.txt";
    let status = run_text_file(&mut disk, case);
    assert_eq!(status, Ok(vec![]));

    // blank txt
    let case = "/home/born99/Woka/export_metadata/text_blank.txt";
    assert_eq!(run_text_file(&mut disk, case), Ok(vec![]));

    // wrong file in txt
    let case = "/home/born99/Woka/export_metadata/text_wrong.txt";
    assert_eq!(run_text_file(&mut disk, case), Ok(vec![]));

    // extra dash txt
    let case = "/home/born99/Woka/export_metadata/text_extra_dash.txt";
    assert_eq!(run_text_file(&mut disk, case), Ok(vec![]));

    // absolute_path in txt
    let case = "/home/born99/Woka/export_metadata/text_abs_path.txt";
    assert_eq!(run_text_file(&mut disk, case), Ok(vec![]));

    // wrong file extension
    let case = "/home/born99/Woka/export_metadata/text_file_ext.txt";
    assert_eq!(run_text_file(&mut disk, case), Ok(vec![]));
}

#[test]
fn batch_of_failing_entries_is_an_empty_list() {
    let mut disk = disk();
    let case: Vec<String> = ["", "   ", "/bad", "relative.jpg", "missing.jpg", "wrong.json"]
        .iter()
        .map(|path| path.to_string())
        .collect();
    assert_eq!(run_image_files(&mut disk, case), Ok(vec![]));
    assert!(disk.written.is_empty());
}

#[test]
fn bare_file_name_is_passed_over_even_where_the_image_exists() {
    let mut disk = disk();
    assert!(read(&disk, Path::new("").join("relative.jpg").as_path()).is_some());
    let case = vec!["relative.jpg".to_string(), "JAM19896.jpg".to_string(), "    ".to_string()];
    assert_eq!(run_image_files(&mut disk, case), Ok(vec![]));
    assert!(disk.written.is_empty());

    let case = vec![
        "relative.jpg".to_string(),
        "/home/born99/Woka/export_metadata/data/test1.jpg".to_string(),
    ];
    assert_eq!(run_image_files(&mut disk, case), Ok(vec!["test1.jpg".to_string()]));
}

#[test]
fn batch_writes_one_document_beside_each_image() {
    let mut disk = disk();
    let case = vec![
        "/home/born99/Woka/export_metadata/data/test1.jpg".to_string(),
        "/nowhere/test1.jpg".to_string(),
        "/home/born99/Woka/export_metadata/data/Canon_40D.jpg".to_string(),
    ];
    assert_eq!(
        run_image_files(&mut disk, case),
        Ok(vec!["test1.jpg".to_string(), "Canon_40D.jpg".to_string()])
    );
    let targets: Vec<&str> = disk.written.iter().map(|(path, _)| path.as_str()).collect();
    assert_eq!(
        targets,
        vec![
            "/home/born99/Woka/export_metadata/data/test1.json",
            "/home/born99/Woka/export_metadata/data/Canon_40D.json"
        ]
    );
}

#[test]
fn handle_image_files_keeps_successes_in_order() {
    let attempts = vec![
        done("b.jpg"),
        failed("", Error::EmptyString),
        failed("missing.jpg", Error::IOError),
        done("a.jpg"),
        failed("wrong.json", Error::ExifMetadataError),
        done("b.jpg"),
    ];
    assert_eq!(
        handle_image_files(attempts),
        Ok(vec!["b.jpg".to_string(), "a.jpg".to_string(), "b.jpg".to_string()])
    );
    assert_eq!(handle_image_files(Vec::new()), Ok(vec![]));
    assert_eq!(handle_image_files(vec![failed("x", Error::IOError)]), Ok(vec![]));
}

#[test]
fn handle_arg_text_file_checks_the_path_before_the_listing() {
    assert_eq!(handle_arg_text_file("", None), Err(Error::EmptyArgument));
    assert_eq!(handle_arg_text_file("   ", None), Err(Error::EmptyArgument));
    assert_eq!(handle_arg_text_file(" \t", Some(vec![done("a.jpg")])), Err(Error::EmptyArgument));
    assert_eq!(handle_arg_text_file("/no/such/list.txt", None), Err(Error::IOError));
    assert_eq!(handle_arg_text_file("list.txt", Some(Vec::new())), Ok(vec![]));
    assert_eq!(
        handle_arg_text_file(
            "list.txt",
            Some(vec![failed("", Error::EmptyString), failed("   ", Error::IOError)])
        ),
        Ok(vec![])
    );
    assert_eq!(
        handle_arg_text_file(
            " list.txt",
            Some(vec![done("a.jpg"), failed("b.jpg", Error::ExifMetadataError), done("c.jpg")])
        ),
        Ok(vec!["a.jpg".to_string(), "c.jpg".to_string()])
    );
}

#[test]
fn list_argument_is_refused_when_blank() {
    assert_eq!(check_list_argument(""), Err(Error::EmptyArgument));
    assert_eq!(check_list_argument("    "), Err(Error::EmptyArgument));
    assert_eq!(check_list_argument("\n\t"), Err(Error::EmptyArgument));
    assert_eq!(check_list_argument("/home/born99/Woka/export_metadata/text.txt"), Ok(()));
    assert_eq!(check_list_argument(" text.txt "), Ok(()));
}

#[test]
fn plan_from_parts_follows_the_parts() {
    let some = |text: &str| Some(text.to_string());
    assert!(matches!(plan_from_parts("", None, None), ImagePlan::SkipEmpty));
    assert!(matches!(plan_from_parts("", some("/a"), some("b.jpg")), ImagePlan::SkipEmpty));
    assert!(matches!(plan_from_parts("/", None, None), ImagePlan::SkipMalformed));
    assert!(matches!(plan_from_parts("a/..", some("a"), None), ImagePlan::SkipMalformed));
    assert!(matches!(plan_from_parts("x", None, some("x")), ImagePlan::SkipMalformed));
    assert!(matches!(plan_from_parts("a.jpg", some(""), some("a.jpg")), ImagePlan::SkipMalformed));
    assert!(matches!(plan_from_parts("a.jpg", some(""), None), ImagePlan::SkipMalformed));
    assert_eq!(
        plan_from_parts("./a.jpg", some("."), some("a.jpg")),
        ImagePlan::Extract { directory: ".".to_string(), file_name: "a.jpg".to_string() }
    );
    match plan_from_parts("/a/b.jpg", some("/a"), some("b.jpg")) {
        ImagePlan::Extract { directory, file_name } => {
            assert_eq!(directory, "/a");
            assert_eq!(file_name, "b.jpg");
        },
        _ => panic!("the path has both parts"),
    }
}

#[test]
fn plan_image_file_splits_the_path() {
    assert!(matches!(plan_image_file(""), ImagePlan::SkipEmpty));
    assert!(matches!(plan_image_file("/"), ImagePlan::SkipMalformed));
    assert!(matches!(plan_image_file("/data/.."), ImagePlan::SkipMalformed));
    match plan_image_file("/home/born99/Woka/export_metadata/data/JAM19896.jpg") {
        ImagePlan::Extract { directory, file_name } => {
            assert_eq!(directory, "/home/born99/Woka/export_metadata/data");
            assert_eq!(file_name, "JAM19896.jpg");
        },
        _ => panic!("the path has both parts"),
    }
    assert_eq!(
        plan_image_file("/JAM19896.jpg"),
        ImagePlan::Extract { directory: "/".to_string(), file_name: "JAM19896.jpg".to_string() }
    );
    assert_eq!(
        plan_image_file("data/JAM19896.jpg"),
        ImagePlan::Extract { directory: "data".to_string(), file_name: "JAM19896.jpg".to_string() }
    );
    // A bare file name names no directory.
    assert_eq!(plan_image_file("JAM19896.jpg"), ImagePlan::SkipMalformed);
    assert_eq!(plan_image_file("relative.jpg"), ImagePlan::SkipMalformed);
    assert_eq!(plan_image_file("    "), ImagePlan::SkipMalformed);
    assert_eq!(plan_image_file(".."), ImagePlan::SkipMalformed);
}

#[test]
fn list_names_are_resolved_against_the_data_directory() {
    assert_eq!(DATA_DIRECTORY, "data");
}
