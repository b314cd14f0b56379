use vstd::prelude::*;

verus! {

/// The ways in which handling a list or a single image can fail.
#[derive(Debug, Clone, Copy, PartialEq, Eq, Structural)]
pub enum Error {
    /// A file could not be opened, read or created.
    IOError,
    /// An empty file name reached the extractor.
    EmptyString,
    /// The path of the list file was empty or blank.
    EmptyArgument,
    /// The image holds no metadata block, or one that cannot be decoded.
    ExifMetadataError,
}

impl Error {
    /// The text shown to a user for this error.
    pub open spec fn spec_message(self) -> Seq<char> {
        match self {
            Error::IOError => "File I/O error!"@,
            Error::EmptyString => "Empty string found!"@,
            Error::EmptyArgument => "Argument value is empty!"@,
            Error::ExifMetadataError => "Can not read exif metadata!"@,
        }
    }

    /// Returns the text shown to a user for this error.
    pub fn message(&self) -> (text: String)
        ensures
            text@ == self.spec_message(),
    {
        match self {
            Error::IOError => "File I/O error!".to_owned(),
            Error::EmptyString => "Empty string found!".to_owned(),
            Error::EmptyArgument => "Argument value is empty!".to_owned(),
            Error::ExifMetadataError => "Can not read exif metadata!".to_owned(),
        }
    }
}

/// What a caller found when it went to read an image.
#[derive(Debug, PartialEq, Eq)]
pub enum ImageSource {
    /// The file could not be opened.
    Unopened,
    /// The file was opened. `contents` holds its bytes and `size` the length
    /// that the file system reports for it, where it reports one.
    Opened { contents: Vec<u8>, size: Option<u64> },
}

/// The mathematical value of an [`ImageSource`].
pub enum ImageSourceView {
    Unopened,
    Opened { contents: Seq<u8>, size: Option<u64> },
}

impl View for ImageSource {
    type V = ImageSourceView;

    open spec fn view(&self) -> ImageSourceView {
        match self {
            ImageSource::Unopened => ImageSourceView::Unopened,
            ImageSource::Opened { contents, size } => ImageSourceView::Opened {
                contents: contents@,
                size: *size,
            },
        }
    }
}

/// A JSON document, with the directory and the name of the file that is to
/// hold it.
#[derive(Debug, PartialEq, Eq)]
pub struct JsonExport {
    pub directory: String,
    pub file_name: String,
    pub contents: Vec<u8>,
}

/// The mathematical value of a [`JsonExport`].
pub struct JsonExportView {
    pub directory: Seq<char>,
    pub file_name: Seq<char>,
    pub contents: Seq<u8>,
}

impl View for JsonExport {
    type V = JsonExportView;

    open spec fn view(&self) -> JsonExportView {
        JsonExportView {
            directory: self.directory@,
            file_name: self.file_name@,
            contents: self.contents@,
        }
    }
}

/// The view of what producing a document returned.
pub open spec fn export_view(result: Result<JsonExport, Error>) -> Result<JsonExportView, Error> {
    match result {
        Ok(export) => Ok(export@),
        Err(error) => Err(error),
    }
}

/// One image of a batch that was handed to the extractor, with what became
/// of it.
#[derive(Debug, PartialEq, Eq)]
pub struct Attempt {
    pub file_name: String,
    pub outcome: Result<(), Error>,
}

/// What is done with one entry of a list of image paths.
#[derive(Debug, PartialEq, Eq)]
pub enum ImagePlan {
    /// The entry is the empty string and is passed over.
    SkipEmpty,
    /// The entry names no directory or no file and is passed over: it has
    /// no parent directory or an empty one, as a bare file name has, or it
    /// has no file name.
    SkipMalformed,
    /// The image `file_name` in `directory` is handed to the extractor.
    Extract { directory: String, file_name: String },
}

/// The mathematical value of an [`ImagePlan`].
pub enum ImagePlanView {
    SkipEmpty,
    SkipMalformed,
    Extract { directory: Seq<char>, file_name: Seq<char> },
}

impl View for ImagePlan {
    type V = ImagePlanView;

    open spec fn view(&self) -> ImagePlanView {
        match self {
            ImagePlan::SkipEmpty => ImagePlanView::SkipEmpty,
            ImagePlan::SkipMalformed => ImagePlanView::SkipMalformed,
            ImagePlan::Extract { directory, file_name } => ImagePlanView::Extract {
                directory: directory@,
                file_name: file_name@,
            },
        }
    }
}

} // verus!
