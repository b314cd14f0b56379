//! The extractor: from an image as it was read to the document that is
//! stored for it.

use vstd::prelude::*;
use crate::data::{
    export_view, Error, ImageSource, ImageSourceView, JsonExport, JsonExportView,
};
use crate::fields::{decode, decoded_fields};
use crate::func::{
    export_json, exported, lemma_record_shape, parsing_metadata, record_keys, record_members,
};
use crate::json::{json_text, set_number, set_text, JsonModel};
use crate::text::{image_stem, json_name_of, stem_of};

verus! {

/// What extracting the metadata of an image gives, from its directory, its
/// file name and what was found on reading it.
pub open spec fn extraction(
    directory: Seq<char>,
    full_image_name: Seq<char>,
    image: ImageSourceView,
) -> Result<JsonExportView, Error> {
    if full_image_name.len() == 0 {
        Err(Error::EmptyString)
    } else {
        match image {
            ImageSourceView::Unopened => Err(Error::IOError),
            ImageSourceView::Opened { contents, size } => match decoded_fields(contents) {
                None => Err(Error::ExifMetadataError),
                Some(fields) => Ok(
                    exported(
                        directory,
                        stem_of(full_image_name),
                        JsonModel::Object(
                            record_members(fields, stem_of(full_image_name), size),
                        ),
                    ),
                ),
            },
        }
    }
}

/// Tells whether the extractor accepts a file name: it refuses the empty
/// one. A caller asks this before it opens anything.
pub fn check_image_name(full_image_name: &str) -> (result: Result<(), Error>)
    ensures
        result == if full_image_name@.len() == 0 {
            Err::<(), Error>(Error::EmptyString)
        } else {
            Ok::<(), Error>(())
        },
{
    if full_image_name.is_empty() {
        Err(Error::EmptyString)
    } else {
        Ok(())
    }
}

/// Produces the document for one image from its directory, its file name
/// and what was found on reading it.
///
/// The empty name is refused first, then a file that could not be opened,
/// then contents that hold no metadata block that can be decoded. Otherwise
/// the record holds the six attributes of the block, the stem of the file
/// name and the size, and goes into the directory of the image as
/// `<stem>.json`.
pub fn extract_exif_metadata_from_image(
    directory_path: &str,
    full_image_name: &str,
    image: ImageSource,
) -> (result: Result<JsonExport, Error>)
    ensures
        export_view(result) == extraction(directory_path@, full_image_name@, image@),
{
    match check_image_name(full_image_name) {
        Ok(()) => {},
        Err(error) => {
            return Err(error);
        },
    }
    let (contents, image_size) = match image {
        ImageSource::Unopened => {
            return Err(Error::IOError);
        },
        ImageSource::Opened { contents, size } => (contents, size),
    };

    let exif = match decode(contents.as_slice()) {
        Some(exif) => exif,
        None => {
            return Err(Error::ExifMetadataError);
        },
    };

    let image_name = image_stem(full_image_name);

    let mut json = parsing_metadata(exif);
    set_text(&mut json, "file_name", Some(image_name.clone()));
    set_number(&mut json, "size", image_size);

    export_json(directory_path, image_name.as_str(), json)
}

/// An image with a name, which could be opened and whose contents decode,
/// is always extracted. Its document holds the text of a record with
/// exactly the eight keys, in the directory of the image, under the stem of
/// its name.
pub proof fn lemma_decodable_image_is_extracted(
    directory: Seq<char>,
    full_image_name: Seq<char>,
    contents: Seq<u8>,
    size: Option<u64>,
)
    requires
        full_image_name.len() > 0,
        decoded_fields(contents) is Some,
    ensures
        extraction(directory, full_image_name, ImageSourceView::Opened { contents, size }) is Ok,
        ({
            let export = extraction(
                directory,
                full_image_name,
                ImageSourceView::Opened { contents, size },
            )->Ok_0;
            let record = record_members(
                decoded_fields(contents)->0,
                stem_of(full_image_name),
                size,
            );
            &&& export.directory == directory
            &&& export.file_name == json_name_of(stem_of(full_image_name))
            &&& export.contents == json_text(JsonModel::Object(record))
            &&& record.dom() == record_keys()
        }),
{
    lemma_record_shape(decoded_fields(contents)->0, stem_of(full_image_name), size);
}

/// The extractor fails in three ways only, and in this order: for the empty
/// name, for a file that could not be opened, for contents that do not
/// decode.
pub proof fn lemma_extraction_fails_in_order(
    directory: Seq<char>,
    full_image_name: Seq<char>,
    image: ImageSourceView,
)
    ensures
        extraction(directory, full_image_name, image) == Err::<JsonExportView, Error>(
            Error::EmptyString,
        ) <==> full_image_name.len() == 0,
        extraction(directory, full_image_name, image) == Err::<JsonExportView, Error>(
            Error::IOError,
        ) <==> full_image_name.len() > 0 && image is Unopened,
        extraction(directory, full_image_name, image) == Err::<JsonExportView, Error>(
            Error::ExifMetadataError,
        ) <==> full_image_name.len() > 0 && image is Opened && decoded_fields(
            image->contents,
        ) is None,
{
}

/// Extracting the same image again gives the same outcome: the same error,
/// or a document with the same bytes for the same file.
pub proof fn lemma_extraction_repeats(
    directory: Seq<char>,
    full_image_name: Seq<char>,
    image: ImageSourceView,
    first: Result<JsonExport, Error>,
    second: Result<JsonExport, Error>,
)
    requires
        export_view(first) == extraction(directory, full_image_name, image),
        export_view(second) == extraction(directory, full_image_name, image),
    ensures
        export_view(first) == export_view(second),
{
}

/// What storing a document comes to: success where the file was created
/// and written, `IOError` where it could not be created.
pub fn store_outcome(created: bool) -> (result: Result<(), Error>)
    ensures
        result == if created {
            Ok::<(), Error>(())
        } else {
            Err::<(), Error>(Error::IOError)
        },
{
    if created {
        Ok(())
    } else {
        Err(Error::IOError)
    }
}

} // verus!
