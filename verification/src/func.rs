//! The record of one image and the document that holds it.

use vstd::prelude::*;
use crate::data::{export_view, Error, JsonExport, JsonExportView};
use crate::fields::{
    exif_fields, field_reading, FieldModel, MetadataTag, PRIMARY_IMAGE,
};
use crate::json::{
    json_model, json_text, new_object, number_member, set_number, set_text, text_member, to_vec,
    JsonModel,
};
use crate::text::{json_file_name, json_name_of, strip_quotes, without_quotes};

verus! {

/// The displayed value of a field of the primary image; `None` where the
/// block has no such field.
pub open spec fn display_text(fields: Map<(MetadataTag, u16), FieldModel>, tag: MetadataTag) -> Option<
    Seq<char>,
> {
    if fields.contains_key((tag, PRIMARY_IMAGE)) {
        Some(fields[(tag, PRIMARY_IMAGE)].text)
    } else {
        None
    }
}

/// The displayed value of a field with its double quotes taken out.
pub open spec fn unquoted_text(fields: Map<(MetadataTag, u16), FieldModel>, tag: MetadataTag) -> Option<
    Seq<char>,
> {
    if fields.contains_key((tag, PRIMARY_IMAGE)) {
        Some(without_quotes(fields[(tag, PRIMARY_IMAGE)].text))
    } else {
        None
    }
}

/// The first unsigned integer of a field of the primary image; `None` where
/// the block has no such field or the field holds no unsigned integer.
pub open spec fn first_number(fields: Map<(MetadataTag, u16), FieldModel>, tag: MetadataTag) -> Option<
    u64,
> {
    if fields.contains_key((tag, PRIMARY_IMAGE)) && fields[(tag, PRIMARY_IMAGE)].uints.len() > 0 {
        Some(fields[(tag, PRIMARY_IMAGE)].uints[0] as u64)
    } else {
        None
    }
}

/// The six members that come from the metadata block.
pub open spec fn metadata_members(fields: Map<(MetadataTag, u16), FieldModel>) -> Map<
    Seq<char>,
    JsonModel,
> {
    Map::<Seq<char>, JsonModel>::empty().insert(
        "camera_model"@,
        text_member(unquoted_text(fields, MetadataTag::Model)),
    ).insert(
        "serial_number"@,
        text_member(unquoted_text(fields, MetadataTag::BodySerialNumber)),
    ).insert(
        "created_time"@,
        text_member(display_text(fields, MetadataTag::DateTimeDigitized)),
    ).insert("modified_time"@, text_member(display_text(fields, MetadataTag::DateTime))).insert(
        "orientation"@,
        number_member(first_number(fields, MetadataTag::Orientation)),
    ).insert("capture_time"@, text_member(display_text(fields, MetadataTag::DateTimeOriginal)))
}

/// The whole record of an image: the six members of the block, the stem of
/// the file name, and the size of the file in bytes where it is known.
pub open spec fn record_members(
    fields: Map<(MetadataTag, u16), FieldModel>,
    stem: Seq<char>,
    size: Option<u64>,
) -> Map<Seq<char>, JsonModel> {
    metadata_members(fields).insert("file_name"@, JsonModel::Text(stem)).insert(
        "size"@,
        number_member(size),
    )
}

/// The keys of a record.
pub open spec fn record_keys() -> Set<Seq<char>> {
    set![
        "camera_model"@,
        "serial_number"@,
        "created_time"@,
        "modified_time"@,
        "orientation"@,
        "capture_time"@,
        "file_name"@,
        "size"@,
    ]
}

/// Whether a member is a string or `null`.
pub open spec fn text_or_null(member: JsonModel) -> bool {
    member is Text || member is Null
}

/// Whether a member is a number or `null`.
pub open spec fn number_or_null(member: JsonModel) -> bool {
    member is Number || member is Null
}

/// The eight keys of a record differ from one another.
pub proof fn lemma_record_keys_differ()
    ensures
        record_keys().finite(),
        record_keys().len() == 8,
{
    broadcast use vstd::set::group_set_axioms;

    lemma_keys_spelled_out();
    let one = Set::<Seq<char>>::empty().insert("camera_model"@);
    let two = one.insert("serial_number"@);
    let three = two.insert("created_time"@);
    let four = three.insert("modified_time"@);
    let five = four.insert("orientation"@);
    let six = five.insert("capture_time"@);
    let seven = six.insert("file_name"@);
    let eight = seven.insert("size"@);
    assert(four.len() == 4);
    assert(eight.len() == 8);
    assert(eight == record_keys());
}

/// What tells the eight keys apart: their lengths and, among keys of one
/// length, a character in which they differ.
proof fn lemma_keys_spelled_out()
    ensures
        "camera_model"@.len() == 12,
        "created_time"@.len() == 12,
        "capture_time"@.len() == 12,
        "serial_number"@.len() == 13,
        "modified_time"@.len() == 13,
        "orientation"@.len() == 11,
        "file_name"@.len() == 9,
        "size"@.len() == 4,
        "camera_model"@[1] != "created_time"@[1],
        "camera_model"@[2] != "capture_time"@[2],
        "created_time"@[1] != "capture_time"@[1],
        "serial_number"@[0] != "modified_time"@[0],
{
    reveal_strlit("camera_model");
    reveal_strlit("serial_number");
    reveal_strlit("created_time");
    reveal_strlit("modified_time");
    reveal_strlit("orientation");
    reveal_strlit("capture_time");
    reveal_strlit("file_name");
    reveal_strlit("size");
}

/// For every image, the record holds exactly the eight keys of
/// [`record_keys`]. The camera model, the serial number and the three times
/// are strings or `null`; the orientation and the size are numbers or
/// `null`; the file name is a string, the stem that was given.
pub proof fn lemma_record_shape(
    fields: Map<(MetadataTag, u16), FieldModel>,
    stem: Seq<char>,
    size: Option<u64>,
)
    ensures
        record_members(fields, stem, size).dom() == record_keys(),
        text_or_null(record_members(fields, stem, size)["camera_model"@]),
        text_or_null(record_members(fields, stem, size)["serial_number"@]),
        text_or_null(record_members(fields, stem, size)["created_time"@]),
        text_or_null(record_members(fields, stem, size)["modified_time"@]),
        number_or_null(record_members(fields, stem, size)["orientation"@]),
        record_members(fields, stem, size)["orientation"@] is Null <==> first_number(
            fields,
            MetadataTag::Orientation,
        ) is None,
        text_or_null(record_members(fields, stem, size)["capture_time"@]),
        record_members(fields, stem, size)["file_name"@] == JsonModel::Text(stem),
        number_or_null(record_members(fields, stem, size)["size"@]),
        record_members(fields, stem, size)["size"@] is Null <==> size is None,
{
    lemma_keys_spelled_out();
    assert(record_members(fields, stem, size).dom() =~= record_keys());
}

/// Where the block gives no number for the orientation, that member is
/// `null` too, and each of the six members of the block is a string or
/// `null`.
pub proof fn lemma_record_without_orientation(
    fields: Map<(MetadataTag, u16), FieldModel>,
    stem: Seq<char>,
    size: Option<u64>,
)
    requires
        first_number(fields, MetadataTag::Orientation) is None,
    ensures
        text_or_null(record_members(fields, stem, size)["camera_model"@]),
        text_or_null(record_members(fields, stem, size)["serial_number"@]),
        text_or_null(record_members(fields, stem, size)["created_time"@]),
        text_or_null(record_members(fields, stem, size)["modified_time"@]),
        text_or_null(record_members(fields, stem, size)["orientation"@]),
        text_or_null(record_members(fields, stem, size)["capture_time"@]),
{
    lemma_record_shape(fields, stem, size);
}

/// Projects the six attributes of a decoded block into a JSON object. An
/// attribute that the block lacks becomes `null`.
pub fn parsing_metadata(exif: exif::Exif) -> (json: serde_json::Value)
    ensures
        json_model(json) == JsonModel::Object(metadata_members(exif_fields(exif))),
{
    let camera_model = match field_reading(&exif, MetadataTag::Model, PRIMARY_IMAGE, 0) {
        Some(camera_model) => Some(strip_quotes(camera_model.text.as_str())),
        None => None,
    };

    let serial_number = match field_reading(&exif, MetadataTag::BodySerialNumber, PRIMARY_IMAGE, 0) {
        Some(serial_number) => Some(strip_quotes(serial_number.text.as_str())),
        None => None,
    };

    let created_time = match field_reading(&exif, MetadataTag::DateTimeDigitized, PRIMARY_IMAGE, 0) {
        Some(created_time) => Some(created_time.text),
        None => None,
    };

    let modified_time = match field_reading(&exif, MetadataTag::DateTime, PRIMARY_IMAGE, 0) {
        Some(modified_time) => Some(modified_time.text),
        None => None,
    };

    let orientation = match field_reading(&exif, MetadataTag::Orientation, PRIMARY_IMAGE, 0) {
        Some(orientation) => match orientation.uint {
            Some(number) => Some(number as u64),
            None => None,
        },
        None => None,
    };

    let capture_time = match field_reading(&exif, MetadataTag::DateTimeOriginal, PRIMARY_IMAGE, 0) {
        Some(capture_time) => Some(capture_time.text),
        None => None,
    };

    let mut json = new_object();
    set_text(&mut json, "camera_model", camera_model);
    set_text(&mut json, "serial_number", serial_number);
    set_text(&mut json, "created_time", created_time);
    set_text(&mut json, "modified_time", modified_time);
    set_number(&mut json, "orientation", orientation);
    set_text(&mut json, "capture_time", capture_time);
    json
}

/// The document for a JSON value, stored in the directory under the name
/// that belongs to `image_name`.
pub open spec fn exported(directory: Seq<char>, image_name: Seq<char>, json: JsonModel) -> JsonExportView {
    JsonExportView {
        directory: directory,
        file_name: json_name_of(image_name),
        contents: json_text(json),
    }
}

/// Writes a JSON value out as the document `<image_name>.json` of the
/// directory. Storing the document is left to the caller. Every value is
/// written; the result is never an error.
pub fn export_json(directory_path: &str, image_name: &str, json: serde_json::Value) -> (result:
    Result<JsonExport, Error>)
    ensures
        export_view(result) == Ok::<JsonExportView, Error>(
            exported(directory_path@, image_name@, json_model(json)),
        ),
{
    let file_name = json_file_name(image_name);
    match to_vec(&json) {
        Some(contents) => Ok(JsonExport { directory: directory_path.to_owned(), file_name, contents }),
        None => Err(Error::IOError),
    }
}

/// Two values that hold the same give the same document, whatever else
/// tells them apart.
pub proof fn lemma_export_repeats(
    directory: Seq<char>,
    image_name: Seq<char>,
    first: serde_json::Value,
    second: serde_json::Value,
)
    requires
        json_model(first) == json_model(second),
    ensures
        exported(directory, image_name, json_model(first)) == exported(
            directory,
            image_name,
            json_model(second),
        ),
{
}

} // verus!
