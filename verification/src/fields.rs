//! The decoded metadata block of an image, as far as this library reads it.
//!
//! Decoding and the tag-specific display of a value are the work of the
//! `exif` crate. The items below that are marked `external_body` call it;
//! their contracts are taken on trust.

use vstd::prelude::*;

verus! {

/// `exif::Exif`, a decoded metadata block. Nothing inside it is visible to
/// a proof; what is read of it is named by [`exif_fields`].
#[verifier::external_type_specification]
#[verifier::external_body]
pub struct ExExif(exif::Exif);

/// The attributes that are projected into a record. Each variant is named
/// after the tag of the Exif standard that it stands for.
#[derive(Debug, Clone, Copy, PartialEq, Eq, Structural)]
pub enum MetadataTag {
    /// Model name of the camera.
    Model,
    /// Serial number of the camera body.
    BodySerialNumber,
    /// When the image was stored as digital data.
    DateTimeDigitized,
    /// When the file was last changed.
    DateTime,
    /// How rows and columns of the image are laid out.
    Orientation,
    /// When the picture was taken.
    DateTimeOriginal,
}

/// The number of the primary image among the images of a file.
pub const PRIMARY_IMAGE: u16 = 0;

/// What is read of one field: its value as the decoder displays it, unit
/// included, and the unsigned integer at the position that was asked for,
/// if the field has one there.
#[derive(Debug, PartialEq, Eq)]
pub struct FieldReading {
    pub text: String,
    pub uint: Option<u32>,
}

/// What a field holds, as far as it is read: its value as the decoder
/// displays it, unit included, and its unsigned integers in their order. A
/// field whose value is of another type than unsigned integers has none.
pub struct FieldModel {
    pub text: Seq<char>,
    pub uints: Seq<u32>,
}

/// The unsigned integer at a position, if there is one.
pub open spec fn uint_at(uints: Seq<u32>, position: int) -> Option<u32> {
    if 0 <= position < uints.len() {
        Some(uints[position])
    } else {
        None
    }
}

/// The fields that a decoded block holds, among those that [`MetadataTag`]
/// lists, by tag and by the number of the image that they belong to.
pub uninterp spec fn exif_fields(exif: exif::Exif) -> Map<(MetadataTag, u16), FieldModel>;

/// What decoding the bytes of an image file gives: `None` where the decoder
/// reports an error, else the fields of the decoded block.
pub uninterp spec fn decoded_fields(contents: Seq<u8>) -> Option<
    Map<(MetadataTag, u16), FieldModel>,
>;

/// Calls `exif::Reader::read_from_container` on the bytes of an image file,
/// held in memory. The decoder reports malformed, truncated and unknown
/// input as an error, which is `None` here. The contract claims only that
/// the outcome is a function of the bytes, named [`decoded_fields`]; the
/// time and memory that the decoder takes grow with the block it is given.
#[verifier::external_body]
pub(crate) fn decode(contents: &[u8]) -> (decoded: Option<exif::Exif>)
    ensures
        match decoded {
            Some(exif) => decoded_fields(contents@) == Some(exif_fields(exif)),
            None => decoded_fields(contents@) is None,
        },
{
    exif::Reader::new().read_from_container(&mut std::io::Cursor::new(contents)).ok()
}

/// Calls `exif::Exif::get_field` for the tag in the image of the given
/// number and, where the field is there, `Field::display_value` with
/// `with_unit` for its text and `Value::get_uint` at the given position.
/// The contract claims that the answer is read off the entry of
/// [`exif_fields`] for the tag and the image, and is `None` exactly where
/// there is no such entry.
#[verifier::external_body]
pub(crate) fn field_reading(
    exif: &exif::Exif,
    tag: MetadataTag,
    image: u16,
    position: usize,
) -> (reading: Option<FieldReading>)
    ensures
        match reading {
            Some(found) => exif_fields(*exif).contains_key((tag, image)) && found.text@
                == exif_fields(*exif)[(tag, image)].text && found.uint == uint_at(
                exif_fields(*exif)[(tag, image)].uints,
                position as int,
            ),
            None => !exif_fields(*exif).contains_key((tag, image)),
        },
{
    let outside = match tag {
        MetadataTag::Model => exif::Tag::Model,
        MetadataTag::BodySerialNumber => exif::Tag::BodySerialNumber,
        MetadataTag::DateTimeDigitized => exif::Tag::DateTimeDigitized,
        MetadataTag::DateTime => exif::Tag::DateTime,
        MetadataTag::Orientation => exif::Tag::Orientation,
        MetadataTag::DateTimeOriginal => exif::Tag::DateTimeOriginal,
    };
    match exif.get_field(outside, exif::In(image)) {
        Some(field) => Some(FieldReading {
            text: field.display_value().with_unit(exif).to_string(),
            uint: field.value.get_uint(position),
        }),
        None => None,
    }
}

} // verus!
