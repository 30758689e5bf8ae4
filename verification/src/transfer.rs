//! Per-file transfer: destination naming and the format-dependent
//! transform. Files in the designated high-resolution image format are
//! decoded, flipped vertically and re-encoded; everything else is copied
//! byte for byte. A failure is recorded in that file's outcome and reaches
//! no sibling.

use vstd::prelude::*;
use vstd::string::*;
use vstd::slice::slice_to_vec;
use crate::paths::{
    file_name, file_name_spec, join_spec, path_extension, path_extension_spec, path_join, str_eq,
};

verus! {

/// What decoding, vertically flipping and re-encoding an image gives, for
/// the designated format: a function of the input bytes alone, `None` when
/// they do not decode or re-encode.
pub uninterp spec fn flipped_tiff(bytes: Seq<u8>) -> Option<Seq<u8>>;

/// Relies on image::load_from_memory, image::DynamicImage::flipv and
/// image::DynamicImage::write_to with the TIFF format: together they turn
/// the bytes of one image into the bytes of its vertically flipped
/// re-encoding, failing exactly when decoding or re-encoding fails, and
/// their result depends on the input bytes alone.
#[verifier::external_body]
fn flip_image_bytes(bytes: &Vec<u8>) -> (r: Result<Vec<u8>, String>)
    ensures
        r is Ok <==> flipped_tiff(bytes@) is Some,
        r matches Ok(out) ==> Some(out@) == flipped_tiff(bytes@),
{
    let img = image::load_from_memory(bytes).map_err(|e| e.to_string())?;
    let mut cursor = std::io::Cursor::new(Vec::new());
    img.flipv()
        .write_to(&mut cursor, image::ImageFormat::Tiff)
        .map_err(|e| e.to_string())?;
    Ok(cursor.into_inner())
}

/// The designated high-resolution image extension.
pub open spec fn tiff_ext() -> Seq<char> {
    seq!['t', 'i', 'f', 'f']
}

/// Whether the file at `p` is transformed rather than copied.
pub open spec fn is_tiff_path(p: Seq<char>) -> bool {
    path_extension_spec(p) == Some(tiff_ext())
}

/// How one file moves: through the image transform, or as plain bytes.
pub enum TransferKind {
    FlipImage,
    ByteCopy,
}

/// The transform policy, keyed on the source file's extension.
pub fn transfer_kind(source: &str) -> (k: TransferKind)
    ensures
        k is FlipImage <==> is_tiff_path(source@),
{
    proof {
        reveal_strlit("tiff");
        assert("tiff"@ =~= tiff_ext());
    }
    match path_extension(source) {
        Some(e) => {
            if str_eq(e.as_str(), "tiff") {
                TransferKind::FlipImage
            } else {
                TransferKind::ByteCopy
            }
        },
        None => TransferKind::ByteCopy,
    }
}

/// Why one file's transfer failed.
#[derive(Debug)]
pub enum TransferError {
    /// The source path has no final component to name the destination.
    NoFileName { source: String },
    /// The image did not decode or re-encode.
    ImageTransform { source: String, message: String },
}

/// The bytes that reach the destination for content `bytes` of the file at
/// `p`: the flipped re-encoding for the image format, the bytes unchanged
/// otherwise; `None` when the image transform fails.
pub open spec fn transformed_content(p: Seq<char>, bytes: Seq<u8>) -> Option<Seq<u8>> {
    if is_tiff_path(p) {
        flipped_tiff(bytes)
    } else {
        Some(bytes)
    }
}

/// Apply the transform policy to one file's content.
pub fn transform_file(source: &str, bytes: Vec<u8>) -> (r: Result<Vec<u8>, TransferError>)
    ensures
        r is Ok <==> transformed_content(source@, bytes@) is Some,
        r matches Ok(out) ==> Some(out@) == transformed_content(source@, bytes@),
        !is_tiff_path(source@) ==> (r matches Ok(out) && out@ == bytes@),
        r matches Err(e) ==> (e matches TransferError::ImageTransform {
            source: s,
            message: _,
        } && is_tiff_path(source@) && s@ == source@),
{
    match transfer_kind(source) {
        TransferKind::FlipImage => match flip_image_bytes(&bytes) {
            Ok(out) => Ok(out),
            Err(m) => Err(
                TransferError::ImageTransform {
                    source: String::from_str(source),
                    message: m,
                },
            ),
        },
        TransferKind::ByteCopy => Ok(bytes),
    }
}

/// The record of one file's transfer; failure never escapes it.
pub struct TransferOutcome {
    pub source_path: String,
    pub destination_path: String,
    pub result: Result<(), TransferError>,
}

/// One planned transfer: its outcome and, on success, the bytes the
/// destination receives.
pub struct PlannedTransfer {
    pub outcome: TransferOutcome,
    pub content: Option<Vec<u8>>,
}

/// One file handed to the transfer step: its path and its content.
pub struct FileEntry {
    pub path: String,
    pub content: Vec<u8>,
}

/// What `transfer` promises of its record, as a function of the one file it
/// was given and of nothing else.
pub open spec fn planned_for(
    p: PlannedTransfer,
    path: Seq<char>,
    content: Seq<u8>,
    dest_dir: Seq<char>,
) -> bool {
    &&& p.outcome.source_path@ == path
    &&& match file_name_spec(path) {
        Some(n) => {
            &&& p.outcome.destination_path@ == join_spec(dest_dir, n)
            &&& (p.outcome.result is Ok <==> transformed_content(path, content) is Some)
            &&& (p.outcome.result is Ok ==> (p.content matches Some(c) && Some(c@)
                == transformed_content(path, content)))
            &&& (p.outcome.result is Err ==> p.content is None)
            &&& (p.outcome.result is Err ==> (p.outcome.result->Err_0
                matches TransferError::ImageTransform { source: s, message: _ } && s@ == path))
        },
        None => {
            &&& p.outcome.destination_path@ == Seq::<char>::empty()
            &&& p.outcome.result matches Err(TransferError::NoFileName { .. })
            &&& p.content is None
        },
    }
}

/// Move one file into `dest_dir`: name the destination after the source's
/// final component and transform the content.
pub fn transfer(source_path: &String, content: Vec<u8>, dest_dir: &str) -> (r: PlannedTransfer)
    ensures
        planned_for(r, source_path@, content@, dest_dir@),
{
    match file_name(source_path.as_str()) {
        Some(n) => {
            let destination_path = path_join(dest_dir, n.as_str());
            match transform_file(source_path.as_str(), content) {
                Ok(out) => PlannedTransfer {
                    outcome: TransferOutcome {
                        source_path: source_path.clone(),
                        destination_path,
                        result: Ok(()),
                    },
                    content: Some(out),
                },
                Err(e) => PlannedTransfer {
                    outcome: TransferOutcome {
                        source_path: source_path.clone(),
                        destination_path,
                        result: Err(e),
                    },
                    content: None,
                },
            }
        },
        None => PlannedTransfer {
            outcome: TransferOutcome {
                source_path: source_path.clone(),
                destination_path: String::new(),
                result: Err(TransferError::NoFileName { source: source_path.clone() }),
            },
            content: None,
        },
    }
}

/// Transfer every file of one barcode into `dest_dir`. Outcomes line up
/// with the input files one for one, and each is a function of its own file
/// alone: one failure reaches no sibling.
pub fn transfer_all(files: &Vec<FileEntry>, dest_dir: &str) -> (r: Vec<PlannedTransfer>)
    ensures
        r.len() == files.len(),
        forall|i: int|
            0 <= i < files.len() ==> planned_for(
                #[trigger] r@[i],
                files[i].path@,
                files[i].content@,
                dest_dir@,
            ),
{
    let mut r: Vec<PlannedTransfer> = Vec::new();
    let mut idx: usize = 0;
    while idx < files.len()
        invariant
            idx <= files.len(),
            r.len() == idx,
            forall|i: int|
                0 <= i < idx ==> planned_for(
                    #[trigger] r@[i],
                    files[i].path@,
                    files[i].content@,
                    dest_dir@,
                ),
        decreases files.len() - idx,
    {
        let content = slice_to_vec(files[idx].content.as_slice());
        let p = transfer(&files[idx].path, content, dest_dir);
        r.push(p);
        idx = idx + 1;
    }
    r
}

} // verus!
