use vstd::prelude::*;
use crate::input::text_equals;
use crate::state::AssetKind;

verus! {

/// The image types that can be uploaded, by (lower-case) file extension.
pub open spec fn supported_extension(ext: Seq<char>) -> bool {
    ext == "png"@ || ext == "jpg"@ || ext == "jpeg"@ || ext == "webp"@ || ext == "gif"@
}

/// Whether an (already lower-cased) file extension is one of png, jpg,
/// jpeg, webp and gif.
pub fn is_supported_image_extension(ext: &str) -> (r: bool)
    ensures
        r == supported_extension(ext@),
{
    text_equals(ext, "png") || text_equals(ext, "jpg") || text_equals(ext, "jpeg")
        || text_equals(ext, "webp") || text_equals(ext, "gif")
}

/// The name under which an uploaded asset is stored: `<kind>.<ext>`, as in
/// `home.png`.
pub fn asset_file_name(kind: AssetKind, ext: &str) -> (r: String)
    ensures
        r@ == kind.key_spec() + "."@ + ext@,
{
    let mut name = String::from_str(kind.key());
    name.append(".");
    name.append(ext);
    name
}

} // verus!
