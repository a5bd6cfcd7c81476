//! Format dispatch: classify a source file by its lowercased extension.
//!
//! Classification is extension-only by design; file contents are never
//! sniffed to pick a decode path.

use vstd::prelude::*;
use crate::names::{ext_of, lower_bytes, extension_lower};

verus! {

/// The decode path a file is routed to.
#[derive(Clone, Copy, Debug, PartialEq, Eq, Structural)]
pub enum FileClass {
    /// A common raster format (`jpg`, `jpeg`, `png`, `webp`, `gif`):
    /// decoded by the generic codec.
    Standard,
    /// A HEIF/HEIC container (`heic`, `heif`): decoded through the
    /// container library.
    Heif,
    /// Anything else, including names without an extension: skipped.
    Unsupported,
}

/// The lowercased extensions routed to the standard decode path.
pub open spec fn is_standard_ext(e: Seq<u8>) -> bool {
    ||| e =~= seq![106u8, 112u8, 103u8]  // jpg
    ||| e =~= seq![106u8, 112u8, 101u8, 103u8]  // jpeg
    ||| e =~= seq![112u8, 110u8, 103u8]  // png
    ||| e =~= seq![119u8, 101u8, 98u8, 112u8]  // webp
    ||| e =~= seq![103u8, 105u8, 102u8]  // gif
}

/// The lowercased extensions routed to the HEIF decode path.
pub open spec fn is_heif_ext(e: Seq<u8>) -> bool {
    ||| e =~= seq![104u8, 101u8, 105u8, 99u8]  // heic
    ||| e =~= seq![104u8, 101u8, 105u8, 102u8]  // heif
}

/// The class a lowercased extension falls in.
pub open spec fn class_of_ext(e: Seq<u8>) -> FileClass {
    if is_standard_ext(e) {
        FileClass::Standard
    } else if is_heif_ext(e) {
        FileClass::Heif
    } else {
        FileClass::Unsupported
    }
}

/// The class a file name falls in: its extension, lowercased, decides.
pub open spec fn class_of_name(name: Seq<u8>) -> FileClass {
    class_of_ext(lower_bytes(ext_of(name)))
}

/// Classify an already-lowercased extension.
pub fn classify_ext(e: &Vec<u8>) -> (r: FileClass)
    ensures
        r == class_of_ext(e@),
{
    let n = e.len();
    if n == 3 && e[0] == 106 && e[1] == 112 && e[2] == 103 {
        proof { assert(e@ =~= seq![106u8, 112u8, 103u8]); }
        FileClass::Standard
    } else if n == 4 && e[0] == 106 && e[1] == 112 && e[2] == 101
        && e[3] == 103 {
        proof { assert(e@ =~= seq![106u8, 112u8, 101u8, 103u8]); }
        FileClass::Standard
    } else if n == 3 && e[0] == 112 && e[1] == 110 && e[2] == 103 {
        proof { assert(e@ =~= seq![112u8, 110u8, 103u8]); }
        FileClass::Standard
    } else if n == 4 && e[0] == 119 && e[1] == 101 && e[2] == 98
        && e[3] == 112 {
        proof { assert(e@ =~= seq![119u8, 101u8, 98u8, 112u8]); }
        FileClass::Standard
    } else if n == 3 && e[0] == 103 && e[1] == 105 && e[2] == 102 {
        proof { assert(e@ =~= seq![103u8, 105u8, 102u8]); }
        FileClass::Standard
    } else if n == 4 && e[0] == 104 && e[1] == 101 && e[2] == 105
        && e[3] == 99 {
        proof { assert(e@ =~= seq![104u8, 101u8, 105u8, 99u8]); }
        FileClass::Heif
    } else if n == 4 && e[0] == 104 && e[1] == 101 && e[2] == 105
        && e[3] == 102 {
        proof { assert(e@ =~= seq![104u8, 101u8, 105u8, 102u8]); }
        FileClass::Heif
    } else {
        proof {
            assert(!is_standard_ext(e@) && !is_heif_ext(e@)) by {
                if is_standard_ext(e@) || is_heif_ext(e@) {
                }
            }
        }
        FileClass::Unsupported
    }
}

/// Classify a file name by its lowercased extension.
pub fn classify_name(name: &Vec<u8>) -> (r: FileClass)
    ensures
        r == class_of_name(name@),
{
    let ext = extension_lower(name);
    classify_ext(&ext)
}

} // verus!
