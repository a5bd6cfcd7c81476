//! Source-file names: splitting a name into stem and extension, ASCII
//! lowercasing for case-insensitive dispatch, and deriving the output name.
//!
//! Names are handled as byte strings, so any file name the platform can
//! produce is accepted unchanged.

use vstd::prelude::*;

verus! {

/// Byte value of `.`.
pub const DOT: u8 = 46;

/// Index of the last `.` that separates stem from extension: the greatest
/// `i >= 1` with `name[i] == '.'`, or `-1` if there is none.  A dot at index
/// 0 (a hidden-file style name such as `.bashrc`) does not begin an
/// extension.
pub open spec fn last_dot(name: Seq<u8>) -> int
    decreases name.len(),
{
    if name.len() <= 1 {
        -1
    } else if name[name.len() - 1] == DOT {
        name.len() - 1
    } else {
        last_dot(name.drop_last())
    }
}

/// The name's stem: everything before the last extension-separating dot, or
/// the whole name if there is no such dot.
pub open spec fn stem_of(name: Seq<u8>) -> Seq<u8> {
    if last_dot(name) == -1 {
        name
    } else {
        name.subrange(0, last_dot(name))
    }
}

/// The name's extension: everything after the last extension-separating dot,
/// or empty if there is no such dot.
pub open spec fn ext_of(name: Seq<u8>) -> Seq<u8> {
    if last_dot(name) == -1 {
        Seq::empty()
    } else {
        name.subrange(last_dot(name) + 1, name.len() as int)
    }
}

/// ASCII lowercasing of one byte; other bytes are unchanged.
pub open spec fn lower_byte(b: u8) -> u8 {
    if 65 <= b && b <= 90 {
        (b + 32) as u8
    } else {
        b
    }
}

/// ASCII lowercasing of a byte string.
pub open spec fn lower_bytes(s: Seq<u8>) -> Seq<u8> {
    s.map_values(|b: u8| lower_byte(b))
}

/// `last_dot` stays inside the name and really points at a dot.
pub proof fn lemma_last_dot_in_range(name: Seq<u8>)
    ensures
        -1 <= last_dot(name) < name.len(),
        last_dot(name) >= 0 ==> name[last_dot(name)] == DOT && last_dot(name) >= 1,
    decreases name.len(),
{
    if name.len() <= 1 {
    } else if name[name.len() - 1] == DOT {
    } else {
        lemma_last_dot_in_range(name.drop_last());
        assert(name.drop_last().len() == name.len() - 1);
        if last_dot(name.drop_last()) >= 0 {
            assert(name.drop_last()[last_dot(name.drop_last())] == DOT);
        }
    }
}

/// Locate the extension-separating dot of `name`, if any.
pub fn find_last_dot(name: &Vec<u8>) -> (r: Option<usize>)
    ensures
        match r {
            Some(i) => last_dot(name@) == i && 1 <= i < name@.len(),
            None => last_dot(name@) == -1,
        },
{
    let mut k: usize = name.len();
    proof {
        assert(name@.subrange(0, name@.len() as int) =~= name@);
    }
    while k > 1
        invariant
            k <= name.len(),
            last_dot(name@) == last_dot(name@.subrange(0, k as int)),
        decreases k,
    {
        k = k - 1;
        if name[k] == DOT {
            proof {
                assert(name@.subrange(0, k + 1)[k as int] == name@[k as int]);
            }
            return Some(k);
        }
        proof {
            let pre = name@.subrange(0, k + 1);
            assert(pre.drop_last() =~= name@.subrange(0, k as int));
            assert(pre[pre.len() - 1] == name@[k as int]);
        }
    }
    proof {
        assert(last_dot(name@.subrange(0, k as int)) == -1);
    }
    None
}

/// Lowercased extension of `name`, for case-insensitive format dispatch.
pub fn extension_lower(name: &Vec<u8>) -> (r: Vec<u8>)
    ensures
        r@ == lower_bytes(ext_of(name@)),
{
    let mut out: Vec<u8> = Vec::new();
    let n: usize = name.len();
    proof {
        lemma_last_dot_in_range(name@);
    }
    let start: usize = match find_last_dot(name) {
        Some(i) => i + 1,
        None => {
            proof {
                assert(lower_bytes(ext_of(name@)) =~= Seq::<u8>::empty());
            }
            return out;
        },
    };
    let mut j: usize = start;
    while j < n
        invariant
            n == name@.len(),
            start <= j <= name.len(),
            start == last_dot(name@) + 1,
            ext_of(name@).len() == name@.len() - start,
            lower_bytes(ext_of(name@)).len() == name@.len() - start,
            out@ == lower_bytes(ext_of(name@)).subrange(0, j - start),
        decreases name.len() - j,
    {
        let b = name[j];
        let low: u8 = if 65 <= b && b <= 90 {
            b + 32
        } else {
            b
        };
        out.push(low);
        proof {
            let ext = ext_of(name@);
            assert(ext[j - start] == name@[j as int]);
            assert(lower_bytes(ext)[j - start] == lower_byte(name@[j as int]));
            assert(out@ =~= lower_bytes(ext).subrange(0, j + 1 - start));
        }
        j = j + 1;
    }
    proof {
        assert(out@ =~= lower_bytes(ext_of(name@)));
    }
    out
}

/// The fixed suffix appended to a stem to form the output name:
/// `-thumbnail.png` as bytes.
pub open spec fn thumb_suffix() -> Seq<u8> {
    seq![45u8, 116u8, 104u8, 117u8, 109u8, 98u8, 110u8, 97u8, 105u8, 108u8, 46u8, 112u8, 110u8, 103u8]
}

/// The output name a source name maps to: `<stem>-thumbnail.png`.
pub open spec fn out_name_of(name: Seq<u8>) -> Seq<u8> {
    stem_of(name) + thumb_suffix()
}

/// Derive the output file name for a source name.  Two source names with the
/// same stem but different extensions map to the same output name; the later
/// write then overwrites the earlier one, which is accepted behaviour.
pub fn output_name(name: &Vec<u8>) -> (r: Vec<u8>)
    ensures
        r@ == out_name_of(name@),
{
    proof {
        lemma_last_dot_in_range(name@);
    }
    let stem_len: usize = match find_last_dot(name) {
        Some(i) => i,
        None => name.len(),
    };
    let mut out: Vec<u8> = Vec::new();
    let mut j: usize = 0;
    while j < stem_len
        invariant
            j <= stem_len <= name.len(),
            stem_len as int == if last_dot(name@) == -1 { name@.len() as int } else { last_dot(name@) },
            out@ == stem_of(name@).subrange(0, j as int),
        decreases stem_len - j,
    {
        let b = name[j];
        out.push(b);
        proof {
            assert(out@ =~= stem_of(name@).subrange(0, j + 1));
        }
        j = j + 1;
    }
    proof {
        assert(out@ =~= stem_of(name@));
    }
    out.push(45);
    out.push(116);
    out.push(104);
    out.push(117);
    out.push(109);
    out.push(98);
    out.push(110);
    out.push(97);
    out.push(105);
    out.push(108);
    out.push(46);
    out.push(112);
    out.push(110);
    out.push(103);
    proof {
        assert(out@ =~= out_name_of(name@));
    }
    out
}

} // verus!
