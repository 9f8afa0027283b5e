//! The format registry: the closed set of supported container formats and
//! their canonical file extensions.
//!
//! Extension lookup is case-insensitive over ASCII letters and considers the
//! text after the last `.` of a file name; a name with no `.` has no
//! extension and matches no format.

use vstd::prelude::*;
use vstd::string::StrSliceExecFns;

verus! {

/// A supported container format.
#[derive(Debug, Clone, Copy, PartialEq, Eq, Structural)]
pub enum ImageFormat {
    PNG,
    JPEG,
    WEBP,
    GIF,
    ICO,
    BMP,
}

/// The canonical (lowercase) extension of a format.
pub open spec fn spec_extension(f: ImageFormat) -> Seq<char> {
    match f {
        ImageFormat::PNG => "png"@,
        ImageFormat::JPEG => "jpg"@,
        ImageFormat::WEBP => "webp"@,
        ImageFormat::GIF => "gif"@,
        ImageFormat::ICO => "ico"@,
        ImageFormat::BMP => "bmp"@,
    }
}

/// `a` equals `b` up to ASCII case, where `b` is already lowercase.
pub open spec fn eq_char_ic(a: char, b: char) -> bool {
    a as u32 == b as u32 || (97 <= b as u32 <= 122 && a as u32 + 32 == b as u32)
}

/// `a` equals `b` pointwise up to ASCII case, where `b` is already lowercase.
pub open spec fn seq_eq_ic(a: Seq<char>, b: Seq<char>) -> bool {
    a.len() == b.len() && (forall|i: int| 0 <= i < a.len() ==> eq_char_ic(a[i], b[i]))
}

/// The format named by an extension (the text after the last dot),
/// ignoring ASCII case.  Both `jpg` and `jpeg` name JPEG.
pub open spec fn spec_format_of_ext(e: Seq<char>) -> Option<ImageFormat> {
    if seq_eq_ic(e, "png"@) {
        Some(ImageFormat::PNG)
    } else if seq_eq_ic(e, "jpg"@) || seq_eq_ic(e, "jpeg"@) {
        Some(ImageFormat::JPEG)
    } else if seq_eq_ic(e, "webp"@) {
        Some(ImageFormat::WEBP)
    } else if seq_eq_ic(e, "gif"@) {
        Some(ImageFormat::GIF)
    } else if seq_eq_ic(e, "ico"@) {
        Some(ImageFormat::ICO)
    } else if seq_eq_ic(e, "bmp"@) {
        Some(ImageFormat::BMP)
    } else {
        None
    }
}

/// The text after the last `.` of `s`, or `None` when `s` holds no `.`.
pub open spec fn spec_ext_after_dot(s: Seq<char>) -> Option<Seq<char>>
    decreases s.len(),
{
    if s.len() == 0 {
        None
    } else if s.last() == '.' {
        Some(Seq::empty())
    } else {
        match spec_ext_after_dot(s.drop_last()) {
            Some(e) => Some(e.push(s.last())),
            None => None,
        }
    }
}

/// The prefix of `s` up to and including the last `.`, or `None` when `s`
/// holds no `.`.
pub open spec fn spec_stem_with_dot(s: Seq<char>) -> Option<Seq<char>>
    decreases s.len(),
{
    if s.len() == 0 {
        None
    } else if s.last() == '.' {
        Some(s)
    } else {
        spec_stem_with_dot(s.drop_last())
    }
}

/// The format a file name maps to: the one named by the text after the last
/// dot, or `None` for an empty, missing or unrecognized extension.
pub open spec fn spec_from_extension(s: Seq<char>) -> Option<ImageFormat> {
    match spec_ext_after_dot(s) {
        Some(e) => spec_format_of_ext(e),
        None => None,
    }
}

/// When `s` holds no dot, it has no extension and no stem.
pub(crate) proof fn lemma_no_dot(s: Seq<char>)
    requires
        forall|j: int| 0 <= j < s.len() ==> s[j] != '.',
    ensures
        spec_ext_after_dot(s) is None,
        spec_stem_with_dot(s) is None,
    decreases s.len(),
{
    if s.len() > 0 {
        lemma_no_dot(s.drop_last());
    }
}

/// When the last dot of `s` stands at `i`, the extension is the text after
/// `i` and the stem is the prefix through `i`.
pub(crate) proof fn lemma_last_dot(s: Seq<char>, i: int)
    requires
        0 <= i < s.len(),
        s[i] == '.',
        forall|j: int| i < j < s.len() ==> s[j] != '.',
    ensures
        spec_ext_after_dot(s) == Some(s.subrange(i + 1, s.len() as int)),
        spec_stem_with_dot(s) == Some(s.subrange(0, i + 1)),
    decreases s.len(),
{
    if i == s.len() - 1 {
        assert(s.subrange(i + 1, s.len() as int) =~= Seq::<char>::empty());
        assert(s.subrange(0, i + 1) =~= s);
    } else {
        lemma_last_dot(s.drop_last(), i);
        let dl = s.drop_last();
        assert(dl.subrange(i + 1, dl.len() as int).push(s.last()) =~= s.subrange(
            i + 1,
            s.len() as int,
        ));
        assert(dl.subrange(0, i + 1) =~= s.subrange(0, i + 1));
    }
}

/// The index of the last `.` of `s`, if any.
pub(crate) fn find_last_dot(s: &str) -> (r: Option<usize>)
    ensures
        match r {
            Some(i) => {
                &&& i < s@.len() <= usize::MAX
                &&& s@[i as int] == '.'
                &&& forall|j: int| i < j < s@.len() ==> s@[j] != '.'
            },
            None => forall|j: int| 0 <= j < s@.len() ==> s@[j] != '.',
        },
{
    let n = s.unicode_len();
    let mut i: usize = n;
    while i > 0
        invariant
            i <= n,
            n == s@.len(),
            forall|j: int| i <= j < n ==> s@[j] != '.',
        decreases i,
    {
        if s.get_char(i - 1) == '.' {
            return Some(i - 1);
        }
        i = i - 1;
    }
    None
}

/// Whether the suffix of `s` from `start` equals `lit` up to ASCII case,
/// where `lit` is lowercase.
fn suffix_eq_ic(s: &str, start: usize, lit: &str) -> (r: bool)
    requires
        start <= s@.len(),
    ensures
        r == seq_eq_ic(s@.subrange(start as int, s@.len() as int), lit@),
{
    let n = s.unicode_len();
    let m = lit.unicode_len();
    if n - start != m {
        return false;
    }
    let mut k: usize = 0;
    while k < m
        invariant
            n - start == m,
            k <= m,
            n == s@.len(),
            m == lit@.len(),
            start <= n,
            forall|j: int| 0 <= j < k ==> eq_char_ic(s@[start + j], lit@[j]),
        decreases m - k,
    {
        let a = s.get_char(start + k);
        let b = lit.get_char(k);
        let av = a as u32;
        let bv = b as u32;
        if !(a == b || (97 <= bv && bv <= 122 && av + 32 == bv)) {
            assert(!eq_char_ic(s@.subrange(start as int, s@.len() as int)[k as int], lit@[k as int]));
            return false;
        }
        k = k + 1;
    }
    assert(seq_eq_ic(s@.subrange(start as int, s@.len() as int), lit@)) by {
        assert(forall|j: int|
            0 <= j < m ==> eq_char_ic(
                #[trigger] s@.subrange(start as int, s@.len() as int)[j],
                lit@[j],
            ));
    }
    true
}

impl ImageFormat {
    /// The format a file name maps to, by its extension; `None` when the
    /// name is absent, has no extension, or the extension is unrecognized.
    pub fn from_extension(filename_opt: Option<&str>) -> (result: Option<ImageFormat>)
        ensures
            match filename_opt {
                Some(f) => result == spec_from_extension(f@),
                None => result is None,
            },
    {
        let filename = match filename_opt {
            Some(f) => f,
            None => {
                return None;
            },
        };
        let dot = match find_last_dot(filename) {
            Some(d) => d,
            None => {
                proof {
                    lemma_no_dot(filename@);
                }
                return None;
            },
        };
        proof {
            lemma_last_dot(filename@, dot as int);
        }
        let start = dot + 1;
        let ghost ext = filename@.subrange(start as int, filename@.len() as int);
        if suffix_eq_ic(filename, start, "png") {
            Some(ImageFormat::PNG)
        } else if suffix_eq_ic(filename, start, "jpg") || suffix_eq_ic(filename, start, "jpeg") {
            Some(ImageFormat::JPEG)
        } else if suffix_eq_ic(filename, start, "webp") {
            Some(ImageFormat::WEBP)
        } else if suffix_eq_ic(filename, start, "gif") {
            Some(ImageFormat::GIF)
        } else if suffix_eq_ic(filename, start, "ico") {
            Some(ImageFormat::ICO)
        } else if suffix_eq_ic(filename, start, "bmp") {
            Some(ImageFormat::BMP)
        } else {
            None
        }
    }

    /// The canonical lowercase extension of this format.
    pub fn to_extension(&self) -> (r: &'static str)
        ensures
            r@ == spec_extension(*self),
    {
        match self {
            ImageFormat::PNG => "png",
            ImageFormat::JPEG => "jpg",
            ImageFormat::WEBP => "webp",
            ImageFormat::GIF => "gif",
            ImageFormat::ICO => "ico",
            ImageFormat::BMP => "bmp",
        }
    }
}

/// `b` is `a` with ASCII uppercase letters lowered and all else unchanged.
pub open spec fn ascii_lower_char(a: char, b: char) -> bool {
    if 65 <= a as u32 <= 90 {
        b as u32 == a as u32 + 32
    } else {
        b == a
    }
}

/// `t` is `s` lowered pointwise over ASCII letters.
pub open spec fn ascii_lower_seq(s: Seq<char>, t: Seq<char>) -> bool {
    t.len() == s.len() && (forall|i: int| 0 <= i < s.len() ==> ascii_lower_char(s[i], t[i]))
}

/// Lowering preserves where the last dot stands, and lowers the extension.
proof fn lemma_ext_after_dot_lower(s: Seq<char>, t: Seq<char>)
    requires
        ascii_lower_seq(s, t),
    ensures
        spec_ext_after_dot(s) is Some <==> spec_ext_after_dot(t) is Some,
        spec_ext_after_dot(s) matches Some(es) ==> (spec_ext_after_dot(t) matches Some(et)
            && ascii_lower_seq(es, et)),
    decreases s.len(),
{
    if s.len() > 0 {
        assert(ascii_lower_char(s.last(), t.last()));
        assert(s.last() == '.' <==> t.last() == '.') by {
            if s.last() == '.' {
                assert(s.last() as u32 == 46);
            }
            if t.last() == '.' {
                assert(t.last() as u32 == 46);
            }
        }
        if s.last() != '.' {
            assert(ascii_lower_seq(s.drop_last(), t.drop_last()));
            lemma_ext_after_dot_lower(s.drop_last(), t.drop_last());
        }
    }
}

/// A lowercase pattern matches `a` up to case exactly when it matches the
/// lowered form of `a`.
proof fn lemma_seq_eq_ic_lower(a: Seq<char>, b: Seq<char>, lit: Seq<char>)
    requires
        ascii_lower_seq(a, b),
        forall|j: int| 0 <= j < lit.len() ==> 97 <= (#[trigger] lit[j]) as u32 <= 122,
    ensures
        seq_eq_ic(a, lit) == seq_eq_ic(b, lit),
{
    if a.len() == lit.len() {
        assert forall|i: int| 0 <= i < a.len() implies eq_char_ic(a[i], lit[i]) == eq_char_ic(
            b[i],
            lit[i],
        ) by {
            assert(ascii_lower_char(a[i], b[i]));
            assert(97 <= lit[i] as u32 <= 122);
        }
        if seq_eq_ic(a, lit) {
            assert(seq_eq_ic(b, lit));
        }
        if seq_eq_ic(b, lit) {
            assert(seq_eq_ic(a, lit));
        }
    }
}

/// The chars of each canonical extension are lowercase ASCII letters.
proof fn lemma_extension_literals_lowercase()
    ensures
        forall|j: int| 0 <= j < "png"@.len() ==> 97 <= (#[trigger] "png"@[j]) as u32 <= 122,
        forall|j: int| 0 <= j < "jpg"@.len() ==> 97 <= (#[trigger] "jpg"@[j]) as u32 <= 122,
        forall|j: int| 0 <= j < "jpeg"@.len() ==> 97 <= (#[trigger] "jpeg"@[j]) as u32 <= 122,
        forall|j: int| 0 <= j < "webp"@.len() ==> 97 <= (#[trigger] "webp"@[j]) as u32 <= 122,
        forall|j: int| 0 <= j < "gif"@.len() ==> 97 <= (#[trigger] "gif"@[j]) as u32 <= 122,
        forall|j: int| 0 <= j < "ico"@.len() ==> 97 <= (#[trigger] "ico"@[j]) as u32 <= 122,
        forall|j: int| 0 <= j < "bmp"@.len() ==> 97 <= (#[trigger] "bmp"@[j]) as u32 <= 122,
{
    reveal_strlit("png");
    reveal_strlit("jpg");
    reveal_strlit("jpeg");
    reveal_strlit("webp");
    reveal_strlit("gif");
    reveal_strlit("ico");
    reveal_strlit("bmp");
}

/// Extension lookup is ASCII case-insensitive: a file name and its
/// ASCII-lowercased form map to the same format (and an unrecognized
/// extension maps to none in both).
pub proof fn lemma_from_extension_case_insensitive(s: Seq<char>, t: Seq<char>)
    requires
        ascii_lower_seq(s, t),
    ensures
        spec_from_extension(s) == spec_from_extension(t),
{
    lemma_ext_after_dot_lower(s, t);
    match (spec_ext_after_dot(s), spec_ext_after_dot(t)) {
        (Some(es), Some(et)) => {
            lemma_extension_literals_lowercase();
            lemma_seq_eq_ic_lower(es, et, "png"@);
            lemma_seq_eq_ic_lower(es, et, "jpg"@);
            lemma_seq_eq_ic_lower(es, et, "jpeg"@);
            lemma_seq_eq_ic_lower(es, et, "webp"@);
            lemma_seq_eq_ic_lower(es, et, "gif"@);
            lemma_seq_eq_ic_lower(es, et, "ico"@);
            lemma_seq_eq_ic_lower(es, et, "bmp"@);
        },
        _ => {},
    }
}

} // verus!

