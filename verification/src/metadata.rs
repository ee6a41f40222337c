//! Decoded video metadata, computed from the negotiated video info.

use vstd::prelude::*;
use vstd::string::StringSliceAdditionalSpecFns;

verus! {

/// Internal decoded video metadata. The frame rate is kept as the fraction
/// GStreamer reports (`fps_numer / fps_denom` frames per second, `0/1` when
/// unknown).
#[derive(Debug, Clone)]
pub struct InternalVideoMetadata {
    pub width: i32,
    pub height: i32,
    pub fps_numer: i32,
    pub fps_denom: i32,
    pub pixel_aspect_width: i32,
    pub pixel_aspect_height: i32,
    pub display_aspect_width: i32,
    pub display_aspect_height: i32,
    pub interlaced: bool,
    pub color_matrix: String,
    pub color_range: String,
    pub hdr_format: String,
}

/// The video info fields metadata is computed from, as plain values.
#[derive(Debug, Clone)]
pub struct VideoParams {
    pub width: u32,
    pub height: u32,
    pub fps_numer: i32,
    pub fps_denom: i32,
    pub par_numer: i32,
    pub par_denom: i32,
    pub interlaced: bool,
    pub color_matrix: String,
    pub color_range: String,
    pub hdr_format: String,
}

impl InternalVideoMetadata {
    /// Empty metadata (nothing negotiated yet).
    pub fn empty() -> (m: Self)
        ensures
            m.width == 0 && m.height == 0,
            m.fps_numer == 0 && m.fps_denom == 1,
            m.pixel_aspect_width == 0 && m.pixel_aspect_height == 0,
            m.display_aspect_width == 0 && m.display_aspect_height == 0,
            !m.interlaced,
            m.color_matrix@.len() == 0 && m.color_range@.len() == 0 && m.hdr_format@.len() == 0,
    {
        InternalVideoMetadata {
            width: 0,
            height: 0,
            fps_numer: 0,
            fps_denom: 1,
            pixel_aspect_width: 0,
            pixel_aspect_height: 0,
            display_aspect_width: 0,
            display_aspect_height: 0,
            interlaced: false,
            color_matrix: String::new(),
            color_range: String::new(),
            hdr_format: String::new(),
        }
    }

    /// Builds metadata from the video info: the height is at least 1, the
    /// display aspect is the size scaled by the pixel aspect (when that is a
    /// proper fraction), the pixel aspect denominator is at least 1, and an
    /// unknown frame rate is `0/1`. Conversions to `i32` wrap as `as` does.
    pub fn from_video_params(p: VideoParams) -> (m: Self)
        ensures
            m.width == p.width as i32,
            m.height == (if p.height == 0 { 1 } else { p.height }) as i32,
            m.fps_numer == (if p.fps_numer > 0 { p.fps_numer } else { 0 }),
            m.fps_denom == (if p.fps_numer > 0 && p.fps_denom > 1 { p.fps_denom } else { 1 }),
            m.pixel_aspect_width == p.par_numer,
            m.pixel_aspect_height == (if p.par_denom > 1 { p.par_denom } else { 1 }),
            p.par_numer > 0 && p.par_denom > 0 ==> {
                &&& m.display_aspect_width == (m.width * p.par_numer) as i32
                &&& m.display_aspect_height == (m.height * p.par_denom) as i32
            },
            !(p.par_numer > 0 && p.par_denom > 0) ==> {
                &&& m.display_aspect_width == m.width
                &&& m.display_aspect_height == m.height
            },
            m.interlaced == p.interlaced,
            m.color_matrix == p.color_matrix,
            m.color_range == p.color_range,
            m.hdr_format == p.hdr_format,
    {
        let w: i32 = #[verifier::truncate] (p.width as i32);
        let h: i32 = #[verifier::truncate] ((if p.height == 0 { 1 } else { p.height }) as i32);
        let (daw, dah) = if p.par_numer > 0 && p.par_denom > 0 {
            let a: i64 = w as i64;
            let b: i64 = h as i64;
            let pn: i64 = p.par_numer as i64;
            let pd: i64 = p.par_denom as i64;
            proof { lemma_i32_product_fits(a as int, pn as int); lemma_i32_product_fits(b as int, pd as int); }
            let wn: i64 = a * pn;
            let hd: i64 = b * pd;
            (#[verifier::truncate] (wn as i32), #[verifier::truncate] (hd as i32))
        } else {
            (w, h)
        };
        let (fps_numer, fps_denom) = if p.fps_numer > 0 {
            (p.fps_numer, if p.fps_denom > 1 { p.fps_denom } else { 1 })
        } else {
            (0, 1)
        };
        InternalVideoMetadata {
            width: w,
            height: h,
            fps_numer,
            fps_denom,
            pixel_aspect_width: p.par_numer,
            pixel_aspect_height: if p.par_denom > 1 { p.par_denom } else { 1 },
            display_aspect_width: daw,
            display_aspect_height: dah,
            interlaced: p.interlaced,
            color_matrix: p.color_matrix,
            color_range: p.color_range,
            hdr_format: p.hdr_format,
        }
    }

    /// The display aspect ratio as a fraction: the display aspect when its
    /// height is positive, else the pixel size when the height is positive,
    /// else 16:9.
    pub fn display_aspect_fraction(&self) -> (r: (i32, i32))
        ensures
            r == (if self.display_aspect_height > 0 {
                (self.display_aspect_width, self.display_aspect_height)
            } else if self.height > 0 {
                (self.width, self.height)
            } else {
                (16i32, 9i32)
            }),
    {
        if self.display_aspect_height > 0 {
            (self.display_aspect_width, self.display_aspect_height)
        } else if self.height > 0 {
            (self.width, self.height)
        } else {
            (16, 9)
        }
    }
}

impl Default for InternalVideoMetadata {
    /// Empty metadata (nothing negotiated yet).
    fn default() -> (m: Self)
        ensures
            m.width == 0 && m.height == 0,
            m.fps_numer == 0 && m.fps_denom == 1,
            m.pixel_aspect_width == 0 && m.pixel_aspect_height == 0,
            m.display_aspect_width == 0 && m.display_aspect_height == 0,
            !m.interlaced,
            m.color_matrix@.len() == 0 && m.color_range@.len() == 0 && m.hdr_format@.len() == 0,
    {
        InternalVideoMetadata::empty()
    }
}

/// The product of two values in `i32`'s range fits in `i64`.
proof fn lemma_i32_product_fits(a: int, b: int)
    requires
        i32::MIN <= a <= i32::MAX,
        i32::MIN <= b <= i32::MAX,
    ensures
        i64::MIN <= a * b <= i64::MAX,
{
    assert(-0x4000_0000_0000_0000 <= a * b <= 0x4000_0000_0000_0000) by (nonlinear_arith)
        requires
            -0x8000_0000 <= a <= 0x7fff_ffff,
            -0x8000_0000 <= b <= 0x7fff_ffff,
    ;
}

/// `needle` occurs in `hay` at position `i`.
pub open spec fn occurs_at(hay: Seq<u8>, needle: Seq<u8>, i: int) -> bool {
    0 <= i && i + needle.len() <= hay.len() && hay.subrange(i, i + needle.len()) == needle
}

/// `needle` occurs somewhere in `hay`.
pub open spec fn contains_bytes(hay: Seq<u8>, needle: Seq<u8>) -> bool {
    exists|i: int| occurs_at(hay, needle, i)
}

fn bytes_contain(hay: &[u8], needle: &[u8]) -> (r: bool)
    ensures
        r == contains_bytes(hay@, needle@),
{
    if needle.len() > hay.len() {
        return false;
    }
    let hl: usize = hay.len();
    let last: usize = hl - needle.len();
    let mut i: usize = 0;
    while i <= last
        invariant_except_break
            forall|k: int| 0 <= k < i ==> !occurs_at(hay@, needle@, k),
        invariant
            hl == hay@.len(),
            last == hay@.len() - needle@.len(),
            needle@.len() <= hay@.len(),
            i <= last + 1,
        ensures
            forall|k: int| 0 <= k <= last ==> !occurs_at(hay@, needle@, k),
        decreases last + 1 - i,
    {
        let mut j: usize = 0;
        let mut same = true;
        while j < needle.len()
            invariant
                i <= last,
                hl == hay@.len(),
                last == hay@.len() - needle@.len(),
                needle@.len() <= hay@.len(),
                j <= needle@.len(),
                same == (forall|m: int| 0 <= m < j ==> hay@[i + m] == needle@[m]),
            decreases needle@.len() - j,
        {
            if hay[i + j] != needle[j] {
                same = false;
            }
            j = j + 1;
        }
        if same {
            assert(hay@.subrange(i as int, i + needle@.len()) =~= needle@);
            assert(occurs_at(hay@, needle@, i as int));
            return true;
        }
        proof {
            if occurs_at(hay@, needle@, i as int) {
                let m = choose|m: int| 0 <= m < needle@.len() && hay@[i + m] != needle@[m];
                assert(hay@.subrange(i as int, i + needle@.len())[m] == hay@[i + m]);
            }
        }
        if i == last {
            break;
        }
        i = i + 1;
    }
    proof {
        assert forall|k: int| !occurs_at(hay@, needle@, k) by {
            if k > last {
                assert(k + needle@.len() > hay@.len());
            }
        }
    }
    false
}

/// The HDR format a transfer function (by the bytes of its name) indicates:
/// SMPTE 2084 or BT.2020 transfers are HDR10, ARIB / B67 (HLG) transfers are
/// HLG, anything else none (empty).
pub open spec fn hdr_format_for(name: Seq<u8>) -> Seq<char> {
    if contains_bytes(name, "Smpte2084".spec_bytes()) || contains_bytes(name, "Bt2020".spec_bytes()) {
        seq!['H', 'D', 'R', '1', '0']
    } else if contains_bytes(name, "Arib".spec_bytes()) || contains_bytes(name, "B67".spec_bytes()) {
        seq!['H', 'L', 'G']
    } else {
        Seq::empty()
    }
}

/// The HDR format label of a transfer function given by its debug name
/// (`HDR10`, `HLG`, or empty).
pub fn hdr_format_for_transfer(name: &str) -> (r: String)
    ensures
        r@ == hdr_format_for(name.spec_bytes()),
{
    let bytes = name.as_bytes();
    let smpte = "Smpte2084".as_bytes();
    let bt2020 = "Bt2020".as_bytes();
    let arib = "Arib".as_bytes();
    let b67 = "B67".as_bytes();
    if bytes_contain(bytes, smpte) || bytes_contain(bytes, bt2020) {
        proof { reveal_strlit("HDR10"); }
        String::from_str("HDR10")
    } else if bytes_contain(bytes, arib) || bytes_contain(bytes, b67) {
        proof { reveal_strlit("HLG"); }
        String::from_str("HLG")
    } else {
        String::new()
    }
}

} // verus!
