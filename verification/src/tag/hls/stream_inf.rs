//! The `#EXT-X-STREAM-INF` tag: the values of its attributes, and reading and writing its
//! attributes with each decimal floating point value held as its text.

use vstd::prelude::*;
use vstd::string::StringSliceAdditionalSpecFns;
use vstd::utf8::*;
use vstd::slice::slice_subrange;

use crate::error::{UnrecognizedEnumerationError, ValidationError};
use crate::tag::hls::{
    lemma_attribute_list_text_kind,
    typed_attribute_list_of, typed_attribute_list_spec, comma_integer, comma_quoted, comma_unquoted,
    copy_opt, get_integer, get_quoted, get_resolution, get_unquoted_str, integer_attr,
    line_start, opt_encode, opt_resolution_text, opt_string, push_comma_integer,
    push_comma_quoted, push_comma_resolution, push_comma_unquoted_str, push_integer_attribute,
    quoted_attr, resolution_attr, start_line, unquoted_attribute, utf8_attr, value_bytes,
    TagName,
};
use crate::tag::unknown;
use crate::tag::value::{AttributeListView, DecimalResolution};
use crate::tag::hls::enumerated_string::{
    split_pieces, slices_view, AsStaticCow, EnumeratedStringList, EnumeratedValue,
};
use crate::utils::{
    dec, bytes_eq, lemma_split_append, lemma_split_none, lemma_split_valid_utf8, push_bytes,
    push_str, split_spec, str_eq, str_from_utf8, string_from,
};
use crate::tag::hls::{entries_ok, lemma_attribute_list_text_free_of_line_feed, lemma_dec_unquoted_ok, lemma_entries_ok_one, lemma_entries_ok_push, lemma_line_after_ext, lemma_lookup_push, lemma_push_integer_opt_text, lemma_push_quoted_opt_text, lemma_push_unquoted_opt_text, lemma_tag_name_plain, push_integer_opt, push_quoted_opt, push_unquoted_opt, quoted_value_ok, tag_name_text, unquoted_value_ok, lemma_concat_step, lemma_lookup_push_quoted_opt, lemma_lookup_push_integer_opt, lemma_lookup_push_unquoted_opt, lemma_resolution_value_ok};
use crate::tag::value::{attribute_list_text, lemma_attribute_list_reads_back, AttributeValueView, decimal_resolution_text};
use crate::error::UnknownTagSyntaxError;

verus! {

/// Corresponds to the `#EXT-X-STREAM-INF:HDCP-LEVEL` attribute.
#[derive(Debug, Clone, Copy, PartialEq, Eq, Structural)]
pub enum HdcpLevel {
    /// The content does not require output copy protection.
    NotRequired,
    /// The variant stream could fail to play unless the output is protected by HDCP Type 0 or
    /// equivalent.
    Type0,
    /// The variant stream could fail to play unless the output is protected by HDCP Type 1 or
    /// equivalent.
    Type1,
}

impl AsStaticCow for HdcpLevel {
    open spec fn obeys_text_spec() -> bool {
        true
    }

    open spec fn text(&self) -> Seq<char> {
        match self {
            HdcpLevel::NotRequired => "NONE"@,
            HdcpLevel::Type0 => "TYPE-0"@,
            HdcpLevel::Type1 => "TYPE-1"@,
        }
    }

    fn as_cow(&self) -> (r: String)
        ensures
            r@ == self.text(),
    {
        match self {
            HdcpLevel::NotRequired => string_from("NONE"),
            HdcpLevel::Type0 => string_from("TYPE-0"),
            HdcpLevel::Type1 => string_from("TYPE-1"),
        }
    }
}

impl EnumeratedValue for HdcpLevel {
    open spec fn from_text(s: Seq<char>) -> Option<Self> {
        if s == "NONE"@ {
            Some(HdcpLevel::NotRequired)
        } else if s == "TYPE-0"@ {
            Some(HdcpLevel::Type0)
        } else if s == "TYPE-1"@ {
            Some(HdcpLevel::Type1)
        } else {
            None
        }
    }

    fn try_from_str(value: &str) -> (r: Result<Self, UnrecognizedEnumerationError<'_>>)
        ensures
            match Self::from_text(value@) {
                Some(t) => r == Ok::<Self, UnrecognizedEnumerationError<'_>>(t),
                None => r matches Err(e) && e.value == value,
            },
    {
        if str_eq(value, "NONE") {
            return Ok(HdcpLevel::NotRequired);
        }
        if str_eq(value, "TYPE-0") {
            return Ok(HdcpLevel::Type0);
        }
        if str_eq(value, "TYPE-1") {
            return Ok(HdcpLevel::Type1);
        }
        Err(UnrecognizedEnumerationError::new(value))
    }
}

/// Reading back the text of any [`HdcpLevel`] gives that value.
pub proof fn lemma_hdcp_level_round_trip(v: HdcpLevel)
    ensures
        HdcpLevel::from_text(v.text()) == Some(v),
{
    match v {
        HdcpLevel::NotRequired => {
            reveal_strlit("NONE");
        },
        HdcpLevel::Type0 => {
            reveal_strlit("TYPE-0");
            reveal_strlit("NONE");
            assert("NONE"@.len() != "TYPE-0"@.len());
        },
        HdcpLevel::Type1 => {
            reveal_strlit("TYPE-1");
            reveal_strlit("NONE");
            assert("NONE"@.len() != "TYPE-1"@.len());
            reveal_strlit("TYPE-0");
            assert("TYPE-0"@[5] != "TYPE-1"@[5]);
        },
    }
}

/// Corresponds to the `#EXT-X-STREAM-INF:VIDEO-RANGE` attribute.
#[derive(Debug, Clone, Copy, PartialEq, Eq, Structural)]
pub enum VideoRange {
    /// Video encoded with one of the SDR transfer characteristic functions (code points 1, 6, 13,
    /// 14, 15).
    Sdr,
    /// Video encoded with the HLG transfer characteristic function (code point 18), possibly mixed
    /// with SDR.
    Hlg,
    /// Video encoded with the PQ transfer characteristic function (code point 16), possibly mixed
    /// with SDR or HLG.
    Pq,
}

impl AsStaticCow for VideoRange {
    open spec fn obeys_text_spec() -> bool {
        true
    }

    open spec fn text(&self) -> Seq<char> {
        match self {
            VideoRange::Sdr => "SDR"@,
            VideoRange::Hlg => "HLG"@,
            VideoRange::Pq => "PQ"@,
        }
    }

    fn as_cow(&self) -> (r: String)
        ensures
            r@ == self.text(),
    {
        match self {
            VideoRange::Sdr => string_from("SDR"),
            VideoRange::Hlg => string_from("HLG"),
            VideoRange::Pq => string_from("PQ"),
        }
    }
}

impl EnumeratedValue for VideoRange {
    open spec fn from_text(s: Seq<char>) -> Option<Self> {
        if s == "SDR"@ {
            Some(VideoRange::Sdr)
        } else if s == "HLG"@ {
            Some(VideoRange::Hlg)
        } else if s == "PQ"@ {
            Some(VideoRange::Pq)
        } else {
            None
        }
    }

    fn try_from_str(value: &str) -> (r: Result<Self, UnrecognizedEnumerationError<'_>>)
        ensures
            match Self::from_text(value@) {
                Some(t) => r == Ok::<Self, UnrecognizedEnumerationError<'_>>(t),
                None => r matches Err(e) && e.value == value,
            },
    {
        if str_eq(value, "SDR") {
            return Ok(VideoRange::Sdr);
        }
        if str_eq(value, "HLG") {
            return Ok(VideoRange::Hlg);
        }
        if str_eq(value, "PQ") {
            return Ok(VideoRange::Pq);
        }
        Err(UnrecognizedEnumerationError::new(value))
    }
}

/// Reading back the text of any [`VideoRange`] gives that value.
pub proof fn lemma_video_range_round_trip(v: VideoRange)
    ensures
        VideoRange::from_text(v.text()) == Some(v),
{
    match v {
        VideoRange::Sdr => {
            reveal_strlit("SDR");
        },
        VideoRange::Hlg => {
            reveal_strlit("HLG");
            reveal_strlit("SDR");
            assert("SDR"@[0] != "HLG"@[0]);
        },
        VideoRange::Pq => {
            reveal_strlit("PQ");
            reveal_strlit("SDR");
            assert("SDR"@.len() != "PQ"@.len());
            reveal_strlit("HLG");
            assert("HLG"@.len() != "PQ"@.len());
        },
    }
}

/// Corresponds to the video channel specifier within the `#EXT-X-STREAM-INF:REQ-VIDEO-LAYOUT`
/// attribute.
#[derive(Debug, Clone, Copy, PartialEq, Eq, Structural)]
pub enum VideoChannelSpecifier {
    /// Both left and right eye images are present (stereoscopic).
    Stereo,
    /// A single image is present (monoscopic).
    Mono,
}

impl AsStaticCow for VideoChannelSpecifier {
    open spec fn obeys_text_spec() -> bool {
        true
    }

    open spec fn text(&self) -> Seq<char> {
        match self {
            VideoChannelSpecifier::Stereo => "CH-STEREO"@,
            VideoChannelSpecifier::Mono => "CH-MONO"@,
        }
    }

    fn as_cow(&self) -> (r: String)
        ensures
            r@ == self.text(),
    {
        match self {
            VideoChannelSpecifier::Stereo => string_from("CH-STEREO"),
            VideoChannelSpecifier::Mono => string_from("CH-MONO"),
        }
    }
}

impl EnumeratedValue for VideoChannelSpecifier {
    open spec fn from_text(s: Seq<char>) -> Option<Self> {
        if s == "CH-STEREO"@ {
            Some(VideoChannelSpecifier::Stereo)
        } else if s == "CH-MONO"@ {
            Some(VideoChannelSpecifier::Mono)
        } else {
            None
        }
    }

    fn try_from_str(value: &str) -> (r: Result<Self, UnrecognizedEnumerationError<'_>>)
        ensures
            match Self::from_text(value@) {
                Some(t) => r == Ok::<Self, UnrecognizedEnumerationError<'_>>(t),
                None => r matches Err(e) && e.value == value,
            },
    {
        if str_eq(value, "CH-STEREO") {
            return Ok(VideoChannelSpecifier::Stereo);
        }
        if str_eq(value, "CH-MONO") {
            return Ok(VideoChannelSpecifier::Mono);
        }
        Err(UnrecognizedEnumerationError::new(value))
    }
}

/// Reading back the text of any [`VideoChannelSpecifier`] gives that value.
pub proof fn lemma_video_channel_specifier_round_trip(v: VideoChannelSpecifier)
    ensures
        VideoChannelSpecifier::from_text(v.text()) == Some(v),
{
    match v {
        VideoChannelSpecifier::Stereo => {
            reveal_strlit("CH-STEREO");
        },
        VideoChannelSpecifier::Mono => {
            reveal_strlit("CH-MONO");
            reveal_strlit("CH-STEREO");
            assert("CH-STEREO"@.len() != "CH-MONO"@.len());
        },
    }
}

/// Corresponds to the video projection specifier within the `#EXT-X-STREAM-INF:REQ-VIDEO-LAYOUT`
/// attribute.
#[derive(Debug, Clone, Copy, PartialEq, Eq, Structural)]
pub enum VideoProjectionSpecifier {
    /// There is no projection.
    Rectilinear,
    /// A 360 degree spherical projection.
    Equirectangular,
    /// A 180 degree spherical projection.
    HalfEquirectangular,
    /// A parametric spherical projection.
    ParametricImmersive,
}

impl AsStaticCow for VideoProjectionSpecifier {
    open spec fn obeys_text_spec() -> bool {
        true
    }

    open spec fn text(&self) -> Seq<char> {
        match self {
            VideoProjectionSpecifier::Rectilinear => "PROJ-RECT"@,
            VideoProjectionSpecifier::Equirectangular => "PROJ-EQUI"@,
            VideoProjectionSpecifier::HalfEquirectangular => "PROJ-HEQU"@,
            VideoProjectionSpecifier::ParametricImmersive => "PROJ-PRIM"@,
        }
    }

    fn as_cow(&self) -> (r: String)
        ensures
            r@ == self.text(),
    {
        match self {
            VideoProjectionSpecifier::Rectilinear => string_from("PROJ-RECT"),
            VideoProjectionSpecifier::Equirectangular => string_from("PROJ-EQUI"),
            VideoProjectionSpecifier::HalfEquirectangular => string_from("PROJ-HEQU"),
            VideoProjectionSpecifier::ParametricImmersive => string_from("PROJ-PRIM"),
        }
    }
}

impl EnumeratedValue for VideoProjectionSpecifier {
    open spec fn from_text(s: Seq<char>) -> Option<Self> {
        if s == "PROJ-RECT"@ {
            Some(VideoProjectionSpecifier::Rectilinear)
        } else if s == "PROJ-EQUI"@ {
            Some(VideoProjectionSpecifier::Equirectangular)
        } else if s == "PROJ-HEQU"@ {
            Some(VideoProjectionSpecifier::HalfEquirectangular)
        } else if s == "PROJ-PRIM"@ {
            Some(VideoProjectionSpecifier::ParametricImmersive)
        } else {
            None
        }
    }

    fn try_from_str(value: &str) -> (r: Result<Self, UnrecognizedEnumerationError<'_>>)
        ensures
            match Self::from_text(value@) {
                Some(t) => r == Ok::<Self, UnrecognizedEnumerationError<'_>>(t),
                None => r matches Err(e) && e.value == value,
            },
    {
        if str_eq(value, "PROJ-RECT") {
            return Ok(VideoProjectionSpecifier::Rectilinear);
        }
        if str_eq(value, "PROJ-EQUI") {
            return Ok(VideoProjectionSpecifier::Equirectangular);
        }
        if str_eq(value, "PROJ-HEQU") {
            return Ok(VideoProjectionSpecifier::HalfEquirectangular);
        }
        if str_eq(value, "PROJ-PRIM") {
            return Ok(VideoProjectionSpecifier::ParametricImmersive);
        }
        Err(UnrecognizedEnumerationError::new(value))
    }
}

/// Reading back the text of any [`VideoProjectionSpecifier`] gives that value.
pub proof fn lemma_video_projection_specifier_round_trip(v: VideoProjectionSpecifier)
    ensures
        VideoProjectionSpecifier::from_text(v.text()) == Some(v),
{
    match v {
        VideoProjectionSpecifier::Rectilinear => {
            reveal_strlit("PROJ-RECT");
        },
        VideoProjectionSpecifier::Equirectangular => {
            reveal_strlit("PROJ-EQUI");
            reveal_strlit("PROJ-RECT");
            assert("PROJ-RECT"@[5] != "PROJ-EQUI"@[5]);
        },
        VideoProjectionSpecifier::HalfEquirectangular => {
            reveal_strlit("PROJ-HEQU");
            reveal_strlit("PROJ-RECT");
            assert("PROJ-RECT"@[5] != "PROJ-HEQU"@[5]);
            reveal_strlit("PROJ-EQUI");
            assert("PROJ-EQUI"@[5] != "PROJ-HEQU"@[5]);
        },
        VideoProjectionSpecifier::ParametricImmersive => {
            reveal_strlit("PROJ-PRIM");
            reveal_strlit("PROJ-RECT");
            assert("PROJ-RECT"@[5] != "PROJ-PRIM"@[5]);
            reveal_strlit("PROJ-EQUI");
            assert("PROJ-EQUI"@[5] != "PROJ-PRIM"@[5]);
            reveal_strlit("PROJ-HEQU");
            assert("PROJ-HEQU"@[5] != "PROJ-PRIM"@[5]);
        },
    }
}

/// Whether `x` starts with the bytes `prefix`.
pub open spec fn starts_with(x: Seq<u8>, prefix: Seq<u8>) -> bool {
    x.len() >= prefix.len() && x.subrange(0, prefix.len() as int) == prefix
}

/// The first of the specifiers `p` that starts with `prefix`, if any.
pub open spec fn first_with_prefix(p: Seq<Seq<u8>>, prefix: Seq<u8>) -> Option<Seq<u8>>
    decreases p.len(),
{
    if p.len() == 0 {
        None
    } else if starts_with(p[0], prefix) {
        Some(p[0])
    } else {
        first_with_prefix(p.drop_first(), prefix)
    }
}

/// The list that the first specifier starting with `prefix` holds (an empty list when there is
/// none).
pub open spec fn layout_entry(b: Seq<u8>, prefix: Seq<u8>) -> Seq<u8> {
    match first_with_prefix(split_spec(b, 47u8), prefix) {
        Some(x) => x,
        None => Seq::empty(),
    }
}

/// Whether a specifier is neither a channel (`CH`) nor a projection (`PROJ`) specifier.
pub open spec fn is_unknown_entry(x: Seq<u8>) -> bool {
    !starts_with(x, "CH".spec_bytes()) && !starts_with(x, "PROJ".spec_bytes())
}

/// The text bytes of a layout built from the texts of a channel list and a projection list:
/// the non-empty ones, joined with `/`.
pub open spec fn layout_text(channels: Seq<u8>, projection: Seq<u8>) -> Seq<u8> {
    if channels.len() == 0 {
        projection
    } else if projection.len() == 0 {
        channels
    } else {
        channels + seq![47u8] + projection
    }
}

/// Corresponds to the `#EXT-X-STREAM-INF:REQ-VIDEO-LAYOUT` attribute: an unordered, slash
/// separated list of specifiers, where each specifier is a list of enumerated strings that share
/// a common prefix (`CH-` for channels, `PROJ-` for projection).
#[derive(Debug)]
pub struct VideoLayout {
    inner: Vec<u8>,
}

impl VideoLayout {
    #[verifier::type_invariant]
    spec fn inner_is_text(self) -> bool {
        valid_utf8(self.inner@)
    }

    /// The bytes of the text of the layout.
    pub closed spec fn view(&self) -> Seq<u8> {
        self.inner@
    }

    /// A layout with the text `value`.
    pub fn from_str(value: &str) -> (r: Self)
        ensures
            r.view() == value.spec_bytes(),
    {
        let mut inner: Vec<u8> = Vec::new();
        push_bytes(&mut inner, value.as_bytes());
        proof {
            encode_utf8_valid_utf8(value@);
        }
        VideoLayout { inner }
    }

    /// Constructs a layout from a channel list and a projection list.
    pub fn new(
        channels: EnumeratedStringList<VideoChannelSpecifier>,
        projection: EnumeratedStringList<VideoProjectionSpecifier>,
    ) -> (r: Self)
        ensures
            r.view() == layout_text(channels.view(), projection.view()),
    {
        let c = channels.as_ref();
        let p = projection.as_ref();
        let mut inner: Vec<u8> = Vec::new();
        push_str(&mut inner, c);
        if c.as_bytes().len() != 0 && p.as_bytes().len() != 0 {
            inner.push(47u8);
        }
        push_str(&mut inner, p);
        proof {
            encode_utf8_valid_utf8(c@);
            encode_utf8_valid_utf8(p@);
            let slash = seq![47u8];
            assert(valid_utf8(slash)) by {
                reveal_with_fuel(valid_utf8, 2);
                assert(pop_first_scalar(slash) =~= Seq::<u8>::empty());
            }
            let a = c.spec_bytes();
            let b = p.spec_bytes();
            if a.len() != 0 && b.len() != 0 {
                assert(inner@ =~= a + slash + b);
                valid_utf8_concat(a, slash);
                valid_utf8_concat(a + slash, b);
            } else if a.len() == 0 {
                assert(inner@ =~= b);
            } else {
                assert(inner@ =~= a);
            }
        }
        VideoLayout { inner }
    }

    /// The text of the layout.
    pub fn as_ref(&self) -> (r: &str)
        ensures
            r.spec_bytes() == self.view(),
    {
        proof {
            use_type_invariant(self);
        }
        match str_from_utf8(self.inner.as_slice()) {
            Ok(s) => s,
            Err(_) => {
                proof {
                    assert(false);
                }
                ""
            },
        }
    }

    /// The list that the first specifier starting with `prefix` holds.
    fn entry<T>(&self, prefix: &str) -> (r: EnumeratedStringList<T>)
        ensures
            r.view() == layout_entry(self.view(), prefix.spec_bytes()),
    {
        proof {
            use_type_invariant(self);
            lemma_split_valid_utf8(self.inner@, 47u8);
        }
        let pieces = split_pieces(self.inner.as_slice(), 47u8);
        let pb = prefix.as_bytes();
        let mut k: usize = 0;
        proof {
            assert(pieces@.subrange(0, 0) =~= Seq::<&[u8]>::empty());
            assert(slices_view(pieces@).subrange(0, 0) =~= Seq::<Seq<u8>>::empty());
            assert(slices_view(pieces@).subrange(0, slices_view(pieces@).len() as int) =~= slices_view(pieces@));
        }
        while k < pieces.len()
            invariant
                k <= pieces@.len(),
                slices_view(pieces@) == split_spec(self.inner@, 47u8),
                forall|i: int| 0 <= i < pieces@.len() ==> valid_utf8(#[trigger] split_spec(self.inner@, 47u8)[i]),
                pb@ == prefix.spec_bytes(),
                first_with_prefix(slices_view(pieces@), pb@) == first_with_prefix(
                    slices_view(pieces@).subrange(k as int, pieces@.len() as int),
                    pb@,
                ),
            decreases pieces@.len() - k,
        {
            let piece = pieces[k];
            let ghost rest = slices_view(pieces@).subrange(k as int, pieces@.len() as int);
            assert(rest[0] == piece@);
            assert(rest.drop_first() =~= slices_view(pieces@).subrange(k + 1, pieces@.len() as int));
            if piece.len() >= pb.len() && bytes_eq(slice_subrange(piece, 0, pb.len()), pb) {
                assert(piece@ == split_spec(self.inner@, 47u8)[k as int]);
                return match str_from_utf8(piece) {
                    Ok(s) => EnumeratedStringList::from_str(s),
                    Err(_) => {
                        proof {
                            assert(false);
                        }
                        EnumeratedStringList::from_str("")
                    },
                };
            }
            k += 1;
        }
        proof {
            reveal_strlit("");
        }
        EnumeratedStringList::from_str("")
    }

    /// The video channels: the first specifier whose text starts with `CH` (an empty list when
    /// there is none).
    pub fn channels(&self) -> (r: EnumeratedStringList<VideoChannelSpecifier>)
        ensures
            r.view() == layout_entry(self.view(), "CH".spec_bytes()),
    {
        self.entry("CH")
    }

    /// The projection: the first specifier whose text starts with `PROJ` (an empty list when
    /// there is none).
    pub fn projection(&self) -> (r: EnumeratedStringList<VideoProjectionSpecifier>)
        ensures
            r.view() == layout_entry(self.view(), "PROJ".spec_bytes()),
    {
        self.entry("PROJ")
    }

    /// The specifiers that are neither channel nor projection specifiers, in their order.
    pub fn unknown_entries(&self) -> (r: Vec<&str>)
        ensures
            r@.map_values(|s: &str| s.spec_bytes()) == split_spec(self.view(), 47u8).filter(
                |x: Seq<u8>| is_unknown_entry(x),
            ),
    {
        proof {
            use_type_invariant(self);
            lemma_split_valid_utf8(self.inner@, 47u8);
        }
        let pieces = split_pieces(self.inner.as_slice(), 47u8);
        let ghost pv = slices_view(pieces@);
        let ghost pred = |x: Seq<u8>| is_unknown_entry(x);
        let mut out: Vec<&str> = Vec::new();
        let mut k: usize = 0;
        proof {
            assert(pv.subrange(0, 0).filter(pred) =~= Seq::<Seq<u8>>::empty()) by {
                reveal(Seq::filter);
            }
            assert(out@.map_values(|s: &str| s.spec_bytes()) =~= Seq::<Seq<u8>>::empty());
        }
        while k < pieces.len()
            invariant
                k <= pieces@.len(),
                pv == slices_view(pieces@),
                pv == split_spec(self.inner@, 47u8),
                pred == (|x: Seq<u8>| is_unknown_entry(x)),
                forall|i: int| 0 <= i < pieces@.len() ==> valid_utf8(#[trigger] split_spec(self.inner@, 47u8)[i]),
                out@.map_values(|s: &str| s.spec_bytes()) == pv.subrange(0, k as int).filter(pred),
            decreases pieces@.len() - k,
        {
            let piece = pieces[k];
            assert(piece@ == pv[k as int]);
            let is_ch = piece.len() >= 2 && bytes_eq(slice_subrange(piece, 0, 2), "CH".as_bytes());
            let is_proj = piece.len() >= 4 && bytes_eq(slice_subrange(piece, 0, 4), "PROJ".as_bytes());
            proof {
                reveal_strlit("CH");
                reveal_strlit("PROJ");
                vstd::string::is_ascii_spec_bytes("CH");
                vstd::string::is_ascii_spec_bytes("PROJ");
                assert(pred(pv[k as int]) == (!is_ch && !is_proj));
                assert(pv.subrange(0, k + 1) =~= pv.subrange(0, k as int).push(pv[k as int]));
                pv.subrange(0, k as int).lemma_filter_push(pv[k as int], pred);
            }
            if !is_ch && !is_proj {
                match str_from_utf8(piece) {
                    Ok(s) => {
                        let ghost before = out@;
                        out.push(s);
                        proof {
                            assert(out@.map_values(|s: &str| s.spec_bytes()) =~= before.map_values(
                                |s: &str| s.spec_bytes(),
                            ).push(piece@));
                        }
                    },
                    Err(_) => {
                        proof {
                            assert(false);
                        }
                    },
                }
            }
            k += 1;
        }
        proof {
            assert(pv.subrange(0, pieces@.len() as int) =~= pv);
        }
        out
    }
}

/// The order of the channel and projection specifiers does not change what is read: with a
/// channel specifier `c` and a projection specifier `p` (neither holding `/`), both `c/p` and
/// `p/c` give the channels `c` and the projection `p`.
pub proof fn lemma_layout_order_does_not_matter(c: Seq<u8>, p: Seq<u8>)
    requires
        starts_with(c, "CH".spec_bytes()),
        starts_with(p, "PROJ".spec_bytes()),
        !c.contains(47u8),
        !p.contains(47u8),
    ensures
        layout_entry(c + seq![47u8] + p, "CH".spec_bytes()) == c,
        layout_entry(p + seq![47u8] + c, "CH".spec_bytes()) == c,
        layout_entry(c + seq![47u8] + p, "PROJ".spec_bytes()) == p,
        layout_entry(p + seq![47u8] + c, "PROJ".spec_bytes()) == p,
{
    reveal_strlit("CH");
    reveal_strlit("PROJ");
    vstd::string::is_ascii_spec_bytes("CH");
    vstd::string::is_ascii_spec_bytes("PROJ");
    let ch = "CH".spec_bytes();
    let proj = "PROJ".spec_bytes();
    assert(c[0] == ch[0]);
    assert(p[0] == proj[0]);
    assert(!starts_with(c, proj)) by {
        if starts_with(c, proj) {
            assert(c[0] == c.subrange(0, 4)[0]);
        }
    }
    assert(!starts_with(p, ch)) by {
        if starts_with(p, ch) {
            assert(p[0] == p.subrange(0, 2)[0]);
        }
    }
    assert forall|j: int| 0 <= j < c.len() implies c[j] != 47u8 by {
        if c[j] == 47u8 {
            assert(c.contains(47u8));
        }
    }
    assert forall|j: int| 0 <= j < p.len() implies p[j] != 47u8 by {
        if p[j] == 47u8 {
            assert(p.contains(47u8));
        }
    }
    lemma_split_none(c, 47u8);
    lemma_split_none(p, 47u8);
    lemma_split_append(c, p, 47u8);
    lemma_split_append(p, c, 47u8);
    let cp = seq![c] + seq![p];
    let pc = seq![p] + seq![c];
    assert(split_spec(c + seq![47u8] + p, 47u8) == cp);
    assert(split_spec(p + seq![47u8] + c, 47u8) == pc);
    assert(cp.drop_first() =~= seq![p]);
    assert(pc.drop_first() =~= seq![c]);
    assert(seq![p].drop_first() =~= Seq::<Seq<u8>>::empty());
    assert(seq![c].drop_first() =~= Seq::<Seq<u8>>::empty());
    assert(first_with_prefix(seq![c], ch) == Some(c));
    assert(first_with_prefix(pc, ch) == first_with_prefix(seq![c], ch));
    assert(first_with_prefix(seq![p], proj) == Some(p));
    assert(first_with_prefix(cp, proj) == first_with_prefix(seq![p], proj));
}

/// A layout built by `new` gives back the channel list and the projection list that it was built
/// from, when each is empty or starts with its prefix (`CH`, `PROJ`) and neither holds `/`.
pub proof fn lemma_layout_reads_back(c: Seq<u8>, p: Seq<u8>)
    requires
        c.len() == 0 || starts_with(c, "CH".spec_bytes()),
        p.len() == 0 || starts_with(p, "PROJ".spec_bytes()),
        !c.contains(47u8),
        !p.contains(47u8),
    ensures
        layout_entry(layout_text(c, p), "CH".spec_bytes()) == c,
        layout_entry(layout_text(c, p), "PROJ".spec_bytes()) == p,
{
    reveal_strlit("CH");
    reveal_strlit("PROJ");
    vstd::string::is_ascii_spec_bytes("CH");
    vstd::string::is_ascii_spec_bytes("PROJ");
    let ch = "CH".spec_bytes();
    let proj = "PROJ".spec_bytes();
    if c.len() > 0 && p.len() > 0 {
        lemma_layout_order_does_not_matter(c, p);
    } else {
        let x = layout_text(c, p);
        assert(forall|j: int| 0 <= j < x.len() ==> x[j] != 47u8) by {
            assert forall|j: int| 0 <= j < x.len() implies x[j] != 47u8 by {
                if x[j] == 47u8 {
                    assert(x.contains(47u8));
                }
            }
        }
        lemma_split_none(x, 47u8);
        assert(seq![x].drop_first() =~= Seq::<Seq<u8>>::empty());
        assert(ch.len() == 2 && proj.len() == 4);
        assert(first_with_prefix(Seq::<Seq<u8>>::empty(), ch) == None::<Seq<u8>>);
        assert(first_with_prefix(Seq::<Seq<u8>>::empty(), proj) == None::<Seq<u8>>);
        if c.len() == 0 && p.len() == 0 {
            assert(x.len() == 0);
            assert(!starts_with(x, ch));
            assert(!starts_with(x, proj));
            assert(first_with_prefix(seq![x], ch) == None::<Seq<u8>>);
            assert(first_with_prefix(seq![x], proj) == None::<Seq<u8>>);
        }
        if c.len() > 0 {
            assert(!starts_with(c, proj)) by {
                if starts_with(c, proj) {
                    assert(c[0] == c.subrange(0, 4)[0]);
                    assert(c[0] == c.subrange(0, 2)[0]);
                }
            }
            assert(x == c);
            assert(first_with_prefix(seq![x], ch) == Some(c));
            assert(first_with_prefix(seq![x], proj) == None::<Seq<u8>>);
        } else if p.len() > 0 {
            assert(!starts_with(p, ch)) by {
                if starts_with(p, ch) {
                    assert(p[0] == p.subrange(0, 2)[0]);
                    assert(p[0] == p.subrange(0, 4)[0]);
                }
            }
            assert(x == p);
            assert(first_with_prefix(seq![x], proj) == Some(p));
            assert(first_with_prefix(seq![x], ch) == None::<Seq<u8>>);
        }
    }
}

/// Placeholder struct for the `#EXT-X-STREAM-INF` builder indicating that `bandwidth` needs to be
/// set.
#[derive(Debug, Clone, Copy)]
pub struct StreamInfBandwidthNeedsToBeSet;

/// Placeholder struct for the `#EXT-X-STREAM-INF` builder indicating that `bandwidth` has been
/// set.
#[derive(Debug, Clone, Copy)]
pub struct StreamInfBandwidthHasBeenSet;


/// The attributes of an `#EXT-X-STREAM-INF` tag, with each decimal floating point value (`SCORE`,
/// `FRAME-RATE`) held as the text that writes it.
pub struct StreamInfAttributes {
    /// The `BANDWIDTH` attribute.
    pub bandwidth: u64,
    /// The `AVERAGE-BANDWIDTH` attribute.
    pub average_bandwidth: Option<u64>,
    /// The text of the `SCORE` attribute.
    pub score: Option<Seq<char>>,
    /// The `CODECS` attribute.
    pub codecs: Option<Seq<char>>,
    /// The `SUPPLEMENTAL-CODECS` attribute.
    pub supplemental_codecs: Option<Seq<char>>,
    /// The `RESOLUTION` attribute.
    pub resolution: Option<DecimalResolution>,
    /// The text of the `FRAME-RATE` attribute.
    pub frame_rate: Option<Seq<char>>,
    /// The `HDCP-LEVEL` attribute.
    pub hdcp_level: Option<Seq<char>>,
    /// The `ALLOWED-CPC` attribute.
    pub allowed_cpc: Option<Seq<char>>,
    /// The `VIDEO-RANGE` attribute.
    pub video_range: Option<Seq<char>>,
    /// The `REQ-VIDEO-LAYOUT` attribute.
    pub req_video_layout: Option<Seq<char>>,
    /// The `STABLE-VARIANT-ID` attribute.
    pub stable_variant_id: Option<Seq<char>>,
    /// The `AUDIO` attribute.
    pub audio: Option<Seq<char>>,
    /// The `VIDEO` attribute.
    pub video: Option<Seq<char>>,
    /// The `SUBTITLES` attribute.
    pub subtitles: Option<Seq<char>>,
    /// The `CLOSED-CAPTIONS` attribute.
    pub closed_captions: Option<Seq<char>>,
    /// The `PATHWAY-ID` attribute.
    pub pathway_id: Option<Seq<char>>,
}

/// The attributes that an attribute list gives an `#EXT-X-STREAM-INF` tag: `BANDWIDTH` (a decimal
/// integer) is required; an optional attribute of the wrong kind is taken as absent.
pub open spec fn stream_inf_spec(list: AttributeListView) -> Result<
    StreamInfAttributes,
    ValidationError,
> {
    match integer_attr(list, "BANDWIDTH"@) {
        Some(bandwidth) => Ok(
            StreamInfAttributes {
                bandwidth,
                average_bandwidth: integer_attr(list, "AVERAGE-BANDWIDTH"@),
                score: utf8_attr(list, "SCORE"@),
                codecs: quoted_attr(list, "CODECS"@),
                supplemental_codecs: quoted_attr(list, "SUPPLEMENTAL-CODECS"@),
                resolution: resolution_attr(list, "RESOLUTION"@),
                frame_rate: utf8_attr(list, "FRAME-RATE"@),
                hdcp_level: utf8_attr(list, "HDCP-LEVEL"@),
                allowed_cpc: quoted_attr(list, "ALLOWED-CPC"@),
                video_range: utf8_attr(list, "VIDEO-RANGE"@),
                req_video_layout: quoted_attr(list, "REQ-VIDEO-LAYOUT"@),
                stable_variant_id: quoted_attr(list, "STABLE-VARIANT-ID"@),
                audio: quoted_attr(list, "AUDIO"@),
                video: quoted_attr(list, "VIDEO"@),
                subtitles: quoted_attr(list, "SUBTITLES"@),
                closed_captions: quoted_attr(list, "CLOSED-CAPTIONS"@),
                pathway_id: quoted_attr(list, "PATHWAY-ID"@),
            },
        ),
        None => Err(ValidationError::MissingRequiredAttribute("BANDWIDTH")),
    }
}

/// The attributes that a tag value gives an `#EXT-X-STREAM-INF` tag.
pub open spec fn stream_inf_value_spec(value: Option<Seq<u8>>) -> Result<
    StreamInfAttributes,
    ValidationError,
> {
    match typed_attribute_list_spec(value) {
        Ok(list) => stream_inf_spec(list),
        Err(e) => Err(e),
    }
}

/// The line of an `#EXT-X-STREAM-INF` tag with the attributes `a`: `BANDWIDTH` first, then each
/// optional attribute that is present, in a fixed order.
pub open spec fn stream_inf_line(a: StreamInfAttributes) -> Seq<u8> {
    line_start(TagName::StreamInf) + seq![58u8] + stream_inf_line_head(a) + stream_inf_line_video(a)
        + stream_inf_line_groups(a)
}

/// `BANDWIDTH`, `AVERAGE-BANDWIDTH`, `SCORE`, `CODECS` and `SUPPLEMENTAL-CODECS`, as written.
pub open spec fn stream_inf_line_head(a: StreamInfAttributes) -> Seq<u8> {
    unquoted_attribute("BANDWIDTH"@, dec(a.bandwidth as nat)) + comma_integer(
        "AVERAGE-BANDWIDTH"@,
        a.average_bandwidth,
    ) + comma_unquoted("SCORE"@, opt_encode(a.score)) + comma_quoted("CODECS"@, a.codecs)
        + comma_quoted("SUPPLEMENTAL-CODECS"@, a.supplemental_codecs)
}

/// `RESOLUTION`, `FRAME-RATE`, `HDCP-LEVEL`, `ALLOWED-CPC`, `VIDEO-RANGE` and `REQ-VIDEO-LAYOUT`,
/// as written where present.
pub open spec fn stream_inf_line_video(a: StreamInfAttributes) -> Seq<u8> {
    comma_unquoted("RESOLUTION"@, opt_resolution_text(a.resolution)) + comma_unquoted(
        "FRAME-RATE"@,
        opt_encode(a.frame_rate),
    ) + comma_unquoted("HDCP-LEVEL"@, opt_encode(a.hdcp_level)) + comma_quoted(
        "ALLOWED-CPC"@,
        a.allowed_cpc,
    ) + comma_unquoted("VIDEO-RANGE"@, opt_encode(a.video_range)) + comma_quoted(
        "REQ-VIDEO-LAYOUT"@,
        a.req_video_layout,
    )
}

/// `STABLE-VARIANT-ID`, `AUDIO`, `VIDEO`, `SUBTITLES`, `CLOSED-CAPTIONS` and `PATHWAY-ID`, as
/// written where present.
pub open spec fn stream_inf_line_groups(a: StreamInfAttributes) -> Seq<u8> {
    comma_quoted("STABLE-VARIANT-ID"@, a.stable_variant_id) + comma_quoted("AUDIO"@, a.audio)
        + comma_quoted("VIDEO"@, a.video) + comma_quoted("SUBTITLES"@, a.subtitles) + comma_quoted(
        "CLOSED-CAPTIONS"@,
        a.closed_captions,
    ) + comma_quoted("PATHWAY-ID"@, a.pathway_id)
}

/// The attributes of an `#EXT-X-STREAM-INF` tag as values, with each decimal floating point value
/// (`SCORE`, `FRAME-RATE`) held as the text that writes it.
#[derive(Debug, Clone, PartialEq)]
pub struct StreamInfLine {
    /// The `BANDWIDTH` attribute.
    pub bandwidth: u64,
    /// The `AVERAGE-BANDWIDTH` attribute.
    pub average_bandwidth: Option<u64>,
    /// The text of the `SCORE` attribute.
    pub score: Option<String>,
    /// The `CODECS` attribute.
    pub codecs: Option<String>,
    /// The `SUPPLEMENTAL-CODECS` attribute.
    pub supplemental_codecs: Option<String>,
    /// The `RESOLUTION` attribute.
    pub resolution: Option<DecimalResolution>,
    /// The text of the `FRAME-RATE` attribute.
    pub frame_rate: Option<String>,
    /// The `HDCP-LEVEL` attribute.
    pub hdcp_level: Option<String>,
    /// The `ALLOWED-CPC` attribute.
    pub allowed_cpc: Option<String>,
    /// The `VIDEO-RANGE` attribute.
    pub video_range: Option<String>,
    /// The `REQ-VIDEO-LAYOUT` attribute.
    pub req_video_layout: Option<String>,
    /// The `STABLE-VARIANT-ID` attribute.
    pub stable_variant_id: Option<String>,
    /// The `AUDIO` attribute.
    pub audio: Option<String>,
    /// The `VIDEO` attribute.
    pub video: Option<String>,
    /// The `SUBTITLES` attribute.
    pub subtitles: Option<String>,
    /// The `CLOSED-CAPTIONS` attribute.
    pub closed_captions: Option<String>,
    /// The `PATHWAY-ID` attribute.
    pub pathway_id: Option<String>,
}

impl StreamInfLine {
    /// The attributes.
    pub open spec fn view(&self) -> StreamInfAttributes {
        StreamInfAttributes {
            bandwidth: self.bandwidth,
            average_bandwidth: self.average_bandwidth,
            score: opt_string(self.score),
            codecs: opt_string(self.codecs),
            supplemental_codecs: opt_string(self.supplemental_codecs),
            resolution: self.resolution,
            frame_rate: opt_string(self.frame_rate),
            hdcp_level: opt_string(self.hdcp_level),
            allowed_cpc: opt_string(self.allowed_cpc),
            video_range: opt_string(self.video_range),
            req_video_layout: opt_string(self.req_video_layout),
            stable_variant_id: opt_string(self.stable_variant_id),
            audio: opt_string(self.audio),
            video: opt_string(self.video),
            subtitles: opt_string(self.subtitles),
            closed_captions: opt_string(self.closed_captions),
            pathway_id: opt_string(self.pathway_id),
        }
    }

    /// Reads the attributes of an `#EXT-X-STREAM-INF` tag from a parsed tag line, whose value must
    /// be an attribute list with a decimal integer `BANDWIDTH`.
    pub fn try_from(tag: &unknown::Tag) -> (r: Result<StreamInfLine, ValidationError>)
        ensures
            match stream_inf_value_spec(value_bytes(*tag)) {
                Ok(a) => r matches Ok(l) && l.view() == a,
                Err(e) => r == Err::<StreamInfLine, ValidationError>(e),
            },
    {
        let list = typed_attribute_list_of(tag)?;
        let bandwidth = match get_integer(&list, "BANDWIDTH") {
            Some(b) => b,
            None => return Err(ValidationError::MissingRequiredAttribute("BANDWIDTH")),
        };
        Ok(StreamInfLine {
            bandwidth,
            average_bandwidth: get_integer(&list, "AVERAGE-BANDWIDTH"),
            score: copy_opt(get_unquoted_str(&list, "SCORE")),
            codecs: copy_opt(get_quoted(&list, "CODECS")),
            supplemental_codecs: copy_opt(get_quoted(&list, "SUPPLEMENTAL-CODECS")),
            resolution: get_resolution(&list, "RESOLUTION"),
            frame_rate: copy_opt(get_unquoted_str(&list, "FRAME-RATE")),
            hdcp_level: copy_opt(get_unquoted_str(&list, "HDCP-LEVEL")),
            allowed_cpc: copy_opt(get_quoted(&list, "ALLOWED-CPC")),
            video_range: copy_opt(get_unquoted_str(&list, "VIDEO-RANGE")),
            req_video_layout: copy_opt(get_quoted(&list, "REQ-VIDEO-LAYOUT")),
            stable_variant_id: copy_opt(get_quoted(&list, "STABLE-VARIANT-ID")),
            audio: copy_opt(get_quoted(&list, "AUDIO")),
            video: copy_opt(get_quoted(&list, "VIDEO")),
            subtitles: copy_opt(get_quoted(&list, "SUBTITLES")),
            closed_captions: copy_opt(get_quoted(&list, "CLOSED-CAPTIONS")),
            pathway_id: copy_opt(get_quoted(&list, "PATHWAY-ID")),
        })
    }
}

fn push_stream_inf_line_head(line: &mut Vec<u8>, a: &StreamInfLine)
    ensures
        final(line)@ == old(line)@ + stream_inf_line_head(a.view()),
{
    push_integer_attribute(line, "BANDWIDTH", a.bandwidth);
    push_comma_integer(line, "AVERAGE-BANDWIDTH", a.average_bandwidth);
    push_comma_unquoted_str(line, "SCORE", &a.score);
    push_comma_quoted(line, "CODECS", &a.codecs);
    push_comma_quoted(line, "SUPPLEMENTAL-CODECS", &a.supplemental_codecs);
    proof {
        assert(final(line)@ =~= old(line)@ + stream_inf_line_head(a.view()));
    }
}

fn push_stream_inf_line_video(line: &mut Vec<u8>, a: &StreamInfLine)
    ensures
        final(line)@ == old(line)@ + stream_inf_line_video(a.view()),
{
    push_comma_resolution(line, "RESOLUTION", a.resolution);
    push_comma_unquoted_str(line, "FRAME-RATE", &a.frame_rate);
    push_comma_unquoted_str(line, "HDCP-LEVEL", &a.hdcp_level);
    push_comma_quoted(line, "ALLOWED-CPC", &a.allowed_cpc);
    push_comma_unquoted_str(line, "VIDEO-RANGE", &a.video_range);
    push_comma_quoted(line, "REQ-VIDEO-LAYOUT", &a.req_video_layout);
    proof {
        assert(final(line)@ =~= old(line)@ + stream_inf_line_video(a.view()));
    }
}

#[verifier::spinoff_prover]
#[verifier::rlimit(40)]
fn push_stream_inf_line_groups(line: &mut Vec<u8>, a: &StreamInfLine)
    ensures
        final(line)@ == old(line)@ + stream_inf_line_groups(a.view()),
{
    push_comma_quoted(line, "STABLE-VARIANT-ID", &a.stable_variant_id);
    push_comma_quoted(line, "AUDIO", &a.audio);
    push_comma_quoted(line, "VIDEO", &a.video);
    push_comma_quoted(line, "SUBTITLES", &a.subtitles);
    push_comma_quoted(line, "CLOSED-CAPTIONS", &a.closed_captions);
    push_comma_quoted(line, "PATHWAY-ID", &a.pathway_id);
    proof {
        assert(final(line)@ =~= old(line)@ + stream_inf_line_groups(a.view()));
    }
}

/// The line of an `#EXT-X-STREAM-INF` tag with the attributes `a`.
pub fn calculate_line(a: &StreamInfLine) -> (r: Vec<u8>)
    ensures
        r@ == stream_inf_line(a.view()),
{
    let mut line = start_line(TagName::StreamInf);
    line.push(58u8);
    push_stream_inf_line_head(&mut line, a);
    push_stream_inf_line_video(&mut line, a);
    push_stream_inf_line_groups(&mut line, a);
    proof {
        assert(line@ =~= stream_inf_line(a.view()));
    }
    line
}

/// The attributes up to `SUPPLEMENTAL-CODECS`, in the order in which the line of the tag writes
/// them.
pub open spec fn stream_inf_entries_0(m: StreamInfAttributes) -> AttributeListView {
    let l = seq![("BANDWIDTH"@, AttributeValueView::Unquoted(dec(m.bandwidth as nat)))];
    let l = push_integer_opt(l, "AVERAGE-BANDWIDTH"@, m.average_bandwidth);
    let l = push_unquoted_opt(l, "SCORE"@, opt_encode(m.score));
    let l = push_quoted_opt(l, "CODECS"@, m.codecs);
    push_quoted_opt(l, "SUPPLEMENTAL-CODECS"@, m.supplemental_codecs)
}

/// The attributes up to `REQ-VIDEO-LAYOUT`, in the order in which the line of the tag writes them.
pub open spec fn stream_inf_entries_1(m: StreamInfAttributes) -> AttributeListView {
    let l = stream_inf_entries_0(m);
    let l = push_unquoted_opt(l, "RESOLUTION"@, opt_resolution_text(m.resolution));
    let l = push_unquoted_opt(l, "FRAME-RATE"@, opt_encode(m.frame_rate));
    let l = push_unquoted_opt(l, "HDCP-LEVEL"@, opt_encode(m.hdcp_level));
    let l = push_quoted_opt(l, "ALLOWED-CPC"@, m.allowed_cpc);
    let l = push_unquoted_opt(l, "VIDEO-RANGE"@, opt_encode(m.video_range));
    push_quoted_opt(l, "REQ-VIDEO-LAYOUT"@, m.req_video_layout)
}

/// The attributes of the tag in the order in which its line writes them.
pub open spec fn stream_inf_entries(m: StreamInfAttributes) -> AttributeListView {
    let l = stream_inf_entries_1(m);
    let l = push_quoted_opt(l, "STABLE-VARIANT-ID"@, m.stable_variant_id);
    let l = push_quoted_opt(l, "AUDIO"@, m.audio);
    let l = push_quoted_opt(l, "VIDEO"@, m.video);
    let l = push_quoted_opt(l, "SUBTITLES"@, m.subtitles);
    let l = push_quoted_opt(l, "CLOSED-CAPTIONS"@, m.closed_captions);
    push_quoted_opt(l, "PATHWAY-ID"@, m.pathway_id)
}

proof fn lemma_stream_inf_text_0(m: StreamInfAttributes)
    ensures
        attribute_list_text(stream_inf_entries_0(m)) == stream_inf_line_head(m),
{
    let p0 = seq![("BANDWIDTH"@, AttributeValueView::Unquoted(dec(m.bandwidth as nat)))];
    assert(attribute_list_text(p0) =~= unquoted_attribute("BANDWIDTH"@, dec(m.bandwidth as nat)));
    let p1 = push_integer_opt(p0, "AVERAGE-BANDWIDTH"@, m.average_bandwidth);
    lemma_push_integer_opt_text(p0, "AVERAGE-BANDWIDTH"@, m.average_bandwidth);
    assert(attribute_list_text(p1) == (unquoted_attribute("BANDWIDTH"@, dec(m.bandwidth as nat))) + (comma_integer("AVERAGE-BANDWIDTH"@, m.average_bandwidth)));
    let p2 = push_unquoted_opt(p1, "SCORE"@, opt_encode(m.score));
    lemma_push_unquoted_opt_text(p1, "SCORE"@, opt_encode(m.score));
    assert(attribute_list_text(p2) == (unquoted_attribute("BANDWIDTH"@, dec(m.bandwidth as nat))) + (comma_integer("AVERAGE-BANDWIDTH"@, m.average_bandwidth)) + (comma_unquoted("SCORE"@, opt_encode(m.score))));
    let p3 = push_quoted_opt(p2, "CODECS"@, m.codecs);
    lemma_push_quoted_opt_text(p2, "CODECS"@, m.codecs);
    assert(attribute_list_text(p3) == (unquoted_attribute("BANDWIDTH"@, dec(m.bandwidth as nat))) + (comma_integer("AVERAGE-BANDWIDTH"@, m.average_bandwidth)) + (comma_unquoted("SCORE"@, opt_encode(m.score))) + (comma_quoted("CODECS"@, m.codecs)));
    let p4 = push_quoted_opt(p3, "SUPPLEMENTAL-CODECS"@, m.supplemental_codecs);
    lemma_push_quoted_opt_text(p3, "SUPPLEMENTAL-CODECS"@, m.supplemental_codecs);
    assert(attribute_list_text(p4) == (unquoted_attribute("BANDWIDTH"@, dec(m.bandwidth as nat))) + (comma_integer("AVERAGE-BANDWIDTH"@, m.average_bandwidth)) + (comma_unquoted("SCORE"@, opt_encode(m.score))) + (comma_quoted("CODECS"@, m.codecs)) + (comma_quoted("SUPPLEMENTAL-CODECS"@, m.supplemental_codecs)));
    assert(p4 == stream_inf_entries_0(m));
}

proof fn lemma_stream_inf_text_1(m: StreamInfAttributes)
    ensures
        attribute_list_text(stream_inf_entries_1(m)) == attribute_list_text(stream_inf_entries_0(m)) + stream_inf_line_video(m),
{
    let p0 = push_unquoted_opt(stream_inf_entries_0(m), "RESOLUTION"@, opt_resolution_text(m.resolution));
    lemma_push_unquoted_opt_text(stream_inf_entries_0(m), "RESOLUTION"@, opt_resolution_text(m.resolution));
    assert(attribute_list_text(p0) == attribute_list_text(stream_inf_entries_0(m)) + (comma_unquoted("RESOLUTION"@, opt_resolution_text(m.resolution))));
    let p1 = push_unquoted_opt(p0, "FRAME-RATE"@, opt_encode(m.frame_rate));
    lemma_push_unquoted_opt_text(p0, "FRAME-RATE"@, opt_encode(m.frame_rate));
    lemma_concat_step(attribute_list_text(stream_inf_entries_0(m)), (comma_unquoted("RESOLUTION"@, opt_resolution_text(m.resolution))), comma_unquoted("FRAME-RATE"@, opt_encode(m.frame_rate)));
    assert(attribute_list_text(p1) == attribute_list_text(stream_inf_entries_0(m)) + ((comma_unquoted("RESOLUTION"@, opt_resolution_text(m.resolution))) + (comma_unquoted("FRAME-RATE"@, opt_encode(m.frame_rate)))));
    let p2 = push_unquoted_opt(p1, "HDCP-LEVEL"@, opt_encode(m.hdcp_level));
    lemma_push_unquoted_opt_text(p1, "HDCP-LEVEL"@, opt_encode(m.hdcp_level));
    lemma_concat_step(attribute_list_text(stream_inf_entries_0(m)), (comma_unquoted("RESOLUTION"@, opt_resolution_text(m.resolution))) + (comma_unquoted("FRAME-RATE"@, opt_encode(m.frame_rate))), comma_unquoted("HDCP-LEVEL"@, opt_encode(m.hdcp_level)));
    assert(attribute_list_text(p2) == attribute_list_text(stream_inf_entries_0(m)) + ((comma_unquoted("RESOLUTION"@, opt_resolution_text(m.resolution))) + (comma_unquoted("FRAME-RATE"@, opt_encode(m.frame_rate))) + (comma_unquoted("HDCP-LEVEL"@, opt_encode(m.hdcp_level)))));
    let p3 = push_quoted_opt(p2, "ALLOWED-CPC"@, m.allowed_cpc);
    lemma_push_quoted_opt_text(p2, "ALLOWED-CPC"@, m.allowed_cpc);
    lemma_concat_step(attribute_list_text(stream_inf_entries_0(m)), (comma_unquoted("RESOLUTION"@, opt_resolution_text(m.resolution))) + (comma_unquoted("FRAME-RATE"@, opt_encode(m.frame_rate))) + (comma_unquoted("HDCP-LEVEL"@, opt_encode(m.hdcp_level))), comma_quoted("ALLOWED-CPC"@, m.allowed_cpc));
    assert(attribute_list_text(p3) == attribute_list_text(stream_inf_entries_0(m)) + ((comma_unquoted("RESOLUTION"@, opt_resolution_text(m.resolution))) + (comma_unquoted("FRAME-RATE"@, opt_encode(m.frame_rate))) + (comma_unquoted("HDCP-LEVEL"@, opt_encode(m.hdcp_level))) + (comma_quoted("ALLOWED-CPC"@, m.allowed_cpc))));
    let p4 = push_unquoted_opt(p3, "VIDEO-RANGE"@, opt_encode(m.video_range));
    lemma_push_unquoted_opt_text(p3, "VIDEO-RANGE"@, opt_encode(m.video_range));
    lemma_concat_step(attribute_list_text(stream_inf_entries_0(m)), (comma_unquoted("RESOLUTION"@, opt_resolution_text(m.resolution))) + (comma_unquoted("FRAME-RATE"@, opt_encode(m.frame_rate))) + (comma_unquoted("HDCP-LEVEL"@, opt_encode(m.hdcp_level))) + (comma_quoted("ALLOWED-CPC"@, m.allowed_cpc)), comma_unquoted("VIDEO-RANGE"@, opt_encode(m.video_range)));
    assert(attribute_list_text(p4) == attribute_list_text(stream_inf_entries_0(m)) + ((comma_unquoted("RESOLUTION"@, opt_resolution_text(m.resolution))) + (comma_unquoted("FRAME-RATE"@, opt_encode(m.frame_rate))) + (comma_unquoted("HDCP-LEVEL"@, opt_encode(m.hdcp_level))) + (comma_quoted("ALLOWED-CPC"@, m.allowed_cpc)) + (comma_unquoted("VIDEO-RANGE"@, opt_encode(m.video_range)))));
    let p5 = push_quoted_opt(p4, "REQ-VIDEO-LAYOUT"@, m.req_video_layout);
    lemma_push_quoted_opt_text(p4, "REQ-VIDEO-LAYOUT"@, m.req_video_layout);
    lemma_concat_step(attribute_list_text(stream_inf_entries_0(m)), (comma_unquoted("RESOLUTION"@, opt_resolution_text(m.resolution))) + (comma_unquoted("FRAME-RATE"@, opt_encode(m.frame_rate))) + (comma_unquoted("HDCP-LEVEL"@, opt_encode(m.hdcp_level))) + (comma_quoted("ALLOWED-CPC"@, m.allowed_cpc)) + (comma_unquoted("VIDEO-RANGE"@, opt_encode(m.video_range))), comma_quoted("REQ-VIDEO-LAYOUT"@, m.req_video_layout));
    assert(attribute_list_text(p5) == attribute_list_text(stream_inf_entries_0(m)) + ((comma_unquoted("RESOLUTION"@, opt_resolution_text(m.resolution))) + (comma_unquoted("FRAME-RATE"@, opt_encode(m.frame_rate))) + (comma_unquoted("HDCP-LEVEL"@, opt_encode(m.hdcp_level))) + (comma_quoted("ALLOWED-CPC"@, m.allowed_cpc)) + (comma_unquoted("VIDEO-RANGE"@, opt_encode(m.video_range))) + (comma_quoted("REQ-VIDEO-LAYOUT"@, m.req_video_layout))));
    assert(p5 == stream_inf_entries_1(m));
}

proof fn lemma_stream_inf_text_2(m: StreamInfAttributes)
    ensures
        attribute_list_text(stream_inf_entries(m)) == attribute_list_text(stream_inf_entries_1(m)) + stream_inf_line_groups(m),
{
    let p0 = push_quoted_opt(stream_inf_entries_1(m), "STABLE-VARIANT-ID"@, m.stable_variant_id);
    lemma_push_quoted_opt_text(stream_inf_entries_1(m), "STABLE-VARIANT-ID"@, m.stable_variant_id);
    assert(attribute_list_text(p0) == attribute_list_text(stream_inf_entries_1(m)) + (comma_quoted("STABLE-VARIANT-ID"@, m.stable_variant_id)));
    let p1 = push_quoted_opt(p0, "AUDIO"@, m.audio);
    lemma_push_quoted_opt_text(p0, "AUDIO"@, m.audio);
    lemma_concat_step(attribute_list_text(stream_inf_entries_1(m)), (comma_quoted("STABLE-VARIANT-ID"@, m.stable_variant_id)), comma_quoted("AUDIO"@, m.audio));
    assert(attribute_list_text(p1) == attribute_list_text(stream_inf_entries_1(m)) + ((comma_quoted("STABLE-VARIANT-ID"@, m.stable_variant_id)) + (comma_quoted("AUDIO"@, m.audio))));
    let p2 = push_quoted_opt(p1, "VIDEO"@, m.video);
    lemma_push_quoted_opt_text(p1, "VIDEO"@, m.video);
    lemma_concat_step(attribute_list_text(stream_inf_entries_1(m)), (comma_quoted("STABLE-VARIANT-ID"@, m.stable_variant_id)) + (comma_quoted("AUDIO"@, m.audio)), comma_quoted("VIDEO"@, m.video));
    assert(attribute_list_text(p2) == attribute_list_text(stream_inf_entries_1(m)) + ((comma_quoted("STABLE-VARIANT-ID"@, m.stable_variant_id)) + (comma_quoted("AUDIO"@, m.audio)) + (comma_quoted("VIDEO"@, m.video))));
    let p3 = push_quoted_opt(p2, "SUBTITLES"@, m.subtitles);
    lemma_push_quoted_opt_text(p2, "SUBTITLES"@, m.subtitles);
    lemma_concat_step(attribute_list_text(stream_inf_entries_1(m)), (comma_quoted("STABLE-VARIANT-ID"@, m.stable_variant_id)) + (comma_quoted("AUDIO"@, m.audio)) + (comma_quoted("VIDEO"@, m.video)), comma_quoted("SUBTITLES"@, m.subtitles));
    assert(attribute_list_text(p3) == attribute_list_text(stream_inf_entries_1(m)) + ((comma_quoted("STABLE-VARIANT-ID"@, m.stable_variant_id)) + (comma_quoted("AUDIO"@, m.audio)) + (comma_quoted("VIDEO"@, m.video)) + (comma_quoted("SUBTITLES"@, m.subtitles))));
    let p4 = push_quoted_opt(p3, "CLOSED-CAPTIONS"@, m.closed_captions);
    lemma_push_quoted_opt_text(p3, "CLOSED-CAPTIONS"@, m.closed_captions);
    lemma_concat_step(attribute_list_text(stream_inf_entries_1(m)), (comma_quoted("STABLE-VARIANT-ID"@, m.stable_variant_id)) + (comma_quoted("AUDIO"@, m.audio)) + (comma_quoted("VIDEO"@, m.video)) + (comma_quoted("SUBTITLES"@, m.subtitles)), comma_quoted("CLOSED-CAPTIONS"@, m.closed_captions));
    assert(attribute_list_text(p4) == attribute_list_text(stream_inf_entries_1(m)) + ((comma_quoted("STABLE-VARIANT-ID"@, m.stable_variant_id)) + (comma_quoted("AUDIO"@, m.audio)) + (comma_quoted("VIDEO"@, m.video)) + (comma_quoted("SUBTITLES"@, m.subtitles)) + (comma_quoted("CLOSED-CAPTIONS"@, m.closed_captions))));
    let p5 = push_quoted_opt(p4, "PATHWAY-ID"@, m.pathway_id);
    lemma_push_quoted_opt_text(p4, "PATHWAY-ID"@, m.pathway_id);
    lemma_concat_step(attribute_list_text(stream_inf_entries_1(m)), (comma_quoted("STABLE-VARIANT-ID"@, m.stable_variant_id)) + (comma_quoted("AUDIO"@, m.audio)) + (comma_quoted("VIDEO"@, m.video)) + (comma_quoted("SUBTITLES"@, m.subtitles)) + (comma_quoted("CLOSED-CAPTIONS"@, m.closed_captions)), comma_quoted("PATHWAY-ID"@, m.pathway_id));
    assert(attribute_list_text(p5) == attribute_list_text(stream_inf_entries_1(m)) + ((comma_quoted("STABLE-VARIANT-ID"@, m.stable_variant_id)) + (comma_quoted("AUDIO"@, m.audio)) + (comma_quoted("VIDEO"@, m.video)) + (comma_quoted("SUBTITLES"@, m.subtitles)) + (comma_quoted("CLOSED-CAPTIONS"@, m.closed_captions)) + (comma_quoted("PATHWAY-ID"@, m.pathway_id))));
    assert(p5 == stream_inf_entries(m));
}

proof fn lemma_stream_inf_line_text(m: StreamInfAttributes)
    ensures
        stream_inf_line(m) == line_start(TagName::StreamInf) + seq![58u8] + attribute_list_text(stream_inf_entries(m)),
{
    let pre = line_start(TagName::StreamInf) + seq![58u8];
    lemma_stream_inf_text_0(m);
    assert(pre + attribute_list_text(stream_inf_entries_0(m)) == pre + stream_inf_line_head(m));
    lemma_stream_inf_text_1(m);
    lemma_concat_step(pre, stream_inf_line_head(m), stream_inf_line_video(m));
    assert(pre + attribute_list_text(stream_inf_entries_1(m)) == pre + stream_inf_line_head(m) + stream_inf_line_video(m));
    lemma_stream_inf_text_2(m);
    lemma_concat_step(pre, stream_inf_line_head(m) + stream_inf_line_video(m), stream_inf_line_groups(m));
    assert(pre + attribute_list_text(stream_inf_entries(m)) == pre + stream_inf_line_head(m) + stream_inf_line_video(m) + stream_inf_line_groups(m));
}

proof fn lemma_stream_inf_ok_0(m: StreamInfAttributes)
    requires
        m.score matches Some(v) ==> unquoted_value_ok(encode_utf8(v)),
        m.codecs matches Some(v) ==> quoted_value_ok(v),
        m.supplemental_codecs matches Some(v) ==> quoted_value_ok(v),
    ensures
        entries_ok(stream_inf_entries_0(m)),
{
    reveal_strlit("BANDWIDTH");
    reveal_strlit("AVERAGE-BANDWIDTH");
    reveal_strlit("SCORE");
    reveal_strlit("CODECS");
    reveal_strlit("SUPPLEMENTAL-CODECS");
    let p0 = seq![("BANDWIDTH"@, AttributeValueView::Unquoted(dec(m.bandwidth as nat)))];
    lemma_dec_unquoted_ok(m.bandwidth);
    lemma_entries_ok_one("BANDWIDTH"@, AttributeValueView::Unquoted(dec(m.bandwidth as nat)));
    let p1 = push_integer_opt(p0, "AVERAGE-BANDWIDTH"@, m.average_bandwidth);
    match m.average_bandwidth {
        Some(v) => {
            lemma_dec_unquoted_ok(v);
            lemma_entries_ok_push(p0, "AVERAGE-BANDWIDTH"@, AttributeValueView::Unquoted(dec(v as nat)));
        },
        None => {},
    }
    let p2 = push_unquoted_opt(p1, "SCORE"@, opt_encode(m.score));
    match m.score {
        Some(v) => {
            lemma_entries_ok_push(p1, "SCORE"@, AttributeValueView::Unquoted(encode_utf8(v)));
        },
        None => {},
    }
    let p3 = push_quoted_opt(p2, "CODECS"@, m.codecs);
    match m.codecs {
        Some(v) => {
            lemma_entries_ok_push(p2, "CODECS"@, AttributeValueView::Quoted(v));
        },
        None => {},
    }
    let p4 = push_quoted_opt(p3, "SUPPLEMENTAL-CODECS"@, m.supplemental_codecs);
    match m.supplemental_codecs {
        Some(v) => {
            lemma_entries_ok_push(p3, "SUPPLEMENTAL-CODECS"@, AttributeValueView::Quoted(v));
        },
        None => {},
    }
    assert(p4 == stream_inf_entries_0(m));
}

proof fn lemma_stream_inf_ok_1(m: StreamInfAttributes)
    requires
        entries_ok(stream_inf_entries_0(m)),
        m.frame_rate matches Some(v) ==> unquoted_value_ok(encode_utf8(v)),
        m.hdcp_level matches Some(v) ==> unquoted_value_ok(encode_utf8(v)),
        m.allowed_cpc matches Some(v) ==> quoted_value_ok(v),
        m.video_range matches Some(v) ==> unquoted_value_ok(encode_utf8(v)),
        m.req_video_layout matches Some(v) ==> quoted_value_ok(v),
    ensures
        entries_ok(stream_inf_entries_1(m)),
{
    reveal_strlit("RESOLUTION");
    reveal_strlit("FRAME-RATE");
    reveal_strlit("HDCP-LEVEL");
    reveal_strlit("ALLOWED-CPC");
    reveal_strlit("VIDEO-RANGE");
    reveal_strlit("REQ-VIDEO-LAYOUT");
    let p0 = push_unquoted_opt(stream_inf_entries_0(m), "RESOLUTION"@, opt_resolution_text(m.resolution));
    match m.resolution {
        Some(v) => {
            lemma_resolution_value_ok(v);
            lemma_entries_ok_push(stream_inf_entries_0(m), "RESOLUTION"@, AttributeValueView::Unquoted(encode_utf8(decimal_resolution_text(v))));
        },
        None => {},
    }
    let p1 = push_unquoted_opt(p0, "FRAME-RATE"@, opt_encode(m.frame_rate));
    match m.frame_rate {
        Some(v) => {
            lemma_entries_ok_push(p0, "FRAME-RATE"@, AttributeValueView::Unquoted(encode_utf8(v)));
        },
        None => {},
    }
    let p2 = push_unquoted_opt(p1, "HDCP-LEVEL"@, opt_encode(m.hdcp_level));
    match m.hdcp_level {
        Some(v) => {
            lemma_entries_ok_push(p1, "HDCP-LEVEL"@, AttributeValueView::Unquoted(encode_utf8(v)));
        },
        None => {},
    }
    let p3 = push_quoted_opt(p2, "ALLOWED-CPC"@, m.allowed_cpc);
    match m.allowed_cpc {
        Some(v) => {
            lemma_entries_ok_push(p2, "ALLOWED-CPC"@, AttributeValueView::Quoted(v));
        },
        None => {},
    }
    let p4 = push_unquoted_opt(p3, "VIDEO-RANGE"@, opt_encode(m.video_range));
    match m.video_range {
        Some(v) => {
            lemma_entries_ok_push(p3, "VIDEO-RANGE"@, AttributeValueView::Unquoted(encode_utf8(v)));
        },
        None => {},
    }
    let p5 = push_quoted_opt(p4, "REQ-VIDEO-LAYOUT"@, m.req_video_layout);
    match m.req_video_layout {
        Some(v) => {
            lemma_entries_ok_push(p4, "REQ-VIDEO-LAYOUT"@, AttributeValueView::Quoted(v));
        },
        None => {},
    }
    assert(p5 == stream_inf_entries_1(m));
}

proof fn lemma_stream_inf_ok_2(m: StreamInfAttributes)
    requires
        entries_ok(stream_inf_entries_1(m)),
        m.stable_variant_id matches Some(v) ==> quoted_value_ok(v),
        m.audio matches Some(v) ==> quoted_value_ok(v),
        m.video matches Some(v) ==> quoted_value_ok(v),
        m.subtitles matches Some(v) ==> quoted_value_ok(v),
        m.closed_captions matches Some(v) ==> quoted_value_ok(v),
        m.pathway_id matches Some(v) ==> quoted_value_ok(v),
    ensures
        entries_ok(stream_inf_entries(m)),
{
    reveal_strlit("STABLE-VARIANT-ID");
    reveal_strlit("AUDIO");
    reveal_strlit("VIDEO");
    reveal_strlit("SUBTITLES");
    reveal_strlit("CLOSED-CAPTIONS");
    reveal_strlit("PATHWAY-ID");
    let p0 = push_quoted_opt(stream_inf_entries_1(m), "STABLE-VARIANT-ID"@, m.stable_variant_id);
    match m.stable_variant_id {
        Some(v) => {
            lemma_entries_ok_push(stream_inf_entries_1(m), "STABLE-VARIANT-ID"@, AttributeValueView::Quoted(v));
        },
        None => {},
    }
    let p1 = push_quoted_opt(p0, "AUDIO"@, m.audio);
    match m.audio {
        Some(v) => {
            lemma_entries_ok_push(p0, "AUDIO"@, AttributeValueView::Quoted(v));
        },
        None => {},
    }
    let p2 = push_quoted_opt(p1, "VIDEO"@, m.video);
    match m.video {
        Some(v) => {
            lemma_entries_ok_push(p1, "VIDEO"@, AttributeValueView::Quoted(v));
        },
        None => {},
    }
    let p3 = push_quoted_opt(p2, "SUBTITLES"@, m.subtitles);
    match m.subtitles {
        Some(v) => {
            lemma_entries_ok_push(p2, "SUBTITLES"@, AttributeValueView::Quoted(v));
        },
        None => {},
    }
    let p4 = push_quoted_opt(p3, "CLOSED-CAPTIONS"@, m.closed_captions);
    match m.closed_captions {
        Some(v) => {
            lemma_entries_ok_push(p3, "CLOSED-CAPTIONS"@, AttributeValueView::Quoted(v));
        },
        None => {},
    }
    let p5 = push_quoted_opt(p4, "PATHWAY-ID"@, m.pathway_id);
    match m.pathway_id {
        Some(v) => {
            lemma_entries_ok_push(p4, "PATHWAY-ID"@, AttributeValueView::Quoted(v));
        },
        None => {},
    }
    assert(p5 == stream_inf_entries(m));
}

#[verifier::spinoff_prover]
proof fn lemma_stream_inf_lookup_0(m: StreamInfAttributes)
    ensures
        integer_attr(stream_inf_entries(m), "BANDWIDTH"@) == Some(m.bandwidth),
        integer_attr(stream_inf_entries(m), "AVERAGE-BANDWIDTH"@) == m.average_bandwidth,
        utf8_attr(stream_inf_entries(m), "SCORE"@) == m.score,
{
    reveal_strlit("BANDWIDTH");
    reveal_strlit("AVERAGE-BANDWIDTH");
    reveal_strlit("SCORE");
    reveal_strlit("CODECS");
    reveal_strlit("SUPPLEMENTAL-CODECS");
    reveal_strlit("RESOLUTION");
    reveal_strlit("FRAME-RATE");
    reveal_strlit("HDCP-LEVEL");
    reveal_strlit("ALLOWED-CPC");
    reveal_strlit("VIDEO-RANGE");
    reveal_strlit("REQ-VIDEO-LAYOUT");
    reveal_strlit("STABLE-VARIANT-ID");
    reveal_strlit("AUDIO");
    reveal_strlit("VIDEO");
    reveal_strlit("SUBTITLES");
    reveal_strlit("CLOSED-CAPTIONS");
    reveal_strlit("PATHWAY-ID");
    assert("BANDWIDTH"@.len() != "AVERAGE-BANDWIDTH"@.len());
    assert("BANDWIDTH"@.len() != "SCORE"@.len());
    assert("BANDWIDTH"@.len() != "CODECS"@.len());
    assert("BANDWIDTH"@.len() != "SUPPLEMENTAL-CODECS"@.len());
    assert("BANDWIDTH"@.len() != "RESOLUTION"@.len());
    assert("BANDWIDTH"@.len() != "FRAME-RATE"@.len());
    assert("BANDWIDTH"@.len() != "HDCP-LEVEL"@.len());
    assert("BANDWIDTH"@.len() != "ALLOWED-CPC"@.len());
    assert("BANDWIDTH"@.len() != "VIDEO-RANGE"@.len());
    assert("BANDWIDTH"@.len() != "REQ-VIDEO-LAYOUT"@.len());
    assert("BANDWIDTH"@.len() != "STABLE-VARIANT-ID"@.len());
    assert("BANDWIDTH"@.len() != "AUDIO"@.len());
    assert("BANDWIDTH"@.len() != "VIDEO"@.len());
    assert("BANDWIDTH"@[0] != "SUBTITLES"@[0]);
    assert("BANDWIDTH"@.len() != "CLOSED-CAPTIONS"@.len());
    assert("BANDWIDTH"@.len() != "PATHWAY-ID"@.len());
    assert("AVERAGE-BANDWIDTH"@.len() != "BANDWIDTH"@.len());
    assert("AVERAGE-BANDWIDTH"@.len() != "SCORE"@.len());
    assert("AVERAGE-BANDWIDTH"@.len() != "CODECS"@.len());
    assert("AVERAGE-BANDWIDTH"@.len() != "SUPPLEMENTAL-CODECS"@.len());
    assert("AVERAGE-BANDWIDTH"@.len() != "RESOLUTION"@.len());
    assert("AVERAGE-BANDWIDTH"@.len() != "FRAME-RATE"@.len());
    assert("AVERAGE-BANDWIDTH"@.len() != "HDCP-LEVEL"@.len());
    assert("AVERAGE-BANDWIDTH"@.len() != "ALLOWED-CPC"@.len());
    assert("AVERAGE-BANDWIDTH"@.len() != "VIDEO-RANGE"@.len());
    assert("AVERAGE-BANDWIDTH"@.len() != "REQ-VIDEO-LAYOUT"@.len());
    assert("AVERAGE-BANDWIDTH"@[0] != "STABLE-VARIANT-ID"@[0]);
    assert("AVERAGE-BANDWIDTH"@.len() != "AUDIO"@.len());
    assert("AVERAGE-BANDWIDTH"@.len() != "VIDEO"@.len());
    assert("AVERAGE-BANDWIDTH"@.len() != "SUBTITLES"@.len());
    assert("AVERAGE-BANDWIDTH"@.len() != "CLOSED-CAPTIONS"@.len());
    assert("AVERAGE-BANDWIDTH"@.len() != "PATHWAY-ID"@.len());
    assert("SCORE"@.len() != "BANDWIDTH"@.len());
    assert("SCORE"@.len() != "AVERAGE-BANDWIDTH"@.len());
    assert("SCORE"@.len() != "CODECS"@.len());
    assert("SCORE"@.len() != "SUPPLEMENTAL-CODECS"@.len());
    assert("SCORE"@.len() != "RESOLUTION"@.len());
    assert("SCORE"@.len() != "FRAME-RATE"@.len());
    assert("SCORE"@.len() != "HDCP-LEVEL"@.len());
    assert("SCORE"@.len() != "ALLOWED-CPC"@.len());
    assert("SCORE"@.len() != "VIDEO-RANGE"@.len());
    assert("SCORE"@.len() != "REQ-VIDEO-LAYOUT"@.len());
    assert("SCORE"@.len() != "STABLE-VARIANT-ID"@.len());
    assert("SCORE"@[0] != "AUDIO"@[0]);
    assert("SCORE"@[0] != "VIDEO"@[0]);
    assert("SCORE"@.len() != "SUBTITLES"@.len());
    assert("SCORE"@.len() != "CLOSED-CAPTIONS"@.len());
    assert("SCORE"@.len() != "PATHWAY-ID"@.len());
    let l0 = seq![("BANDWIDTH"@, AttributeValueView::Unquoted(dec(m.bandwidth as nat)))];
    let l1 = push_integer_opt(l0, "AVERAGE-BANDWIDTH"@, m.average_bandwidth);
    let l2 = push_unquoted_opt(l1, "SCORE"@, opt_encode(m.score));
    let l3 = push_quoted_opt(l2, "CODECS"@, m.codecs);
    let l4 = push_quoted_opt(l3, "SUPPLEMENTAL-CODECS"@, m.supplemental_codecs);
    let l5 = push_unquoted_opt(l4, "RESOLUTION"@, opt_resolution_text(m.resolution));
    let l6 = push_unquoted_opt(l5, "FRAME-RATE"@, opt_encode(m.frame_rate));
    let l7 = push_unquoted_opt(l6, "HDCP-LEVEL"@, opt_encode(m.hdcp_level));
    let l8 = push_quoted_opt(l7, "ALLOWED-CPC"@, m.allowed_cpc);
    let l9 = push_unquoted_opt(l8, "VIDEO-RANGE"@, opt_encode(m.video_range));
    let l10 = push_quoted_opt(l9, "REQ-VIDEO-LAYOUT"@, m.req_video_layout);
    let l11 = push_quoted_opt(l10, "STABLE-VARIANT-ID"@, m.stable_variant_id);
    let l12 = push_quoted_opt(l11, "AUDIO"@, m.audio);
    let l13 = push_quoted_opt(l12, "VIDEO"@, m.video);
    let l14 = push_quoted_opt(l13, "SUBTITLES"@, m.subtitles);
    let l15 = push_quoted_opt(l14, "CLOSED-CAPTIONS"@, m.closed_captions);
    let l16 = push_quoted_opt(l15, "PATHWAY-ID"@, m.pathway_id);
    assert(l4 == stream_inf_entries_0(m));
    assert(l10 == stream_inf_entries_1(m));
    assert(l16 == stream_inf_entries(m));
    lemma_lookup_push(Seq::empty(), ("BANDWIDTH"@, AttributeValueView::Unquoted(dec(m.bandwidth as nat))), "BANDWIDTH"@);
    lemma_lookup_push_integer_opt(l0, "AVERAGE-BANDWIDTH"@, m.average_bandwidth, "BANDWIDTH"@);
    lemma_lookup_push_unquoted_opt(l1, "SCORE"@, opt_encode(m.score), "BANDWIDTH"@);
    lemma_lookup_push_quoted_opt(l2, "CODECS"@, m.codecs, "BANDWIDTH"@);
    lemma_lookup_push_quoted_opt(l3, "SUPPLEMENTAL-CODECS"@, m.supplemental_codecs, "BANDWIDTH"@);
    lemma_lookup_push_unquoted_opt(l4, "RESOLUTION"@, opt_resolution_text(m.resolution), "BANDWIDTH"@);
    lemma_lookup_push_unquoted_opt(l5, "FRAME-RATE"@, opt_encode(m.frame_rate), "BANDWIDTH"@);
    lemma_lookup_push_unquoted_opt(l6, "HDCP-LEVEL"@, opt_encode(m.hdcp_level), "BANDWIDTH"@);
    lemma_lookup_push_quoted_opt(l7, "ALLOWED-CPC"@, m.allowed_cpc, "BANDWIDTH"@);
    lemma_lookup_push_unquoted_opt(l8, "VIDEO-RANGE"@, opt_encode(m.video_range), "BANDWIDTH"@);
    lemma_lookup_push_quoted_opt(l9, "REQ-VIDEO-LAYOUT"@, m.req_video_layout, "BANDWIDTH"@);
    lemma_lookup_push_quoted_opt(l10, "STABLE-VARIANT-ID"@, m.stable_variant_id, "BANDWIDTH"@);
    lemma_lookup_push_quoted_opt(l11, "AUDIO"@, m.audio, "BANDWIDTH"@);
    lemma_lookup_push_quoted_opt(l12, "VIDEO"@, m.video, "BANDWIDTH"@);
    lemma_lookup_push_quoted_opt(l13, "SUBTITLES"@, m.subtitles, "BANDWIDTH"@);
    lemma_lookup_push_quoted_opt(l14, "CLOSED-CAPTIONS"@, m.closed_captions, "BANDWIDTH"@);
    lemma_lookup_push_quoted_opt(l15, "PATHWAY-ID"@, m.pathway_id, "BANDWIDTH"@);
    lemma_lookup_push(Seq::empty(), ("BANDWIDTH"@, AttributeValueView::Unquoted(dec(m.bandwidth as nat))), "AVERAGE-BANDWIDTH"@);
    lemma_lookup_push_integer_opt(l0, "AVERAGE-BANDWIDTH"@, m.average_bandwidth, "AVERAGE-BANDWIDTH"@);
    lemma_lookup_push_unquoted_opt(l1, "SCORE"@, opt_encode(m.score), "AVERAGE-BANDWIDTH"@);
    lemma_lookup_push_quoted_opt(l2, "CODECS"@, m.codecs, "AVERAGE-BANDWIDTH"@);
    lemma_lookup_push_quoted_opt(l3, "SUPPLEMENTAL-CODECS"@, m.supplemental_codecs, "AVERAGE-BANDWIDTH"@);
    lemma_lookup_push_unquoted_opt(l4, "RESOLUTION"@, opt_resolution_text(m.resolution), "AVERAGE-BANDWIDTH"@);
    lemma_lookup_push_unquoted_opt(l5, "FRAME-RATE"@, opt_encode(m.frame_rate), "AVERAGE-BANDWIDTH"@);
    lemma_lookup_push_unquoted_opt(l6, "HDCP-LEVEL"@, opt_encode(m.hdcp_level), "AVERAGE-BANDWIDTH"@);
    lemma_lookup_push_quoted_opt(l7, "ALLOWED-CPC"@, m.allowed_cpc, "AVERAGE-BANDWIDTH"@);
    lemma_lookup_push_unquoted_opt(l8, "VIDEO-RANGE"@, opt_encode(m.video_range), "AVERAGE-BANDWIDTH"@);
    lemma_lookup_push_quoted_opt(l9, "REQ-VIDEO-LAYOUT"@, m.req_video_layout, "AVERAGE-BANDWIDTH"@);
    lemma_lookup_push_quoted_opt(l10, "STABLE-VARIANT-ID"@, m.stable_variant_id, "AVERAGE-BANDWIDTH"@);
    lemma_lookup_push_quoted_opt(l11, "AUDIO"@, m.audio, "AVERAGE-BANDWIDTH"@);
    lemma_lookup_push_quoted_opt(l12, "VIDEO"@, m.video, "AVERAGE-BANDWIDTH"@);
    lemma_lookup_push_quoted_opt(l13, "SUBTITLES"@, m.subtitles, "AVERAGE-BANDWIDTH"@);
    lemma_lookup_push_quoted_opt(l14, "CLOSED-CAPTIONS"@, m.closed_captions, "AVERAGE-BANDWIDTH"@);
    lemma_lookup_push_quoted_opt(l15, "PATHWAY-ID"@, m.pathway_id, "AVERAGE-BANDWIDTH"@);
    lemma_lookup_push(Seq::empty(), ("BANDWIDTH"@, AttributeValueView::Unquoted(dec(m.bandwidth as nat))), "SCORE"@);
    lemma_lookup_push_integer_opt(l0, "AVERAGE-BANDWIDTH"@, m.average_bandwidth, "SCORE"@);
    lemma_lookup_push_unquoted_opt(l1, "SCORE"@, opt_encode(m.score), "SCORE"@);
    lemma_lookup_push_quoted_opt(l2, "CODECS"@, m.codecs, "SCORE"@);
    lemma_lookup_push_quoted_opt(l3, "SUPPLEMENTAL-CODECS"@, m.supplemental_codecs, "SCORE"@);
    lemma_lookup_push_unquoted_opt(l4, "RESOLUTION"@, opt_resolution_text(m.resolution), "SCORE"@);
    lemma_lookup_push_unquoted_opt(l5, "FRAME-RATE"@, opt_encode(m.frame_rate), "SCORE"@);
    lemma_lookup_push_unquoted_opt(l6, "HDCP-LEVEL"@, opt_encode(m.hdcp_level), "SCORE"@);
    lemma_lookup_push_quoted_opt(l7, "ALLOWED-CPC"@, m.allowed_cpc, "SCORE"@);
    lemma_lookup_push_unquoted_opt(l8, "VIDEO-RANGE"@, opt_encode(m.video_range), "SCORE"@);
    lemma_lookup_push_quoted_opt(l9, "REQ-VIDEO-LAYOUT"@, m.req_video_layout, "SCORE"@);
    lemma_lookup_push_quoted_opt(l10, "STABLE-VARIANT-ID"@, m.stable_variant_id, "SCORE"@);
    lemma_lookup_push_quoted_opt(l11, "AUDIO"@, m.audio, "SCORE"@);
    lemma_lookup_push_quoted_opt(l12, "VIDEO"@, m.video, "SCORE"@);
    lemma_lookup_push_quoted_opt(l13, "SUBTITLES"@, m.subtitles, "SCORE"@);
    lemma_lookup_push_quoted_opt(l14, "CLOSED-CAPTIONS"@, m.closed_captions, "SCORE"@);
    lemma_lookup_push_quoted_opt(l15, "PATHWAY-ID"@, m.pathway_id, "SCORE"@);
    assert(Seq::<(Seq<char>, AttributeValueView)>::empty().push(("BANDWIDTH"@, AttributeValueView::Unquoted(dec(m.bandwidth as nat)))) =~= l0);
    crate::utils::lemma_parse_u64_of_dec(m.bandwidth);
    if let Some(v) = m.average_bandwidth {
        crate::utils::lemma_parse_u64_of_dec(v);
    }
    if let Some(v) = m.score {
        encode_utf8_valid_utf8(v);
        encode_utf8_decode_utf8(v);
    }
    assert(integer_attr(l16, "BANDWIDTH"@) == Some(m.bandwidth));
    assert(integer_attr(l16, "AVERAGE-BANDWIDTH"@) == m.average_bandwidth);
    assert(utf8_attr(l16, "SCORE"@) == m.score);
}

#[verifier::spinoff_prover]
proof fn lemma_stream_inf_lookup_1(m: StreamInfAttributes)
    ensures
        quoted_attr(stream_inf_entries(m), "CODECS"@) == m.codecs,
        quoted_attr(stream_inf_entries(m), "SUPPLEMENTAL-CODECS"@) == m.supplemental_codecs,
        resolution_attr(stream_inf_entries(m), "RESOLUTION"@) == m.resolution,
{
    reveal_strlit("BANDWIDTH");
    reveal_strlit("AVERAGE-BANDWIDTH");
    reveal_strlit("SCORE");
    reveal_strlit("CODECS");
    reveal_strlit("SUPPLEMENTAL-CODECS");
    reveal_strlit("RESOLUTION");
    reveal_strlit("FRAME-RATE");
    reveal_strlit("HDCP-LEVEL");
    reveal_strlit("ALLOWED-CPC");
    reveal_strlit("VIDEO-RANGE");
    reveal_strlit("REQ-VIDEO-LAYOUT");
    reveal_strlit("STABLE-VARIANT-ID");
    reveal_strlit("AUDIO");
    reveal_strlit("VIDEO");
    reveal_strlit("SUBTITLES");
    reveal_strlit("CLOSED-CAPTIONS");
    reveal_strlit("PATHWAY-ID");
    assert("CODECS"@.len() != "BANDWIDTH"@.len());
    assert("CODECS"@.len() != "AVERAGE-BANDWIDTH"@.len());
    assert("CODECS"@.len() != "SCORE"@.len());
    assert("CODECS"@.len() != "SUPPLEMENTAL-CODECS"@.len());
    assert("CODECS"@.len() != "RESOLUTION"@.len());
    assert("CODECS"@.len() != "FRAME-RATE"@.len());
    assert("CODECS"@.len() != "HDCP-LEVEL"@.len());
    assert("CODECS"@.len() != "ALLOWED-CPC"@.len());
    assert("CODECS"@.len() != "VIDEO-RANGE"@.len());
    assert("CODECS"@.len() != "REQ-VIDEO-LAYOUT"@.len());
    assert("CODECS"@.len() != "STABLE-VARIANT-ID"@.len());
    assert("CODECS"@.len() != "AUDIO"@.len());
    assert("CODECS"@.len() != "VIDEO"@.len());
    assert("CODECS"@.len() != "SUBTITLES"@.len());
    assert("CODECS"@.len() != "CLOSED-CAPTIONS"@.len());
    assert("CODECS"@.len() != "PATHWAY-ID"@.len());
    assert("SUPPLEMENTAL-CODECS"@.len() != "BANDWIDTH"@.len());
    assert("SUPPLEMENTAL-CODECS"@.len() != "AVERAGE-BANDWIDTH"@.len());
    assert("SUPPLEMENTAL-CODECS"@.len() != "SCORE"@.len());
    assert("SUPPLEMENTAL-CODECS"@.len() != "CODECS"@.len());
    assert("SUPPLEMENTAL-CODECS"@.len() != "RESOLUTION"@.len());
    assert("SUPPLEMENTAL-CODECS"@.len() != "FRAME-RATE"@.len());
    assert("SUPPLEMENTAL-CODECS"@.len() != "HDCP-LEVEL"@.len());
    assert("SUPPLEMENTAL-CODECS"@.len() != "ALLOWED-CPC"@.len());
    assert("SUPPLEMENTAL-CODECS"@.len() != "VIDEO-RANGE"@.len());
    assert("SUPPLEMENTAL-CODECS"@.len() != "REQ-VIDEO-LAYOUT"@.len());
    assert("SUPPLEMENTAL-CODECS"@.len() != "STABLE-VARIANT-ID"@.len());
    assert("SUPPLEMENTAL-CODECS"@.len() != "AUDIO"@.len());
    assert("SUPPLEMENTAL-CODECS"@.len() != "VIDEO"@.len());
    assert("SUPPLEMENTAL-CODECS"@.len() != "SUBTITLES"@.len());
    assert("SUPPLEMENTAL-CODECS"@.len() != "CLOSED-CAPTIONS"@.len());
    assert("SUPPLEMENTAL-CODECS"@.len() != "PATHWAY-ID"@.len());
    assert("RESOLUTION"@.len() != "BANDWIDTH"@.len());
    assert("RESOLUTION"@.len() != "AVERAGE-BANDWIDTH"@.len());
    assert("RESOLUTION"@.len() != "SCORE"@.len());
    assert("RESOLUTION"@.len() != "CODECS"@.len());
    assert("RESOLUTION"@.len() != "SUPPLEMENTAL-CODECS"@.len());
    assert("RESOLUTION"@[0] != "FRAME-RATE"@[0]);
    assert("RESOLUTION"@[0] != "HDCP-LEVEL"@[0]);
    assert("RESOLUTION"@.len() != "ALLOWED-CPC"@.len());
    assert("RESOLUTION"@.len() != "VIDEO-RANGE"@.len());
    assert("RESOLUTION"@.len() != "REQ-VIDEO-LAYOUT"@.len());
    assert("RESOLUTION"@.len() != "STABLE-VARIANT-ID"@.len());
    assert("RESOLUTION"@.len() != "AUDIO"@.len());
    assert("RESOLUTION"@.len() != "VIDEO"@.len());
    assert("RESOLUTION"@.len() != "SUBTITLES"@.len());
    assert("RESOLUTION"@.len() != "CLOSED-CAPTIONS"@.len());
    assert("RESOLUTION"@[0] != "PATHWAY-ID"@[0]);
    let l0 = seq![("BANDWIDTH"@, AttributeValueView::Unquoted(dec(m.bandwidth as nat)))];
    let l1 = push_integer_opt(l0, "AVERAGE-BANDWIDTH"@, m.average_bandwidth);
    let l2 = push_unquoted_opt(l1, "SCORE"@, opt_encode(m.score));
    let l3 = push_quoted_opt(l2, "CODECS"@, m.codecs);
    let l4 = push_quoted_opt(l3, "SUPPLEMENTAL-CODECS"@, m.supplemental_codecs);
    let l5 = push_unquoted_opt(l4, "RESOLUTION"@, opt_resolution_text(m.resolution));
    let l6 = push_unquoted_opt(l5, "FRAME-RATE"@, opt_encode(m.frame_rate));
    let l7 = push_unquoted_opt(l6, "HDCP-LEVEL"@, opt_encode(m.hdcp_level));
    let l8 = push_quoted_opt(l7, "ALLOWED-CPC"@, m.allowed_cpc);
    let l9 = push_unquoted_opt(l8, "VIDEO-RANGE"@, opt_encode(m.video_range));
    let l10 = push_quoted_opt(l9, "REQ-VIDEO-LAYOUT"@, m.req_video_layout);
    let l11 = push_quoted_opt(l10, "STABLE-VARIANT-ID"@, m.stable_variant_id);
    let l12 = push_quoted_opt(l11, "AUDIO"@, m.audio);
    let l13 = push_quoted_opt(l12, "VIDEO"@, m.video);
    let l14 = push_quoted_opt(l13, "SUBTITLES"@, m.subtitles);
    let l15 = push_quoted_opt(l14, "CLOSED-CAPTIONS"@, m.closed_captions);
    let l16 = push_quoted_opt(l15, "PATHWAY-ID"@, m.pathway_id);
    assert(l4 == stream_inf_entries_0(m));
    assert(l10 == stream_inf_entries_1(m));
    assert(l16 == stream_inf_entries(m));
    lemma_lookup_push(Seq::empty(), ("BANDWIDTH"@, AttributeValueView::Unquoted(dec(m.bandwidth as nat))), "CODECS"@);
    lemma_lookup_push_integer_opt(l0, "AVERAGE-BANDWIDTH"@, m.average_bandwidth, "CODECS"@);
    lemma_lookup_push_unquoted_opt(l1, "SCORE"@, opt_encode(m.score), "CODECS"@);
    lemma_lookup_push_quoted_opt(l2, "CODECS"@, m.codecs, "CODECS"@);
    lemma_lookup_push_quoted_opt(l3, "SUPPLEMENTAL-CODECS"@, m.supplemental_codecs, "CODECS"@);
    lemma_lookup_push_unquoted_opt(l4, "RESOLUTION"@, opt_resolution_text(m.resolution), "CODECS"@);
    lemma_lookup_push_unquoted_opt(l5, "FRAME-RATE"@, opt_encode(m.frame_rate), "CODECS"@);
    lemma_lookup_push_unquoted_opt(l6, "HDCP-LEVEL"@, opt_encode(m.hdcp_level), "CODECS"@);
    lemma_lookup_push_quoted_opt(l7, "ALLOWED-CPC"@, m.allowed_cpc, "CODECS"@);
    lemma_lookup_push_unquoted_opt(l8, "VIDEO-RANGE"@, opt_encode(m.video_range), "CODECS"@);
    lemma_lookup_push_quoted_opt(l9, "REQ-VIDEO-LAYOUT"@, m.req_video_layout, "CODECS"@);
    lemma_lookup_push_quoted_opt(l10, "STABLE-VARIANT-ID"@, m.stable_variant_id, "CODECS"@);
    lemma_lookup_push_quoted_opt(l11, "AUDIO"@, m.audio, "CODECS"@);
    lemma_lookup_push_quoted_opt(l12, "VIDEO"@, m.video, "CODECS"@);
    lemma_lookup_push_quoted_opt(l13, "SUBTITLES"@, m.subtitles, "CODECS"@);
    lemma_lookup_push_quoted_opt(l14, "CLOSED-CAPTIONS"@, m.closed_captions, "CODECS"@);
    lemma_lookup_push_quoted_opt(l15, "PATHWAY-ID"@, m.pathway_id, "CODECS"@);
    lemma_lookup_push(Seq::empty(), ("BANDWIDTH"@, AttributeValueView::Unquoted(dec(m.bandwidth as nat))), "SUPPLEMENTAL-CODECS"@);
    lemma_lookup_push_integer_opt(l0, "AVERAGE-BANDWIDTH"@, m.average_bandwidth, "SUPPLEMENTAL-CODECS"@);
    lemma_lookup_push_unquoted_opt(l1, "SCORE"@, opt_encode(m.score), "SUPPLEMENTAL-CODECS"@);
    lemma_lookup_push_quoted_opt(l2, "CODECS"@, m.codecs, "SUPPLEMENTAL-CODECS"@);
    lemma_lookup_push_quoted_opt(l3, "SUPPLEMENTAL-CODECS"@, m.supplemental_codecs, "SUPPLEMENTAL-CODECS"@);
    lemma_lookup_push_unquoted_opt(l4, "RESOLUTION"@, opt_resolution_text(m.resolution), "SUPPLEMENTAL-CODECS"@);
    lemma_lookup_push_unquoted_opt(l5, "FRAME-RATE"@, opt_encode(m.frame_rate), "SUPPLEMENTAL-CODECS"@);
    lemma_lookup_push_unquoted_opt(l6, "HDCP-LEVEL"@, opt_encode(m.hdcp_level), "SUPPLEMENTAL-CODECS"@);
    lemma_lookup_push_quoted_opt(l7, "ALLOWED-CPC"@, m.allowed_cpc, "SUPPLEMENTAL-CODECS"@);
    lemma_lookup_push_unquoted_opt(l8, "VIDEO-RANGE"@, opt_encode(m.video_range), "SUPPLEMENTAL-CODECS"@);
    lemma_lookup_push_quoted_opt(l9, "REQ-VIDEO-LAYOUT"@, m.req_video_layout, "SUPPLEMENTAL-CODECS"@);
    lemma_lookup_push_quoted_opt(l10, "STABLE-VARIANT-ID"@, m.stable_variant_id, "SUPPLEMENTAL-CODECS"@);
    lemma_lookup_push_quoted_opt(l11, "AUDIO"@, m.audio, "SUPPLEMENTAL-CODECS"@);
    lemma_lookup_push_quoted_opt(l12, "VIDEO"@, m.video, "SUPPLEMENTAL-CODECS"@);
    lemma_lookup_push_quoted_opt(l13, "SUBTITLES"@, m.subtitles, "SUPPLEMENTAL-CODECS"@);
    lemma_lookup_push_quoted_opt(l14, "CLOSED-CAPTIONS"@, m.closed_captions, "SUPPLEMENTAL-CODECS"@);
    lemma_lookup_push_quoted_opt(l15, "PATHWAY-ID"@, m.pathway_id, "SUPPLEMENTAL-CODECS"@);
    lemma_lookup_push(Seq::empty(), ("BANDWIDTH"@, AttributeValueView::Unquoted(dec(m.bandwidth as nat))), "RESOLUTION"@);
    lemma_lookup_push_integer_opt(l0, "AVERAGE-BANDWIDTH"@, m.average_bandwidth, "RESOLUTION"@);
    lemma_lookup_push_unquoted_opt(l1, "SCORE"@, opt_encode(m.score), "RESOLUTION"@);
    lemma_lookup_push_quoted_opt(l2, "CODECS"@, m.codecs, "RESOLUTION"@);
    lemma_lookup_push_quoted_opt(l3, "SUPPLEMENTAL-CODECS"@, m.supplemental_codecs, "RESOLUTION"@);
    lemma_lookup_push_unquoted_opt(l4, "RESOLUTION"@, opt_resolution_text(m.resolution), "RESOLUTION"@);
    lemma_lookup_push_unquoted_opt(l5, "FRAME-RATE"@, opt_encode(m.frame_rate), "RESOLUTION"@);
    lemma_lookup_push_unquoted_opt(l6, "HDCP-LEVEL"@, opt_encode(m.hdcp_level), "RESOLUTION"@);
    lemma_lookup_push_quoted_opt(l7, "ALLOWED-CPC"@, m.allowed_cpc, "RESOLUTION"@);
    lemma_lookup_push_unquoted_opt(l8, "VIDEO-RANGE"@, opt_encode(m.video_range), "RESOLUTION"@);
    lemma_lookup_push_quoted_opt(l9, "REQ-VIDEO-LAYOUT"@, m.req_video_layout, "RESOLUTION"@);
    lemma_lookup_push_quoted_opt(l10, "STABLE-VARIANT-ID"@, m.stable_variant_id, "RESOLUTION"@);
    lemma_lookup_push_quoted_opt(l11, "AUDIO"@, m.audio, "RESOLUTION"@);
    lemma_lookup_push_quoted_opt(l12, "VIDEO"@, m.video, "RESOLUTION"@);
    lemma_lookup_push_quoted_opt(l13, "SUBTITLES"@, m.subtitles, "RESOLUTION"@);
    lemma_lookup_push_quoted_opt(l14, "CLOSED-CAPTIONS"@, m.closed_captions, "RESOLUTION"@);
    lemma_lookup_push_quoted_opt(l15, "PATHWAY-ID"@, m.pathway_id, "RESOLUTION"@);
    assert(Seq::<(Seq<char>, AttributeValueView)>::empty().push(("BANDWIDTH"@, AttributeValueView::Unquoted(dec(m.bandwidth as nat)))) =~= l0);
    if let Some(v) = m.resolution {
        lemma_resolution_value_ok(v);
    }
    assert(quoted_attr(l16, "CODECS"@) == m.codecs);
    assert(quoted_attr(l16, "SUPPLEMENTAL-CODECS"@) == m.supplemental_codecs);
    assert(resolution_attr(l16, "RESOLUTION"@) == m.resolution);
}

#[verifier::spinoff_prover]
proof fn lemma_stream_inf_lookup_2(m: StreamInfAttributes)
    ensures
        utf8_attr(stream_inf_entries(m), "FRAME-RATE"@) == m.frame_rate,
        utf8_attr(stream_inf_entries(m), "HDCP-LEVEL"@) == m.hdcp_level,
        quoted_attr(stream_inf_entries(m), "ALLOWED-CPC"@) == m.allowed_cpc,
{
    reveal_strlit("BANDWIDTH");
    reveal_strlit("AVERAGE-BANDWIDTH");
    reveal_strlit("SCORE");
    reveal_strlit("CODECS");
    reveal_strlit("SUPPLEMENTAL-CODECS");
    reveal_strlit("RESOLUTION");
    reveal_strlit("FRAME-RATE");
    reveal_strlit("HDCP-LEVEL");
    reveal_strlit("ALLOWED-CPC");
    reveal_strlit("VIDEO-RANGE");
    reveal_strlit("REQ-VIDEO-LAYOUT");
    reveal_strlit("STABLE-VARIANT-ID");
    reveal_strlit("AUDIO");
    reveal_strlit("VIDEO");
    reveal_strlit("SUBTITLES");
    reveal_strlit("CLOSED-CAPTIONS");
    reveal_strlit("PATHWAY-ID");
    assert("FRAME-RATE"@.len() != "BANDWIDTH"@.len());
    assert("FRAME-RATE"@.len() != "AVERAGE-BANDWIDTH"@.len());
    assert("FRAME-RATE"@.len() != "SCORE"@.len());
    assert("FRAME-RATE"@.len() != "CODECS"@.len());
    assert("FRAME-RATE"@.len() != "SUPPLEMENTAL-CODECS"@.len());
    assert("FRAME-RATE"@[0] != "RESOLUTION"@[0]);
    assert("FRAME-RATE"@[0] != "HDCP-LEVEL"@[0]);
    assert("FRAME-RATE"@.len() != "ALLOWED-CPC"@.len());
    assert("FRAME-RATE"@.len() != "VIDEO-RANGE"@.len());
    assert("FRAME-RATE"@.len() != "REQ-VIDEO-LAYOUT"@.len());
    assert("FRAME-RATE"@.len() != "STABLE-VARIANT-ID"@.len());
    assert("FRAME-RATE"@.len() != "AUDIO"@.len());
    assert("FRAME-RATE"@.len() != "VIDEO"@.len());
    assert("FRAME-RATE"@.len() != "SUBTITLES"@.len());
    assert("FRAME-RATE"@.len() != "CLOSED-CAPTIONS"@.len());
    assert("FRAME-RATE"@[0] != "PATHWAY-ID"@[0]);
    assert("HDCP-LEVEL"@.len() != "BANDWIDTH"@.len());
    assert("HDCP-LEVEL"@.len() != "AVERAGE-BANDWIDTH"@.len());
    assert("HDCP-LEVEL"@.len() != "SCORE"@.len());
    assert("HDCP-LEVEL"@.len() != "CODECS"@.len());
    assert("HDCP-LEVEL"@.len() != "SUPPLEMENTAL-CODECS"@.len());
    assert("HDCP-LEVEL"@[0] != "RESOLUTION"@[0]);
    assert("HDCP-LEVEL"@[0] != "FRAME-RATE"@[0]);
    assert("HDCP-LEVEL"@.len() != "ALLOWED-CPC"@.len());
    assert("HDCP-LEVEL"@.len() != "VIDEO-RANGE"@.len());
    assert("HDCP-LEVEL"@.len() != "REQ-VIDEO-LAYOUT"@.len());
    assert("HDCP-LEVEL"@.len() != "STABLE-VARIANT-ID"@.len());
    assert("HDCP-LEVEL"@.len() != "AUDIO"@.len());
    assert("HDCP-LEVEL"@.len() != "VIDEO"@.len());
    assert("HDCP-LEVEL"@.len() != "SUBTITLES"@.len());
    assert("HDCP-LEVEL"@.len() != "CLOSED-CAPTIONS"@.len());
    assert("HDCP-LEVEL"@[0] != "PATHWAY-ID"@[0]);
    assert("ALLOWED-CPC"@.len() != "BANDWIDTH"@.len());
    assert("ALLOWED-CPC"@.len() != "AVERAGE-BANDWIDTH"@.len());
    assert("ALLOWED-CPC"@.len() != "SCORE"@.len());
    assert("ALLOWED-CPC"@.len() != "CODECS"@.len());
    assert("ALLOWED-CPC"@.len() != "SUPPLEMENTAL-CODECS"@.len());
    assert("ALLOWED-CPC"@.len() != "RESOLUTION"@.len());
    assert("ALLOWED-CPC"@.len() != "FRAME-RATE"@.len());
    assert("ALLOWED-CPC"@.len() != "HDCP-LEVEL"@.len());
    assert("ALLOWED-CPC"@[0] != "VIDEO-RANGE"@[0]);
    assert("ALLOWED-CPC"@.len() != "REQ-VIDEO-LAYOUT"@.len());
    assert("ALLOWED-CPC"@.len() != "STABLE-VARIANT-ID"@.len());
    assert("ALLOWED-CPC"@.len() != "AUDIO"@.len());
    assert("ALLOWED-CPC"@.len() != "VIDEO"@.len());
    assert("ALLOWED-CPC"@.len() != "SUBTITLES"@.len());
    assert("ALLOWED-CPC"@.len() != "CLOSED-CAPTIONS"@.len());
    assert("ALLOWED-CPC"@.len() != "PATHWAY-ID"@.len());
    let l0 = seq![("BANDWIDTH"@, AttributeValueView::Unquoted(dec(m.bandwidth as nat)))];
    let l1 = push_integer_opt(l0, "AVERAGE-BANDWIDTH"@, m.average_bandwidth);
    let l2 = push_unquoted_opt(l1, "SCORE"@, opt_encode(m.score));
    let l3 = push_quoted_opt(l2, "CODECS"@, m.codecs);
    let l4 = push_quoted_opt(l3, "SUPPLEMENTAL-CODECS"@, m.supplemental_codecs);
    let l5 = push_unquoted_opt(l4, "RESOLUTION"@, opt_resolution_text(m.resolution));
    let l6 = push_unquoted_opt(l5, "FRAME-RATE"@, opt_encode(m.frame_rate));
    let l7 = push_unquoted_opt(l6, "HDCP-LEVEL"@, opt_encode(m.hdcp_level));
    let l8 = push_quoted_opt(l7, "ALLOWED-CPC"@, m.allowed_cpc);
    let l9 = push_unquoted_opt(l8, "VIDEO-RANGE"@, opt_encode(m.video_range));
    let l10 = push_quoted_opt(l9, "REQ-VIDEO-LAYOUT"@, m.req_video_layout);
    let l11 = push_quoted_opt(l10, "STABLE-VARIANT-ID"@, m.stable_variant_id);
    let l12 = push_quoted_opt(l11, "AUDIO"@, m.audio);
    let l13 = push_quoted_opt(l12, "VIDEO"@, m.video);
    let l14 = push_quoted_opt(l13, "SUBTITLES"@, m.subtitles);
    let l15 = push_quoted_opt(l14, "CLOSED-CAPTIONS"@, m.closed_captions);
    let l16 = push_quoted_opt(l15, "PATHWAY-ID"@, m.pathway_id);
    assert(l4 == stream_inf_entries_0(m));
    assert(l10 == stream_inf_entries_1(m));
    assert(l16 == stream_inf_entries(m));
    lemma_lookup_push(Seq::empty(), ("BANDWIDTH"@, AttributeValueView::Unquoted(dec(m.bandwidth as nat))), "FRAME-RATE"@);
    lemma_lookup_push_integer_opt(l0, "AVERAGE-BANDWIDTH"@, m.average_bandwidth, "FRAME-RATE"@);
    lemma_lookup_push_unquoted_opt(l1, "SCORE"@, opt_encode(m.score), "FRAME-RATE"@);
    lemma_lookup_push_quoted_opt(l2, "CODECS"@, m.codecs, "FRAME-RATE"@);
    lemma_lookup_push_quoted_opt(l3, "SUPPLEMENTAL-CODECS"@, m.supplemental_codecs, "FRAME-RATE"@);
    lemma_lookup_push_unquoted_opt(l4, "RESOLUTION"@, opt_resolution_text(m.resolution), "FRAME-RATE"@);
    lemma_lookup_push_unquoted_opt(l5, "FRAME-RATE"@, opt_encode(m.frame_rate), "FRAME-RATE"@);
    lemma_lookup_push_unquoted_opt(l6, "HDCP-LEVEL"@, opt_encode(m.hdcp_level), "FRAME-RATE"@);
    lemma_lookup_push_quoted_opt(l7, "ALLOWED-CPC"@, m.allowed_cpc, "FRAME-RATE"@);
    lemma_lookup_push_unquoted_opt(l8, "VIDEO-RANGE"@, opt_encode(m.video_range), "FRAME-RATE"@);
    lemma_lookup_push_quoted_opt(l9, "REQ-VIDEO-LAYOUT"@, m.req_video_layout, "FRAME-RATE"@);
    lemma_lookup_push_quoted_opt(l10, "STABLE-VARIANT-ID"@, m.stable_variant_id, "FRAME-RATE"@);
    lemma_lookup_push_quoted_opt(l11, "AUDIO"@, m.audio, "FRAME-RATE"@);
    lemma_lookup_push_quoted_opt(l12, "VIDEO"@, m.video, "FRAME-RATE"@);
    lemma_lookup_push_quoted_opt(l13, "SUBTITLES"@, m.subtitles, "FRAME-RATE"@);
    lemma_lookup_push_quoted_opt(l14, "CLOSED-CAPTIONS"@, m.closed_captions, "FRAME-RATE"@);
    lemma_lookup_push_quoted_opt(l15, "PATHWAY-ID"@, m.pathway_id, "FRAME-RATE"@);
    lemma_lookup_push(Seq::empty(), ("BANDWIDTH"@, AttributeValueView::Unquoted(dec(m.bandwidth as nat))), "HDCP-LEVEL"@);
    lemma_lookup_push_integer_opt(l0, "AVERAGE-BANDWIDTH"@, m.average_bandwidth, "HDCP-LEVEL"@);
    lemma_lookup_push_unquoted_opt(l1, "SCORE"@, opt_encode(m.score), "HDCP-LEVEL"@);
    lemma_lookup_push_quoted_opt(l2, "CODECS"@, m.codecs, "HDCP-LEVEL"@);
    lemma_lookup_push_quoted_opt(l3, "SUPPLEMENTAL-CODECS"@, m.supplemental_codecs, "HDCP-LEVEL"@);
    lemma_lookup_push_unquoted_opt(l4, "RESOLUTION"@, opt_resolution_text(m.resolution), "HDCP-LEVEL"@);
    lemma_lookup_push_unquoted_opt(l5, "FRAME-RATE"@, opt_encode(m.frame_rate), "HDCP-LEVEL"@);
    lemma_lookup_push_unquoted_opt(l6, "HDCP-LEVEL"@, opt_encode(m.hdcp_level), "HDCP-LEVEL"@);
    lemma_lookup_push_quoted_opt(l7, "ALLOWED-CPC"@, m.allowed_cpc, "HDCP-LEVEL"@);
    lemma_lookup_push_unquoted_opt(l8, "VIDEO-RANGE"@, opt_encode(m.video_range), "HDCP-LEVEL"@);
    lemma_lookup_push_quoted_opt(l9, "REQ-VIDEO-LAYOUT"@, m.req_video_layout, "HDCP-LEVEL"@);
    lemma_lookup_push_quoted_opt(l10, "STABLE-VARIANT-ID"@, m.stable_variant_id, "HDCP-LEVEL"@);
    lemma_lookup_push_quoted_opt(l11, "AUDIO"@, m.audio, "HDCP-LEVEL"@);
    lemma_lookup_push_quoted_opt(l12, "VIDEO"@, m.video, "HDCP-LEVEL"@);
    lemma_lookup_push_quoted_opt(l13, "SUBTITLES"@, m.subtitles, "HDCP-LEVEL"@);
    lemma_lookup_push_quoted_opt(l14, "CLOSED-CAPTIONS"@, m.closed_captions, "HDCP-LEVEL"@);
    lemma_lookup_push_quoted_opt(l15, "PATHWAY-ID"@, m.pathway_id, "HDCP-LEVEL"@);
    lemma_lookup_push(Seq::empty(), ("BANDWIDTH"@, AttributeValueView::Unquoted(dec(m.bandwidth as nat))), "ALLOWED-CPC"@);
    lemma_lookup_push_integer_opt(l0, "AVERAGE-BANDWIDTH"@, m.average_bandwidth, "ALLOWED-CPC"@);
    lemma_lookup_push_unquoted_opt(l1, "SCORE"@, opt_encode(m.score), "ALLOWED-CPC"@);
    lemma_lookup_push_quoted_opt(l2, "CODECS"@, m.codecs, "ALLOWED-CPC"@);
    lemma_lookup_push_quoted_opt(l3, "SUPPLEMENTAL-CODECS"@, m.supplemental_codecs, "ALLOWED-CPC"@);
    lemma_lookup_push_unquoted_opt(l4, "RESOLUTION"@, opt_resolution_text(m.resolution), "ALLOWED-CPC"@);
    lemma_lookup_push_unquoted_opt(l5, "FRAME-RATE"@, opt_encode(m.frame_rate), "ALLOWED-CPC"@);
    lemma_lookup_push_unquoted_opt(l6, "HDCP-LEVEL"@, opt_encode(m.hdcp_level), "ALLOWED-CPC"@);
    lemma_lookup_push_quoted_opt(l7, "ALLOWED-CPC"@, m.allowed_cpc, "ALLOWED-CPC"@);
    lemma_lookup_push_unquoted_opt(l8, "VIDEO-RANGE"@, opt_encode(m.video_range), "ALLOWED-CPC"@);
    lemma_lookup_push_quoted_opt(l9, "REQ-VIDEO-LAYOUT"@, m.req_video_layout, "ALLOWED-CPC"@);
    lemma_lookup_push_quoted_opt(l10, "STABLE-VARIANT-ID"@, m.stable_variant_id, "ALLOWED-CPC"@);
    lemma_lookup_push_quoted_opt(l11, "AUDIO"@, m.audio, "ALLOWED-CPC"@);
    lemma_lookup_push_quoted_opt(l12, "VIDEO"@, m.video, "ALLOWED-CPC"@);
    lemma_lookup_push_quoted_opt(l13, "SUBTITLES"@, m.subtitles, "ALLOWED-CPC"@);
    lemma_lookup_push_quoted_opt(l14, "CLOSED-CAPTIONS"@, m.closed_captions, "ALLOWED-CPC"@);
    lemma_lookup_push_quoted_opt(l15, "PATHWAY-ID"@, m.pathway_id, "ALLOWED-CPC"@);
    assert(Seq::<(Seq<char>, AttributeValueView)>::empty().push(("BANDWIDTH"@, AttributeValueView::Unquoted(dec(m.bandwidth as nat)))) =~= l0);
    if let Some(v) = m.frame_rate {
        encode_utf8_valid_utf8(v);
        encode_utf8_decode_utf8(v);
    }
    if let Some(v) = m.hdcp_level {
        encode_utf8_valid_utf8(v);
        encode_utf8_decode_utf8(v);
    }
    assert(utf8_attr(l16, "FRAME-RATE"@) == m.frame_rate);
    assert(utf8_attr(l16, "HDCP-LEVEL"@) == m.hdcp_level);
    assert(quoted_attr(l16, "ALLOWED-CPC"@) == m.allowed_cpc);
}

#[verifier::spinoff_prover]
proof fn lemma_stream_inf_lookup_3(m: StreamInfAttributes)
    ensures
        utf8_attr(stream_inf_entries(m), "VIDEO-RANGE"@) == m.video_range,
        quoted_attr(stream_inf_entries(m), "REQ-VIDEO-LAYOUT"@) == m.req_video_layout,
        quoted_attr(stream_inf_entries(m), "STABLE-VARIANT-ID"@) == m.stable_variant_id,
{
    reveal_strlit("BANDWIDTH");
    reveal_strlit("AVERAGE-BANDWIDTH");
    reveal_strlit("SCORE");
    reveal_strlit("CODECS");
    reveal_strlit("SUPPLEMENTAL-CODECS");
    reveal_strlit("RESOLUTION");
    reveal_strlit("FRAME-RATE");
    reveal_strlit("HDCP-LEVEL");
    reveal_strlit("ALLOWED-CPC");
    reveal_strlit("VIDEO-RANGE");
    reveal_strlit("REQ-VIDEO-LAYOUT");
    reveal_strlit("STABLE-VARIANT-ID");
    reveal_strlit("AUDIO");
    reveal_strlit("VIDEO");
    reveal_strlit("SUBTITLES");
    reveal_strlit("CLOSED-CAPTIONS");
    reveal_strlit("PATHWAY-ID");
    assert("VIDEO-RANGE"@.len() != "BANDWIDTH"@.len());
    assert("VIDEO-RANGE"@.len() != "AVERAGE-BANDWIDTH"@.len());
    assert("VIDEO-RANGE"@.len() != "SCORE"@.len());
    assert("VIDEO-RANGE"@.len() != "CODECS"@.len());
    assert("VIDEO-RANGE"@.len() != "SUPPLEMENTAL-CODECS"@.len());
    assert("VIDEO-RANGE"@.len() != "RESOLUTION"@.len());
    assert("VIDEO-RANGE"@.len() != "FRAME-RATE"@.len());
    assert("VIDEO-RANGE"@.len() != "HDCP-LEVEL"@.len());
    assert("VIDEO-RANGE"@[0] != "ALLOWED-CPC"@[0]);
    assert("VIDEO-RANGE"@.len() != "REQ-VIDEO-LAYOUT"@.len());
    assert("VIDEO-RANGE"@.len() != "STABLE-VARIANT-ID"@.len());
    assert("VIDEO-RANGE"@.len() != "AUDIO"@.len());
    assert("VIDEO-RANGE"@.len() != "VIDEO"@.len());
    assert("VIDEO-RANGE"@.len() != "SUBTITLES"@.len());
    assert("VIDEO-RANGE"@.len() != "CLOSED-CAPTIONS"@.len());
    assert("VIDEO-RANGE"@.len() != "PATHWAY-ID"@.len());
    assert("REQ-VIDEO-LAYOUT"@.len() != "BANDWIDTH"@.len());
    assert("REQ-VIDEO-LAYOUT"@.len() != "AVERAGE-BANDWIDTH"@.len());
    assert("REQ-VIDEO-LAYOUT"@.len() != "SCORE"@.len());
    assert("REQ-VIDEO-LAYOUT"@.len() != "CODECS"@.len());
    assert("REQ-VIDEO-LAYOUT"@.len() != "SUPPLEMENTAL-CODECS"@.len());
    assert("REQ-VIDEO-LAYOUT"@.len() != "RESOLUTION"@.len());
    assert("REQ-VIDEO-LAYOUT"@.len() != "FRAME-RATE"@.len());
    assert("REQ-VIDEO-LAYOUT"@.len() != "HDCP-LEVEL"@.len());
    assert("REQ-VIDEO-LAYOUT"@.len() != "ALLOWED-CPC"@.len());
    assert("REQ-VIDEO-LAYOUT"@.len() != "VIDEO-RANGE"@.len());
    assert("REQ-VIDEO-LAYOUT"@.len() != "STABLE-VARIANT-ID"@.len());
    assert("REQ-VIDEO-LAYOUT"@.len() != "AUDIO"@.len());
    assert("REQ-VIDEO-LAYOUT"@.len() != "VIDEO"@.len());
    assert("REQ-VIDEO-LAYOUT"@.len() != "SUBTITLES"@.len());
    assert("REQ-VIDEO-LAYOUT"@.len() != "CLOSED-CAPTIONS"@.len());
    assert("REQ-VIDEO-LAYOUT"@.len() != "PATHWAY-ID"@.len());
    assert("STABLE-VARIANT-ID"@.len() != "BANDWIDTH"@.len());
    assert("STABLE-VARIANT-ID"@[0] != "AVERAGE-BANDWIDTH"@[0]);
    assert("STABLE-VARIANT-ID"@.len() != "SCORE"@.len());
    assert("STABLE-VARIANT-ID"@.len() != "CODECS"@.len());
    assert("STABLE-VARIANT-ID"@.len() != "SUPPLEMENTAL-CODECS"@.len());
    assert("STABLE-VARIANT-ID"@.len() != "RESOLUTION"@.len());
    assert("STABLE-VARIANT-ID"@.len() != "FRAME-RATE"@.len());
    assert("STABLE-VARIANT-ID"@.len() != "HDCP-LEVEL"@.len());
    assert("STABLE-VARIANT-ID"@.len() != "ALLOWED-CPC"@.len());
    assert("STABLE-VARIANT-ID"@.len() != "VIDEO-RANGE"@.len());
    assert("STABLE-VARIANT-ID"@.len() != "REQ-VIDEO-LAYOUT"@.len());
    assert("STABLE-VARIANT-ID"@.len() != "AUDIO"@.len());
    assert("STABLE-VARIANT-ID"@.len() != "VIDEO"@.len());
    assert("STABLE-VARIANT-ID"@.len() != "SUBTITLES"@.len());
    assert("STABLE-VARIANT-ID"@.len() != "CLOSED-CAPTIONS"@.len());
    assert("STABLE-VARIANT-ID"@.len() != "PATHWAY-ID"@.len());
    let l0 = seq![("BANDWIDTH"@, AttributeValueView::Unquoted(dec(m.bandwidth as nat)))];
    let l1 = push_integer_opt(l0, "AVERAGE-BANDWIDTH"@, m.average_bandwidth);
    let l2 = push_unquoted_opt(l1, "SCORE"@, opt_encode(m.score));
    let l3 = push_quoted_opt(l2, "CODECS"@, m.codecs);
    let l4 = push_quoted_opt(l3, "SUPPLEMENTAL-CODECS"@, m.supplemental_codecs);
    let l5 = push_unquoted_opt(l4, "RESOLUTION"@, opt_resolution_text(m.resolution));
    let l6 = push_unquoted_opt(l5, "FRAME-RATE"@, opt_encode(m.frame_rate));
    let l7 = push_unquoted_opt(l6, "HDCP-LEVEL"@, opt_encode(m.hdcp_level));
    let l8 = push_quoted_opt(l7, "ALLOWED-CPC"@, m.allowed_cpc);
    let l9 = push_unquoted_opt(l8, "VIDEO-RANGE"@, opt_encode(m.video_range));
    let l10 = push_quoted_opt(l9, "REQ-VIDEO-LAYOUT"@, m.req_video_layout);
    let l11 = push_quoted_opt(l10, "STABLE-VARIANT-ID"@, m.stable_variant_id);
    let l12 = push_quoted_opt(l11, "AUDIO"@, m.audio);
    let l13 = push_quoted_opt(l12, "VIDEO"@, m.video);
    let l14 = push_quoted_opt(l13, "SUBTITLES"@, m.subtitles);
    let l15 = push_quoted_opt(l14, "CLOSED-CAPTIONS"@, m.closed_captions);
    let l16 = push_quoted_opt(l15, "PATHWAY-ID"@, m.pathway_id);
    assert(l4 == stream_inf_entries_0(m));
    assert(l10 == stream_inf_entries_1(m));
    assert(l16 == stream_inf_entries(m));
    lemma_lookup_push(Seq::empty(), ("BANDWIDTH"@, AttributeValueView::Unquoted(dec(m.bandwidth as nat))), "VIDEO-RANGE"@);
    lemma_lookup_push_integer_opt(l0, "AVERAGE-BANDWIDTH"@, m.average_bandwidth, "VIDEO-RANGE"@);
    lemma_lookup_push_unquoted_opt(l1, "SCORE"@, opt_encode(m.score), "VIDEO-RANGE"@);
    lemma_lookup_push_quoted_opt(l2, "CODECS"@, m.codecs, "VIDEO-RANGE"@);
    lemma_lookup_push_quoted_opt(l3, "SUPPLEMENTAL-CODECS"@, m.supplemental_codecs, "VIDEO-RANGE"@);
    lemma_lookup_push_unquoted_opt(l4, "RESOLUTION"@, opt_resolution_text(m.resolution), "VIDEO-RANGE"@);
    lemma_lookup_push_unquoted_opt(l5, "FRAME-RATE"@, opt_encode(m.frame_rate), "VIDEO-RANGE"@);
    lemma_lookup_push_unquoted_opt(l6, "HDCP-LEVEL"@, opt_encode(m.hdcp_level), "VIDEO-RANGE"@);
    lemma_lookup_push_quoted_opt(l7, "ALLOWED-CPC"@, m.allowed_cpc, "VIDEO-RANGE"@);
    lemma_lookup_push_unquoted_opt(l8, "VIDEO-RANGE"@, opt_encode(m.video_range), "VIDEO-RANGE"@);
    lemma_lookup_push_quoted_opt(l9, "REQ-VIDEO-LAYOUT"@, m.req_video_layout, "VIDEO-RANGE"@);
    lemma_lookup_push_quoted_opt(l10, "STABLE-VARIANT-ID"@, m.stable_variant_id, "VIDEO-RANGE"@);
    lemma_lookup_push_quoted_opt(l11, "AUDIO"@, m.audio, "VIDEO-RANGE"@);
    lemma_lookup_push_quoted_opt(l12, "VIDEO"@, m.video, "VIDEO-RANGE"@);
    lemma_lookup_push_quoted_opt(l13, "SUBTITLES"@, m.subtitles, "VIDEO-RANGE"@);
    lemma_lookup_push_quoted_opt(l14, "CLOSED-CAPTIONS"@, m.closed_captions, "VIDEO-RANGE"@);
    lemma_lookup_push_quoted_opt(l15, "PATHWAY-ID"@, m.pathway_id, "VIDEO-RANGE"@);
    lemma_lookup_push(Seq::empty(), ("BANDWIDTH"@, AttributeValueView::Unquoted(dec(m.bandwidth as nat))), "REQ-VIDEO-LAYOUT"@);
    lemma_lookup_push_integer_opt(l0, "AVERAGE-BANDWIDTH"@, m.average_bandwidth, "REQ-VIDEO-LAYOUT"@);
    lemma_lookup_push_unquoted_opt(l1, "SCORE"@, opt_encode(m.score), "REQ-VIDEO-LAYOUT"@);
    lemma_lookup_push_quoted_opt(l2, "CODECS"@, m.codecs, "REQ-VIDEO-LAYOUT"@);
    lemma_lookup_push_quoted_opt(l3, "SUPPLEMENTAL-CODECS"@, m.supplemental_codecs, "REQ-VIDEO-LAYOUT"@);
    lemma_lookup_push_unquoted_opt(l4, "RESOLUTION"@, opt_resolution_text(m.resolution), "REQ-VIDEO-LAYOUT"@);
    lemma_lookup_push_unquoted_opt(l5, "FRAME-RATE"@, opt_encode(m.frame_rate), "REQ-VIDEO-LAYOUT"@);
    lemma_lookup_push_unquoted_opt(l6, "HDCP-LEVEL"@, opt_encode(m.hdcp_level), "REQ-VIDEO-LAYOUT"@);
    lemma_lookup_push_quoted_opt(l7, "ALLOWED-CPC"@, m.allowed_cpc, "REQ-VIDEO-LAYOUT"@);
    lemma_lookup_push_unquoted_opt(l8, "VIDEO-RANGE"@, opt_encode(m.video_range), "REQ-VIDEO-LAYOUT"@);
    lemma_lookup_push_quoted_opt(l9, "REQ-VIDEO-LAYOUT"@, m.req_video_layout, "REQ-VIDEO-LAYOUT"@);
    lemma_lookup_push_quoted_opt(l10, "STABLE-VARIANT-ID"@, m.stable_variant_id, "REQ-VIDEO-LAYOUT"@);
    lemma_lookup_push_quoted_opt(l11, "AUDIO"@, m.audio, "REQ-VIDEO-LAYOUT"@);
    lemma_lookup_push_quoted_opt(l12, "VIDEO"@, m.video, "REQ-VIDEO-LAYOUT"@);
    lemma_lookup_push_quoted_opt(l13, "SUBTITLES"@, m.subtitles, "REQ-VIDEO-LAYOUT"@);
    lemma_lookup_push_quoted_opt(l14, "CLOSED-CAPTIONS"@, m.closed_captions, "REQ-VIDEO-LAYOUT"@);
    lemma_lookup_push_quoted_opt(l15, "PATHWAY-ID"@, m.pathway_id, "REQ-VIDEO-LAYOUT"@);
    lemma_lookup_push(Seq::empty(), ("BANDWIDTH"@, AttributeValueView::Unquoted(dec(m.bandwidth as nat))), "STABLE-VARIANT-ID"@);
    lemma_lookup_push_integer_opt(l0, "AVERAGE-BANDWIDTH"@, m.average_bandwidth, "STABLE-VARIANT-ID"@);
    lemma_lookup_push_unquoted_opt(l1, "SCORE"@, opt_encode(m.score), "STABLE-VARIANT-ID"@);
    lemma_lookup_push_quoted_opt(l2, "CODECS"@, m.codecs, "STABLE-VARIANT-ID"@);
    lemma_lookup_push_quoted_opt(l3, "SUPPLEMENTAL-CODECS"@, m.supplemental_codecs, "STABLE-VARIANT-ID"@);
    lemma_lookup_push_unquoted_opt(l4, "RESOLUTION"@, opt_resolution_text(m.resolution), "STABLE-VARIANT-ID"@);
    lemma_lookup_push_unquoted_opt(l5, "FRAME-RATE"@, opt_encode(m.frame_rate), "STABLE-VARIANT-ID"@);
    lemma_lookup_push_unquoted_opt(l6, "HDCP-LEVEL"@, opt_encode(m.hdcp_level), "STABLE-VARIANT-ID"@);
    lemma_lookup_push_quoted_opt(l7, "ALLOWED-CPC"@, m.allowed_cpc, "STABLE-VARIANT-ID"@);
    lemma_lookup_push_unquoted_opt(l8, "VIDEO-RANGE"@, opt_encode(m.video_range), "STABLE-VARIANT-ID"@);
    lemma_lookup_push_quoted_opt(l9, "REQ-VIDEO-LAYOUT"@, m.req_video_layout, "STABLE-VARIANT-ID"@);
    lemma_lookup_push_quoted_opt(l10, "STABLE-VARIANT-ID"@, m.stable_variant_id, "STABLE-VARIANT-ID"@);
    lemma_lookup_push_quoted_opt(l11, "AUDIO"@, m.audio, "STABLE-VARIANT-ID"@);
    lemma_lookup_push_quoted_opt(l12, "VIDEO"@, m.video, "STABLE-VARIANT-ID"@);
    lemma_lookup_push_quoted_opt(l13, "SUBTITLES"@, m.subtitles, "STABLE-VARIANT-ID"@);
    lemma_lookup_push_quoted_opt(l14, "CLOSED-CAPTIONS"@, m.closed_captions, "STABLE-VARIANT-ID"@);
    lemma_lookup_push_quoted_opt(l15, "PATHWAY-ID"@, m.pathway_id, "STABLE-VARIANT-ID"@);
    assert(Seq::<(Seq<char>, AttributeValueView)>::empty().push(("BANDWIDTH"@, AttributeValueView::Unquoted(dec(m.bandwidth as nat)))) =~= l0);
    if let Some(v) = m.video_range {
        encode_utf8_valid_utf8(v);
        encode_utf8_decode_utf8(v);
    }
    assert(utf8_attr(l16, "VIDEO-RANGE"@) == m.video_range);
    assert(quoted_attr(l16, "REQ-VIDEO-LAYOUT"@) == m.req_video_layout);
    assert(quoted_attr(l16, "STABLE-VARIANT-ID"@) == m.stable_variant_id);
}

#[verifier::spinoff_prover]
proof fn lemma_stream_inf_lookup_4(m: StreamInfAttributes)
    ensures
        quoted_attr(stream_inf_entries(m), "AUDIO"@) == m.audio,
        quoted_attr(stream_inf_entries(m), "VIDEO"@) == m.video,
        quoted_attr(stream_inf_entries(m), "SUBTITLES"@) == m.subtitles,
{
    reveal_strlit("BANDWIDTH");
    reveal_strlit("AVERAGE-BANDWIDTH");
    reveal_strlit("SCORE");
    reveal_strlit("CODECS");
    reveal_strlit("SUPPLEMENTAL-CODECS");
    reveal_strlit("RESOLUTION");
    reveal_strlit("FRAME-RATE");
    reveal_strlit("HDCP-LEVEL");
    reveal_strlit("ALLOWED-CPC");
    reveal_strlit("VIDEO-RANGE");
    reveal_strlit("REQ-VIDEO-LAYOUT");
    reveal_strlit("STABLE-VARIANT-ID");
    reveal_strlit("AUDIO");
    reveal_strlit("VIDEO");
    reveal_strlit("SUBTITLES");
    reveal_strlit("CLOSED-CAPTIONS");
    reveal_strlit("PATHWAY-ID");
    assert("AUDIO"@.len() != "BANDWIDTH"@.len());
    assert("AUDIO"@.len() != "AVERAGE-BANDWIDTH"@.len());
    assert("AUDIO"@[0] != "SCORE"@[0]);
    assert("AUDIO"@.len() != "CODECS"@.len());
    assert("AUDIO"@.len() != "SUPPLEMENTAL-CODECS"@.len());
    assert("AUDIO"@.len() != "RESOLUTION"@.len());
    assert("AUDIO"@.len() != "FRAME-RATE"@.len());
    assert("AUDIO"@.len() != "HDCP-LEVEL"@.len());
    assert("AUDIO"@.len() != "ALLOWED-CPC"@.len());
    assert("AUDIO"@.len() != "VIDEO-RANGE"@.len());
    assert("AUDIO"@.len() != "REQ-VIDEO-LAYOUT"@.len());
    assert("AUDIO"@.len() != "STABLE-VARIANT-ID"@.len());
    assert("AUDIO"@[0] != "VIDEO"@[0]);
    assert("AUDIO"@.len() != "SUBTITLES"@.len());
    assert("AUDIO"@.len() != "CLOSED-CAPTIONS"@.len());
    assert("AUDIO"@.len() != "PATHWAY-ID"@.len());
    assert("VIDEO"@.len() != "BANDWIDTH"@.len());
    assert("VIDEO"@.len() != "AVERAGE-BANDWIDTH"@.len());
    assert("VIDEO"@[0] != "SCORE"@[0]);
    assert("VIDEO"@.len() != "CODECS"@.len());
    assert("VIDEO"@.len() != "SUPPLEMENTAL-CODECS"@.len());
    assert("VIDEO"@.len() != "RESOLUTION"@.len());
    assert("VIDEO"@.len() != "FRAME-RATE"@.len());
    assert("VIDEO"@.len() != "HDCP-LEVEL"@.len());
    assert("VIDEO"@.len() != "ALLOWED-CPC"@.len());
    assert("VIDEO"@.len() != "VIDEO-RANGE"@.len());
    assert("VIDEO"@.len() != "REQ-VIDEO-LAYOUT"@.len());
    assert("VIDEO"@.len() != "STABLE-VARIANT-ID"@.len());
    assert("VIDEO"@[0] != "AUDIO"@[0]);
    assert("VIDEO"@.len() != "SUBTITLES"@.len());
    assert("VIDEO"@.len() != "CLOSED-CAPTIONS"@.len());
    assert("VIDEO"@.len() != "PATHWAY-ID"@.len());
    assert("SUBTITLES"@[0] != "BANDWIDTH"@[0]);
    assert("SUBTITLES"@.len() != "AVERAGE-BANDWIDTH"@.len());
    assert("SUBTITLES"@.len() != "SCORE"@.len());
    assert("SUBTITLES"@.len() != "CODECS"@.len());
    assert("SUBTITLES"@.len() != "SUPPLEMENTAL-CODECS"@.len());
    assert("SUBTITLES"@.len() != "RESOLUTION"@.len());
    assert("SUBTITLES"@.len() != "FRAME-RATE"@.len());
    assert("SUBTITLES"@.len() != "HDCP-LEVEL"@.len());
    assert("SUBTITLES"@.len() != "ALLOWED-CPC"@.len());
    assert("SUBTITLES"@.len() != "VIDEO-RANGE"@.len());
    assert("SUBTITLES"@.len() != "REQ-VIDEO-LAYOUT"@.len());
    assert("SUBTITLES"@.len() != "STABLE-VARIANT-ID"@.len());
    assert("SUBTITLES"@.len() != "AUDIO"@.len());
    assert("SUBTITLES"@.len() != "VIDEO"@.len());
    assert("SUBTITLES"@.len() != "CLOSED-CAPTIONS"@.len());
    assert("SUBTITLES"@.len() != "PATHWAY-ID"@.len());
    let l0 = seq![("BANDWIDTH"@, AttributeValueView::Unquoted(dec(m.bandwidth as nat)))];
    let l1 = push_integer_opt(l0, "AVERAGE-BANDWIDTH"@, m.average_bandwidth);
    let l2 = push_unquoted_opt(l1, "SCORE"@, opt_encode(m.score));
    let l3 = push_quoted_opt(l2, "CODECS"@, m.codecs);
    let l4 = push_quoted_opt(l3, "SUPPLEMENTAL-CODECS"@, m.supplemental_codecs);
    let l5 = push_unquoted_opt(l4, "RESOLUTION"@, opt_resolution_text(m.resolution));
    let l6 = push_unquoted_opt(l5, "FRAME-RATE"@, opt_encode(m.frame_rate));
    let l7 = push_unquoted_opt(l6, "HDCP-LEVEL"@, opt_encode(m.hdcp_level));
    let l8 = push_quoted_opt(l7, "ALLOWED-CPC"@, m.allowed_cpc);
    let l9 = push_unquoted_opt(l8, "VIDEO-RANGE"@, opt_encode(m.video_range));
    let l10 = push_quoted_opt(l9, "REQ-VIDEO-LAYOUT"@, m.req_video_layout);
    let l11 = push_quoted_opt(l10, "STABLE-VARIANT-ID"@, m.stable_variant_id);
    let l12 = push_quoted_opt(l11, "AUDIO"@, m.audio);
    let l13 = push_quoted_opt(l12, "VIDEO"@, m.video);
    let l14 = push_quoted_opt(l13, "SUBTITLES"@, m.subtitles);
    let l15 = push_quoted_opt(l14, "CLOSED-CAPTIONS"@, m.closed_captions);
    let l16 = push_quoted_opt(l15, "PATHWAY-ID"@, m.pathway_id);
    assert(l4 == stream_inf_entries_0(m));
    assert(l10 == stream_inf_entries_1(m));
    assert(l16 == stream_inf_entries(m));
    lemma_lookup_push(Seq::empty(), ("BANDWIDTH"@, AttributeValueView::Unquoted(dec(m.bandwidth as nat))), "AUDIO"@);
    lemma_lookup_push_integer_opt(l0, "AVERAGE-BANDWIDTH"@, m.average_bandwidth, "AUDIO"@);
    lemma_lookup_push_unquoted_opt(l1, "SCORE"@, opt_encode(m.score), "AUDIO"@);
    lemma_lookup_push_quoted_opt(l2, "CODECS"@, m.codecs, "AUDIO"@);
    lemma_lookup_push_quoted_opt(l3, "SUPPLEMENTAL-CODECS"@, m.supplemental_codecs, "AUDIO"@);
    lemma_lookup_push_unquoted_opt(l4, "RESOLUTION"@, opt_resolution_text(m.resolution), "AUDIO"@);
    lemma_lookup_push_unquoted_opt(l5, "FRAME-RATE"@, opt_encode(m.frame_rate), "AUDIO"@);
    lemma_lookup_push_unquoted_opt(l6, "HDCP-LEVEL"@, opt_encode(m.hdcp_level), "AUDIO"@);
    lemma_lookup_push_quoted_opt(l7, "ALLOWED-CPC"@, m.allowed_cpc, "AUDIO"@);
    lemma_lookup_push_unquoted_opt(l8, "VIDEO-RANGE"@, opt_encode(m.video_range), "AUDIO"@);
    lemma_lookup_push_quoted_opt(l9, "REQ-VIDEO-LAYOUT"@, m.req_video_layout, "AUDIO"@);
    lemma_lookup_push_quoted_opt(l10, "STABLE-VARIANT-ID"@, m.stable_variant_id, "AUDIO"@);
    lemma_lookup_push_quoted_opt(l11, "AUDIO"@, m.audio, "AUDIO"@);
    lemma_lookup_push_quoted_opt(l12, "VIDEO"@, m.video, "AUDIO"@);
    lemma_lookup_push_quoted_opt(l13, "SUBTITLES"@, m.subtitles, "AUDIO"@);
    lemma_lookup_push_quoted_opt(l14, "CLOSED-CAPTIONS"@, m.closed_captions, "AUDIO"@);
    lemma_lookup_push_quoted_opt(l15, "PATHWAY-ID"@, m.pathway_id, "AUDIO"@);
    lemma_lookup_push(Seq::empty(), ("BANDWIDTH"@, AttributeValueView::Unquoted(dec(m.bandwidth as nat))), "VIDEO"@);
    lemma_lookup_push_integer_opt(l0, "AVERAGE-BANDWIDTH"@, m.average_bandwidth, "VIDEO"@);
    lemma_lookup_push_unquoted_opt(l1, "SCORE"@, opt_encode(m.score), "VIDEO"@);
    lemma_lookup_push_quoted_opt(l2, "CODECS"@, m.codecs, "VIDEO"@);
    lemma_lookup_push_quoted_opt(l3, "SUPPLEMENTAL-CODECS"@, m.supplemental_codecs, "VIDEO"@);
    lemma_lookup_push_unquoted_opt(l4, "RESOLUTION"@, opt_resolution_text(m.resolution), "VIDEO"@);
    lemma_lookup_push_unquoted_opt(l5, "FRAME-RATE"@, opt_encode(m.frame_rate), "VIDEO"@);
    lemma_lookup_push_unquoted_opt(l6, "HDCP-LEVEL"@, opt_encode(m.hdcp_level), "VIDEO"@);
    lemma_lookup_push_quoted_opt(l7, "ALLOWED-CPC"@, m.allowed_cpc, "VIDEO"@);
    lemma_lookup_push_unquoted_opt(l8, "VIDEO-RANGE"@, opt_encode(m.video_range), "VIDEO"@);
    lemma_lookup_push_quoted_opt(l9, "REQ-VIDEO-LAYOUT"@, m.req_video_layout, "VIDEO"@);
    lemma_lookup_push_quoted_opt(l10, "STABLE-VARIANT-ID"@, m.stable_variant_id, "VIDEO"@);
    lemma_lookup_push_quoted_opt(l11, "AUDIO"@, m.audio, "VIDEO"@);
    lemma_lookup_push_quoted_opt(l12, "VIDEO"@, m.video, "VIDEO"@);
    lemma_lookup_push_quoted_opt(l13, "SUBTITLES"@, m.subtitles, "VIDEO"@);
    lemma_lookup_push_quoted_opt(l14, "CLOSED-CAPTIONS"@, m.closed_captions, "VIDEO"@);
    lemma_lookup_push_quoted_opt(l15, "PATHWAY-ID"@, m.pathway_id, "VIDEO"@);
    lemma_lookup_push(Seq::empty(), ("BANDWIDTH"@, AttributeValueView::Unquoted(dec(m.bandwidth as nat))), "SUBTITLES"@);
    lemma_lookup_push_integer_opt(l0, "AVERAGE-BANDWIDTH"@, m.average_bandwidth, "SUBTITLES"@);
    lemma_lookup_push_unquoted_opt(l1, "SCORE"@, opt_encode(m.score), "SUBTITLES"@);
    lemma_lookup_push_quoted_opt(l2, "CODECS"@, m.codecs, "SUBTITLES"@);
    lemma_lookup_push_quoted_opt(l3, "SUPPLEMENTAL-CODECS"@, m.supplemental_codecs, "SUBTITLES"@);
    lemma_lookup_push_unquoted_opt(l4, "RESOLUTION"@, opt_resolution_text(m.resolution), "SUBTITLES"@);
    lemma_lookup_push_unquoted_opt(l5, "FRAME-RATE"@, opt_encode(m.frame_rate), "SUBTITLES"@);
    lemma_lookup_push_unquoted_opt(l6, "HDCP-LEVEL"@, opt_encode(m.hdcp_level), "SUBTITLES"@);
    lemma_lookup_push_quoted_opt(l7, "ALLOWED-CPC"@, m.allowed_cpc, "SUBTITLES"@);
    lemma_lookup_push_unquoted_opt(l8, "VIDEO-RANGE"@, opt_encode(m.video_range), "SUBTITLES"@);
    lemma_lookup_push_quoted_opt(l9, "REQ-VIDEO-LAYOUT"@, m.req_video_layout, "SUBTITLES"@);
    lemma_lookup_push_quoted_opt(l10, "STABLE-VARIANT-ID"@, m.stable_variant_id, "SUBTITLES"@);
    lemma_lookup_push_quoted_opt(l11, "AUDIO"@, m.audio, "SUBTITLES"@);
    lemma_lookup_push_quoted_opt(l12, "VIDEO"@, m.video, "SUBTITLES"@);
    lemma_lookup_push_quoted_opt(l13, "SUBTITLES"@, m.subtitles, "SUBTITLES"@);
    lemma_lookup_push_quoted_opt(l14, "CLOSED-CAPTIONS"@, m.closed_captions, "SUBTITLES"@);
    lemma_lookup_push_quoted_opt(l15, "PATHWAY-ID"@, m.pathway_id, "SUBTITLES"@);
    assert(Seq::<(Seq<char>, AttributeValueView)>::empty().push(("BANDWIDTH"@, AttributeValueView::Unquoted(dec(m.bandwidth as nat)))) =~= l0);
    assert(quoted_attr(l16, "AUDIO"@) == m.audio);
    assert(quoted_attr(l16, "VIDEO"@) == m.video);
    assert(quoted_attr(l16, "SUBTITLES"@) == m.subtitles);
}

#[verifier::spinoff_prover]
proof fn lemma_stream_inf_lookup_5(m: StreamInfAttributes)
    ensures
        quoted_attr(stream_inf_entries(m), "CLOSED-CAPTIONS"@) == m.closed_captions,
        quoted_attr(stream_inf_entries(m), "PATHWAY-ID"@) == m.pathway_id,
{
    reveal_strlit("BANDWIDTH");
    reveal_strlit("AVERAGE-BANDWIDTH");
    reveal_strlit("SCORE");
    reveal_strlit("CODECS");
    reveal_strlit("SUPPLEMENTAL-CODECS");
    reveal_strlit("RESOLUTION");
    reveal_strlit("FRAME-RATE");
    reveal_strlit("HDCP-LEVEL");
    reveal_strlit("ALLOWED-CPC");
    reveal_strlit("VIDEO-RANGE");
    reveal_strlit("REQ-VIDEO-LAYOUT");
    reveal_strlit("STABLE-VARIANT-ID");
    reveal_strlit("AUDIO");
    reveal_strlit("VIDEO");
    reveal_strlit("SUBTITLES");
    reveal_strlit("CLOSED-CAPTIONS");
    reveal_strlit("PATHWAY-ID");
    assert("CLOSED-CAPTIONS"@.len() != "BANDWIDTH"@.len());
    assert("CLOSED-CAPTIONS"@.len() != "AVERAGE-BANDWIDTH"@.len());
    assert("CLOSED-CAPTIONS"@.len() != "SCORE"@.len());
    assert("CLOSED-CAPTIONS"@.len() != "CODECS"@.len());
    assert("CLOSED-CAPTIONS"@.len() != "SUPPLEMENTAL-CODECS"@.len());
    assert("CLOSED-CAPTIONS"@.len() != "RESOLUTION"@.len());
    assert("CLOSED-CAPTIONS"@.len() != "FRAME-RATE"@.len());
    assert("CLOSED-CAPTIONS"@.len() != "HDCP-LEVEL"@.len());
    assert("CLOSED-CAPTIONS"@.len() != "ALLOWED-CPC"@.len());
    assert("CLOSED-CAPTIONS"@.len() != "VIDEO-RANGE"@.len());
    assert("CLOSED-CAPTIONS"@.len() != "REQ-VIDEO-LAYOUT"@.len());
    assert("CLOSED-CAPTIONS"@.len() != "STABLE-VARIANT-ID"@.len());
    assert("CLOSED-CAPTIONS"@.len() != "AUDIO"@.len());
    assert("CLOSED-CAPTIONS"@.len() != "VIDEO"@.len());
    assert("CLOSED-CAPTIONS"@.len() != "SUBTITLES"@.len());
    assert("CLOSED-CAPTIONS"@.len() != "PATHWAY-ID"@.len());
    assert("PATHWAY-ID"@.len() != "BANDWIDTH"@.len());
    assert("PATHWAY-ID"@.len() != "AVERAGE-BANDWIDTH"@.len());
    assert("PATHWAY-ID"@.len() != "SCORE"@.len());
    assert("PATHWAY-ID"@.len() != "CODECS"@.len());
    assert("PATHWAY-ID"@.len() != "SUPPLEMENTAL-CODECS"@.len());
    assert("PATHWAY-ID"@[0] != "RESOLUTION"@[0]);
    assert("PATHWAY-ID"@[0] != "FRAME-RATE"@[0]);
    assert("PATHWAY-ID"@[0] != "HDCP-LEVEL"@[0]);
    assert("PATHWAY-ID"@.len() != "ALLOWED-CPC"@.len());
    assert("PATHWAY-ID"@.len() != "VIDEO-RANGE"@.len());
    assert("PATHWAY-ID"@.len() != "REQ-VIDEO-LAYOUT"@.len());
    assert("PATHWAY-ID"@.len() != "STABLE-VARIANT-ID"@.len());
    assert("PATHWAY-ID"@.len() != "AUDIO"@.len());
    assert("PATHWAY-ID"@.len() != "VIDEO"@.len());
    assert("PATHWAY-ID"@.len() != "SUBTITLES"@.len());
    assert("PATHWAY-ID"@.len() != "CLOSED-CAPTIONS"@.len());
    let l0 = seq![("BANDWIDTH"@, AttributeValueView::Unquoted(dec(m.bandwidth as nat)))];
    let l1 = push_integer_opt(l0, "AVERAGE-BANDWIDTH"@, m.average_bandwidth);
    let l2 = push_unquoted_opt(l1, "SCORE"@, opt_encode(m.score));
    let l3 = push_quoted_opt(l2, "CODECS"@, m.codecs);
    let l4 = push_quoted_opt(l3, "SUPPLEMENTAL-CODECS"@, m.supplemental_codecs);
    let l5 = push_unquoted_opt(l4, "RESOLUTION"@, opt_resolution_text(m.resolution));
    let l6 = push_unquoted_opt(l5, "FRAME-RATE"@, opt_encode(m.frame_rate));
    let l7 = push_unquoted_opt(l6, "HDCP-LEVEL"@, opt_encode(m.hdcp_level));
    let l8 = push_quoted_opt(l7, "ALLOWED-CPC"@, m.allowed_cpc);
    let l9 = push_unquoted_opt(l8, "VIDEO-RANGE"@, opt_encode(m.video_range));
    let l10 = push_quoted_opt(l9, "REQ-VIDEO-LAYOUT"@, m.req_video_layout);
    let l11 = push_quoted_opt(l10, "STABLE-VARIANT-ID"@, m.stable_variant_id);
    let l12 = push_quoted_opt(l11, "AUDIO"@, m.audio);
    let l13 = push_quoted_opt(l12, "VIDEO"@, m.video);
    let l14 = push_quoted_opt(l13, "SUBTITLES"@, m.subtitles);
    let l15 = push_quoted_opt(l14, "CLOSED-CAPTIONS"@, m.closed_captions);
    let l16 = push_quoted_opt(l15, "PATHWAY-ID"@, m.pathway_id);
    assert(l4 == stream_inf_entries_0(m));
    assert(l10 == stream_inf_entries_1(m));
    assert(l16 == stream_inf_entries(m));
    lemma_lookup_push(Seq::empty(), ("BANDWIDTH"@, AttributeValueView::Unquoted(dec(m.bandwidth as nat))), "CLOSED-CAPTIONS"@);
    lemma_lookup_push_integer_opt(l0, "AVERAGE-BANDWIDTH"@, m.average_bandwidth, "CLOSED-CAPTIONS"@);
    lemma_lookup_push_unquoted_opt(l1, "SCORE"@, opt_encode(m.score), "CLOSED-CAPTIONS"@);
    lemma_lookup_push_quoted_opt(l2, "CODECS"@, m.codecs, "CLOSED-CAPTIONS"@);
    lemma_lookup_push_quoted_opt(l3, "SUPPLEMENTAL-CODECS"@, m.supplemental_codecs, "CLOSED-CAPTIONS"@);
    lemma_lookup_push_unquoted_opt(l4, "RESOLUTION"@, opt_resolution_text(m.resolution), "CLOSED-CAPTIONS"@);
    lemma_lookup_push_unquoted_opt(l5, "FRAME-RATE"@, opt_encode(m.frame_rate), "CLOSED-CAPTIONS"@);
    lemma_lookup_push_unquoted_opt(l6, "HDCP-LEVEL"@, opt_encode(m.hdcp_level), "CLOSED-CAPTIONS"@);
    lemma_lookup_push_quoted_opt(l7, "ALLOWED-CPC"@, m.allowed_cpc, "CLOSED-CAPTIONS"@);
    lemma_lookup_push_unquoted_opt(l8, "VIDEO-RANGE"@, opt_encode(m.video_range), "CLOSED-CAPTIONS"@);
    lemma_lookup_push_quoted_opt(l9, "REQ-VIDEO-LAYOUT"@, m.req_video_layout, "CLOSED-CAPTIONS"@);
    lemma_lookup_push_quoted_opt(l10, "STABLE-VARIANT-ID"@, m.stable_variant_id, "CLOSED-CAPTIONS"@);
    lemma_lookup_push_quoted_opt(l11, "AUDIO"@, m.audio, "CLOSED-CAPTIONS"@);
    lemma_lookup_push_quoted_opt(l12, "VIDEO"@, m.video, "CLOSED-CAPTIONS"@);
    lemma_lookup_push_quoted_opt(l13, "SUBTITLES"@, m.subtitles, "CLOSED-CAPTIONS"@);
    lemma_lookup_push_quoted_opt(l14, "CLOSED-CAPTIONS"@, m.closed_captions, "CLOSED-CAPTIONS"@);
    lemma_lookup_push_quoted_opt(l15, "PATHWAY-ID"@, m.pathway_id, "CLOSED-CAPTIONS"@);
    lemma_lookup_push(Seq::empty(), ("BANDWIDTH"@, AttributeValueView::Unquoted(dec(m.bandwidth as nat))), "PATHWAY-ID"@);
    lemma_lookup_push_integer_opt(l0, "AVERAGE-BANDWIDTH"@, m.average_bandwidth, "PATHWAY-ID"@);
    lemma_lookup_push_unquoted_opt(l1, "SCORE"@, opt_encode(m.score), "PATHWAY-ID"@);
    lemma_lookup_push_quoted_opt(l2, "CODECS"@, m.codecs, "PATHWAY-ID"@);
    lemma_lookup_push_quoted_opt(l3, "SUPPLEMENTAL-CODECS"@, m.supplemental_codecs, "PATHWAY-ID"@);
    lemma_lookup_push_unquoted_opt(l4, "RESOLUTION"@, opt_resolution_text(m.resolution), "PATHWAY-ID"@);
    lemma_lookup_push_unquoted_opt(l5, "FRAME-RATE"@, opt_encode(m.frame_rate), "PATHWAY-ID"@);
    lemma_lookup_push_unquoted_opt(l6, "HDCP-LEVEL"@, opt_encode(m.hdcp_level), "PATHWAY-ID"@);
    lemma_lookup_push_quoted_opt(l7, "ALLOWED-CPC"@, m.allowed_cpc, "PATHWAY-ID"@);
    lemma_lookup_push_unquoted_opt(l8, "VIDEO-RANGE"@, opt_encode(m.video_range), "PATHWAY-ID"@);
    lemma_lookup_push_quoted_opt(l9, "REQ-VIDEO-LAYOUT"@, m.req_video_layout, "PATHWAY-ID"@);
    lemma_lookup_push_quoted_opt(l10, "STABLE-VARIANT-ID"@, m.stable_variant_id, "PATHWAY-ID"@);
    lemma_lookup_push_quoted_opt(l11, "AUDIO"@, m.audio, "PATHWAY-ID"@);
    lemma_lookup_push_quoted_opt(l12, "VIDEO"@, m.video, "PATHWAY-ID"@);
    lemma_lookup_push_quoted_opt(l13, "SUBTITLES"@, m.subtitles, "PATHWAY-ID"@);
    lemma_lookup_push_quoted_opt(l14, "CLOSED-CAPTIONS"@, m.closed_captions, "PATHWAY-ID"@);
    lemma_lookup_push_quoted_opt(l15, "PATHWAY-ID"@, m.pathway_id, "PATHWAY-ID"@);
    assert(Seq::<(Seq<char>, AttributeValueView)>::empty().push(("BANDWIDTH"@, AttributeValueView::Unquoted(dec(m.bandwidth as nat)))) =~= l0);
    assert(quoted_attr(l16, "CLOSED-CAPTIONS"@) == m.closed_captions);
    assert(quoted_attr(l16, "PATHWAY-ID"@) == m.pathway_id);
}

proof fn lemma_stream_inf_lookup(m: StreamInfAttributes)
    ensures
        stream_inf_spec(stream_inf_entries(m)) == Ok::<StreamInfAttributes, ValidationError>(m),
{
    lemma_stream_inf_lookup_0(m);
    lemma_stream_inf_lookup_1(m);
    lemma_stream_inf_lookup_2(m);
    lemma_stream_inf_lookup_3(m);
    lemma_stream_inf_lookup_4(m);
    lemma_stream_inf_lookup_5(m);
}

/// Writing and then reading a stream tag gives it back: its line reads as its name with its
/// attributes as the value, and that value reads as the attributes, when no quoted value holds a
/// `"` or a line feed and no unquoted text value is empty, starts with `"`, or holds a `,` or a
/// line feed.
pub proof fn lemma_stream_inf_reads_back(m: StreamInfAttributes)
    requires
        m.score matches Some(v) ==> unquoted_value_ok(encode_utf8(v)),
        m.codecs matches Some(v) ==> quoted_value_ok(v),
        m.supplemental_codecs matches Some(v) ==> quoted_value_ok(v),
        m.frame_rate matches Some(v) ==> unquoted_value_ok(encode_utf8(v)),
        m.hdcp_level matches Some(v) ==> unquoted_value_ok(encode_utf8(v)),
        m.allowed_cpc matches Some(v) ==> quoted_value_ok(v),
        m.video_range matches Some(v) ==> unquoted_value_ok(encode_utf8(v)),
        m.req_video_layout matches Some(v) ==> quoted_value_ok(v),
        m.stable_variant_id matches Some(v) ==> quoted_value_ok(v),
        m.audio matches Some(v) ==> quoted_value_ok(v),
        m.video matches Some(v) ==> quoted_value_ok(v),
        m.subtitles matches Some(v) ==> quoted_value_ok(v),
        m.closed_captions matches Some(v) ==> quoted_value_ok(v),
        m.pathway_id matches Some(v) ==> quoted_value_ok(v),
    ensures
        stream_inf_line(m) == line_start(TagName::StreamInf) + seq![58u8] + attribute_list_text(
            stream_inf_entries(m),
        ),
        unknown::starts_with_ext(stream_inf_line(m)),
        unknown::tag_after_ext_spec(stream_inf_line(m).subrange(4, stream_inf_line(m).len() as int))
            == Ok::<(Seq<u8>, Option<Seq<u8>>, Option<Seq<u8>>), UnknownTagSyntaxError>((
            encode_utf8(tag_name_text(TagName::StreamInf)),
            Some(attribute_list_text(stream_inf_entries(m))),
            None,
        )),
        stream_inf_value_spec(Some(attribute_list_text(stream_inf_entries(m)))) == Ok::<
            StreamInfAttributes,
            ValidationError,
        >(m),
{
    let l = stream_inf_entries(m);
    let text = attribute_list_text(l);
    lemma_stream_inf_line_text(m);
    let rest = seq![58u8] + text;
    lemma_line_after_ext(TagName::StreamInf, rest);
    assert(stream_inf_line(m) =~= line_start(TagName::StreamInf) + rest);
    assert(encode_utf8(tag_name_text(TagName::StreamInf)) + rest =~= encode_utf8(
        tag_name_text(TagName::StreamInf),
    ) + seq![58u8] + text);
    lemma_tag_name_plain(TagName::StreamInf);
    lemma_stream_inf_ok_0(m);
    lemma_stream_inf_ok_1(m);
    lemma_stream_inf_ok_2(m);
    lemma_attribute_list_text_free_of_line_feed(l);
    unknown::lemma_read_written_tag(encode_utf8(tag_name_text(TagName::StreamInf)), text);
    lemma_attribute_list_reads_back(l);
    lemma_attribute_list_text_kind(l);
    lemma_stream_inf_lookup(m);
}

/// The text of each value of [`HdcpLevel`] is the one that the HLS specification gives it.
pub proof fn lemma_hdcp_level_texts()
    ensures
        HdcpLevel::NotRequired.text() == "NONE"@,
        HdcpLevel::Type0.text() == "TYPE-0"@,
        HdcpLevel::Type1.text() == "TYPE-1"@,
{
}

/// The text of each value of [`VideoRange`] is the one that the HLS specification gives it.
pub proof fn lemma_video_range_texts()
    ensures
        VideoRange::Sdr.text() == "SDR"@,
        VideoRange::Hlg.text() == "HLG"@,
        VideoRange::Pq.text() == "PQ"@,
{
}

/// The text of each value of [`VideoChannelSpecifier`] is the one that the HLS specification gives it.
pub proof fn lemma_video_channel_specifier_texts()
    ensures
        VideoChannelSpecifier::Stereo.text() == "CH-STEREO"@,
        VideoChannelSpecifier::Mono.text() == "CH-MONO"@,
{
}

/// The text of each value of [`VideoProjectionSpecifier`] is the one that the HLS specification gives it.
pub proof fn lemma_video_projection_specifier_texts()
    ensures
        VideoProjectionSpecifier::Rectilinear.text() == "PROJ-RECT"@,
        VideoProjectionSpecifier::Equirectangular.text() == "PROJ-EQUI"@,
        VideoProjectionSpecifier::HalfEquirectangular.text() == "PROJ-HEQU"@,
        VideoProjectionSpecifier::ParametricImmersive.text() == "PROJ-PRIM"@,
{
}

} // verus!
