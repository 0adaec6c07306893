//! The `#EXT-X-I-FRAME-STREAM-INF` tag: reading and writing its attributes, with its decimal
//! floating point value held as its text.

use vstd::prelude::*;
use vstd::string::StringSliceAdditionalSpecFns;
use vstd::utf8::*;

use crate::error::ValidationError;
use crate::tag::hls::{
    lemma_attribute_list_text_kind,
    typed_attribute_list_of, typed_attribute_list_spec, comma_integer, comma_quoted, comma_unquoted,
    copy_opt, get_integer, get_quoted, get_resolution, get_unquoted_str, integer_attr,
    line_start, opt_encode, opt_resolution_text, opt_string, push_comma_integer,
    push_comma_quoted, push_comma_resolution, push_comma_unquoted_str, push_integer_attribute,
    push_quoted_attribute, quoted_attr, quoted_attribute, resolution_attr, start_line,
    unquoted_attribute, utf8_attr, value_bytes, TagName,
};
use crate::tag::unknown;
use crate::tag::value::{AttributeListView, DecimalResolution};
use crate::utils::{dec, string_from};
use crate::tag::hls::{entries_ok, lemma_attribute_list_text_free_of_line_feed, lemma_dec_unquoted_ok, lemma_entries_ok_one, lemma_entries_ok_push, lemma_line_after_ext, lemma_lookup_push, lemma_push_integer_opt_text, lemma_push_quoted_opt_text, lemma_push_unquoted_opt_text, lemma_tag_name_plain, push_integer_opt, push_quoted_opt, push_unquoted_opt, quoted_value_ok, tag_name_text, unquoted_value_ok, lemma_concat_step, lemma_lookup_push_quoted_opt, lemma_lookup_push_integer_opt, lemma_lookup_push_unquoted_opt, lemma_resolution_value_ok};
use crate::tag::value::{attribute_list_text, lemma_attribute_list_reads_back, lemma_attribute_list_text_push, attribute_text, AttributeValueView, decimal_resolution_text};
use crate::error::UnknownTagSyntaxError;

verus! {

/// The attributes of an `#EXT-X-I-FRAME-STREAM-INF` tag, with each decimal floating point value
/// (`SCORE`) held as the text that writes it.
pub struct IFrameStreamInfAttributes {
    /// The `URI` attribute.
    pub uri: Seq<char>,
    /// The `BANDWIDTH` attribute.
    pub bandwidth: u64,
    /// The `AVERAGE-BANDWIDTH` attribute.
    pub average_bandwidth: Option<u64>,
    /// The text of the `SCORE` attribute.
    pub score: Option<Seq<char>>,
    /// The `CODECS` attribute.
    pub codecs: Option<Seq<char>>,
    /// The `SUPPLEMENTAL-CODECS` attribute.
    pub supplemental_codecs: Option<Seq<char>>,
    /// The `RESOLUTION` attribute.
    pub resolution: Option<DecimalResolution>,
    /// The `HDCP-LEVEL` attribute.
    pub hdcp_level: Option<Seq<char>>,
    /// The `ALLOWED-CPC` attribute.
    pub allowed_cpc: Option<Seq<char>>,
    /// The `VIDEO-RANGE` attribute.
    pub video_range: Option<Seq<char>>,
    /// The `REQ-VIDEO-LAYOUT` attribute.
    pub req_video_layout: Option<Seq<char>>,
    /// The `STABLE-VARIANT-ID` attribute.
    pub stable_variant_id: Option<Seq<char>>,
    /// The `VIDEO` attribute.
    pub video: Option<Seq<char>>,
    /// The `PATHWAY-ID` attribute.
    pub pathway_id: Option<Seq<char>>,
}

/// The attributes that an attribute list gives an `#EXT-X-I-FRAME-STREAM-INF` tag: `URI`,
/// `BANDWIDTH` are required; an optional attribute of the wrong kind is taken as absent.
pub open spec fn i_frame_stream_inf_spec(list: AttributeListView) -> Result<
    IFrameStreamInfAttributes,
    ValidationError,
> {
    match quoted_attr(list, "URI"@) {
        Some(uri) => {
            match integer_attr(list, "BANDWIDTH"@) {
                Some(bandwidth) => {
                    Ok(IFrameStreamInfAttributes {
                        uri,
                        bandwidth,
                        average_bandwidth: integer_attr(list, "AVERAGE-BANDWIDTH"@),
                        score: utf8_attr(list, "SCORE"@),
                        codecs: quoted_attr(list, "CODECS"@),
                        supplemental_codecs: quoted_attr(list, "SUPPLEMENTAL-CODECS"@),
                        resolution: resolution_attr(list, "RESOLUTION"@),
                        hdcp_level: utf8_attr(list, "HDCP-LEVEL"@),
                        allowed_cpc: quoted_attr(list, "ALLOWED-CPC"@),
                        video_range: utf8_attr(list, "VIDEO-RANGE"@),
                        req_video_layout: quoted_attr(list, "REQ-VIDEO-LAYOUT"@),
                        stable_variant_id: quoted_attr(list, "STABLE-VARIANT-ID"@),
                        video: quoted_attr(list, "VIDEO"@),
                        pathway_id: quoted_attr(list, "PATHWAY-ID"@),
                    })
                },
                None => Err(ValidationError::MissingRequiredAttribute("BANDWIDTH")),
            }
        },
        None => Err(ValidationError::MissingRequiredAttribute("URI")),
    }
}

/// The attributes that a tag value gives an `#EXT-X-I-FRAME-STREAM-INF` tag.
pub open spec fn i_frame_stream_inf_value_spec(value: Option<Seq<u8>>) -> Result<
    IFrameStreamInfAttributes,
    ValidationError,
> {
    match typed_attribute_list_spec(value) {
        Ok(list) => i_frame_stream_inf_spec(list),
        Err(e) => Err(e),
    }
}

/// The attributes `URI`, `BANDWIDTH`, `AVERAGE-BANDWIDTH`, `SCORE`, `CODECS` as written where
/// present.
pub open spec fn i_frame_stream_inf_line_0(a: IFrameStreamInfAttributes) -> Seq<u8> {
    quoted_attribute("URI"@, a.uri)
        + seq![44u8] + unquoted_attribute("BANDWIDTH"@, dec(a.bandwidth as nat))
        + comma_integer("AVERAGE-BANDWIDTH"@, a.average_bandwidth)
        + comma_unquoted("SCORE"@, opt_encode(a.score))
        + comma_quoted("CODECS"@, a.codecs)
}

/// The attributes `SUPPLEMENTAL-CODECS`, `RESOLUTION`, `HDCP-LEVEL`, `ALLOWED-CPC`, `VIDEO-RANGE`
/// as written where present.
pub open spec fn i_frame_stream_inf_line_1(a: IFrameStreamInfAttributes) -> Seq<u8> {
    comma_quoted("SUPPLEMENTAL-CODECS"@, a.supplemental_codecs)
        + comma_unquoted("RESOLUTION"@, opt_resolution_text(a.resolution))
        + comma_unquoted("HDCP-LEVEL"@, opt_encode(a.hdcp_level))
        + comma_quoted("ALLOWED-CPC"@, a.allowed_cpc)
        + comma_unquoted("VIDEO-RANGE"@, opt_encode(a.video_range))
}

/// The attributes `REQ-VIDEO-LAYOUT`, `STABLE-VARIANT-ID`, `VIDEO`, `PATHWAY-ID` as written where
/// present.
pub open spec fn i_frame_stream_inf_line_2(a: IFrameStreamInfAttributes) -> Seq<u8> {
    comma_quoted("REQ-VIDEO-LAYOUT"@, a.req_video_layout)
        + comma_quoted("STABLE-VARIANT-ID"@, a.stable_variant_id)
        + comma_quoted("VIDEO"@, a.video)
        + comma_quoted("PATHWAY-ID"@, a.pathway_id)
}

/// The line of an `#EXT-X-I-FRAME-STREAM-INF` tag with the attributes `a`: `URI`, `BANDWIDTH`
/// first, then each optional attribute that is present, in a fixed order.
pub open spec fn i_frame_stream_inf_line(a: IFrameStreamInfAttributes) -> Seq<u8> {
    line_start(TagName::IFrameStreamInf) + seq![58u8] + i_frame_stream_inf_line_0(a)
        + i_frame_stream_inf_line_1(a) + i_frame_stream_inf_line_2(a)
}

/// The attributes of an `#EXT-X-I-FRAME-STREAM-INF` tag as values, with each decimal floating point
/// value (`SCORE`) held as the text that writes it.
#[derive(Debug, Clone, PartialEq)]
pub struct IFrameStreamInfLine {
    /// The `URI` attribute.
    pub uri: String,
    /// The `BANDWIDTH` attribute.
    pub bandwidth: u64,
    /// The `AVERAGE-BANDWIDTH` attribute.
    pub average_bandwidth: Option<u64>,
    /// The text of the `SCORE` attribute.
    pub score: Option<String>,
    /// The `CODECS` attribute.
    pub codecs: Option<String>,
    /// The `SUPPLEMENTAL-CODECS` attribute.
    pub supplemental_codecs: Option<String>,
    /// The `RESOLUTION` attribute.
    pub resolution: Option<DecimalResolution>,
    /// The `HDCP-LEVEL` attribute.
    pub hdcp_level: Option<String>,
    /// The `ALLOWED-CPC` attribute.
    pub allowed_cpc: Option<String>,
    /// The `VIDEO-RANGE` attribute.
    pub video_range: Option<String>,
    /// The `REQ-VIDEO-LAYOUT` attribute.
    pub req_video_layout: Option<String>,
    /// The `STABLE-VARIANT-ID` attribute.
    pub stable_variant_id: Option<String>,
    /// The `VIDEO` attribute.
    pub video: Option<String>,
    /// The `PATHWAY-ID` attribute.
    pub pathway_id: Option<String>,
}

impl IFrameStreamInfLine {
    /// The attributes.
    pub open spec fn view(&self) -> IFrameStreamInfAttributes {
        IFrameStreamInfAttributes {
            uri: self.uri@,
            bandwidth: self.bandwidth,
            average_bandwidth: self.average_bandwidth,
            score: opt_string(self.score),
            codecs: opt_string(self.codecs),
            supplemental_codecs: opt_string(self.supplemental_codecs),
            resolution: self.resolution,
            hdcp_level: opt_string(self.hdcp_level),
            allowed_cpc: opt_string(self.allowed_cpc),
            video_range: opt_string(self.video_range),
            req_video_layout: opt_string(self.req_video_layout),
            stable_variant_id: opt_string(self.stable_variant_id),
            video: opt_string(self.video),
            pathway_id: opt_string(self.pathway_id),
        }
    }

    /// Reads the attributes of an `#EXT-X-I-FRAME-STREAM-INF` tag from a parsed tag line, whose
    /// value must be an attribute list with `URI`, `BANDWIDTH`.
    pub fn try_from(tag: &unknown::Tag) -> (r: Result<IFrameStreamInfLine, ValidationError>)
        ensures
            match i_frame_stream_inf_value_spec(value_bytes(*tag)) {
                Ok(a) => r matches Ok(l) && l.view() == a,
                Err(e) => r == Err::<IFrameStreamInfLine, ValidationError>(e),
            },
    {
        let list = typed_attribute_list_of(tag)?;
        let uri = match get_quoted(&list, "URI") {
            Some(v) => v,
            None => return Err(ValidationError::MissingRequiredAttribute("URI")),
        };
        let bandwidth = match get_integer(&list, "BANDWIDTH") {
            Some(v) => v,
            None => return Err(ValidationError::MissingRequiredAttribute("BANDWIDTH")),
        };
        Ok(IFrameStreamInfLine {
            uri: string_from(uri),
            bandwidth,
            average_bandwidth: get_integer(&list, "AVERAGE-BANDWIDTH"),
            score: copy_opt(get_unquoted_str(&list, "SCORE")),
            codecs: copy_opt(get_quoted(&list, "CODECS")),
            supplemental_codecs: copy_opt(get_quoted(&list, "SUPPLEMENTAL-CODECS")),
            resolution: get_resolution(&list, "RESOLUTION"),
            hdcp_level: copy_opt(get_unquoted_str(&list, "HDCP-LEVEL")),
            allowed_cpc: copy_opt(get_quoted(&list, "ALLOWED-CPC")),
            video_range: copy_opt(get_unquoted_str(&list, "VIDEO-RANGE")),
            req_video_layout: copy_opt(get_quoted(&list, "REQ-VIDEO-LAYOUT")),
            stable_variant_id: copy_opt(get_quoted(&list, "STABLE-VARIANT-ID")),
            video: copy_opt(get_quoted(&list, "VIDEO")),
            pathway_id: copy_opt(get_quoted(&list, "PATHWAY-ID")),
        })
    }
}

fn push_i_frame_stream_inf_line_0(line: &mut Vec<u8>, a: &IFrameStreamInfLine)
    ensures
        final(line)@ == old(line)@ + i_frame_stream_inf_line_0(a.view()),
{
    push_quoted_attribute(line, "URI", a.uri.as_str());
    line.push(44u8);
    push_integer_attribute(line, "BANDWIDTH", a.bandwidth);
    push_comma_integer(line, "AVERAGE-BANDWIDTH", a.average_bandwidth);
    push_comma_unquoted_str(line, "SCORE", &a.score);
    push_comma_quoted(line, "CODECS", &a.codecs);
    proof {
        assert(final(line)@ =~= old(line)@ + i_frame_stream_inf_line_0(a.view()));
    }
}

fn push_i_frame_stream_inf_line_1(line: &mut Vec<u8>, a: &IFrameStreamInfLine)
    ensures
        final(line)@ == old(line)@ + i_frame_stream_inf_line_1(a.view()),
{
    push_comma_quoted(line, "SUPPLEMENTAL-CODECS", &a.supplemental_codecs);
    push_comma_resolution(line, "RESOLUTION", a.resolution);
    push_comma_unquoted_str(line, "HDCP-LEVEL", &a.hdcp_level);
    push_comma_quoted(line, "ALLOWED-CPC", &a.allowed_cpc);
    push_comma_unquoted_str(line, "VIDEO-RANGE", &a.video_range);
    proof {
        assert(final(line)@ =~= old(line)@ + i_frame_stream_inf_line_1(a.view()));
    }
}

fn push_i_frame_stream_inf_line_2(line: &mut Vec<u8>, a: &IFrameStreamInfLine)
    ensures
        final(line)@ == old(line)@ + i_frame_stream_inf_line_2(a.view()),
{
    push_comma_quoted(line, "REQ-VIDEO-LAYOUT", &a.req_video_layout);
    push_comma_quoted(line, "STABLE-VARIANT-ID", &a.stable_variant_id);
    push_comma_quoted(line, "VIDEO", &a.video);
    push_comma_quoted(line, "PATHWAY-ID", &a.pathway_id);
    proof {
        assert(final(line)@ =~= old(line)@ + i_frame_stream_inf_line_2(a.view()));
    }
}

/// The line of an `#EXT-X-I-FRAME-STREAM-INF` tag with the attributes `a`.
pub fn calculate_line(a: &IFrameStreamInfLine) -> (r: Vec<u8>)
    ensures
        r@ == i_frame_stream_inf_line(a.view()),
{
    let mut line = start_line(TagName::IFrameStreamInf);
    line.push(58u8);
    push_i_frame_stream_inf_line_0(&mut line, a);
    push_i_frame_stream_inf_line_1(&mut line, a);
    push_i_frame_stream_inf_line_2(&mut line, a);
    proof {
        assert(line@ =~= i_frame_stream_inf_line(a.view()));
    }
    line
}

/// The attributes up to `CODECS`, in the order in which the line of the tag writes them.
pub open spec fn i_frame_stream_inf_entries_0(m: IFrameStreamInfAttributes) -> AttributeListView {
    let l = seq![("URI"@, AttributeValueView::Quoted(m.uri))];
    let l = l.push(("BANDWIDTH"@, AttributeValueView::Unquoted(dec(m.bandwidth as nat))));
    let l = push_integer_opt(l, "AVERAGE-BANDWIDTH"@, m.average_bandwidth);
    let l = push_unquoted_opt(l, "SCORE"@, opt_encode(m.score));
    push_quoted_opt(l, "CODECS"@, m.codecs)
}

/// The attributes up to `VIDEO-RANGE`, in the order in which the line of the tag writes them.
pub open spec fn i_frame_stream_inf_entries_1(m: IFrameStreamInfAttributes) -> AttributeListView {
    let l = i_frame_stream_inf_entries_0(m);
    let l = push_quoted_opt(l, "SUPPLEMENTAL-CODECS"@, m.supplemental_codecs);
    let l = push_unquoted_opt(l, "RESOLUTION"@, opt_resolution_text(m.resolution));
    let l = push_unquoted_opt(l, "HDCP-LEVEL"@, opt_encode(m.hdcp_level));
    let l = push_quoted_opt(l, "ALLOWED-CPC"@, m.allowed_cpc);
    push_unquoted_opt(l, "VIDEO-RANGE"@, opt_encode(m.video_range))
}

/// The attributes of the tag in the order in which its line writes them.
pub open spec fn i_frame_stream_inf_entries(m: IFrameStreamInfAttributes) -> AttributeListView {
    let l = i_frame_stream_inf_entries_1(m);
    let l = push_quoted_opt(l, "REQ-VIDEO-LAYOUT"@, m.req_video_layout);
    let l = push_quoted_opt(l, "STABLE-VARIANT-ID"@, m.stable_variant_id);
    let l = push_quoted_opt(l, "VIDEO"@, m.video);
    push_quoted_opt(l, "PATHWAY-ID"@, m.pathway_id)
}

proof fn lemma_i_frame_stream_inf_text_0(m: IFrameStreamInfAttributes)
    ensures
        attribute_list_text(i_frame_stream_inf_entries_0(m)) == i_frame_stream_inf_line_0(m),
{
    let p0 = seq![("URI"@, AttributeValueView::Quoted(m.uri))];
    assert(attribute_list_text(p0) =~= quoted_attribute("URI"@, m.uri));
    let p1 = p0.push(("BANDWIDTH"@, AttributeValueView::Unquoted(dec(m.bandwidth as nat))));
    lemma_attribute_list_text_push(p0, ("BANDWIDTH"@, AttributeValueView::Unquoted(dec(m.bandwidth as nat))));
    assert(attribute_text(("BANDWIDTH"@, AttributeValueView::Unquoted(dec(m.bandwidth as nat)))) =~= unquoted_attribute("BANDWIDTH"@, dec(m.bandwidth as nat)));
    assert(attribute_list_text(p1) == (quoted_attribute("URI"@, m.uri)) + (seq![44u8] + unquoted_attribute("BANDWIDTH"@, dec(m.bandwidth as nat))));
    let p2 = push_integer_opt(p1, "AVERAGE-BANDWIDTH"@, m.average_bandwidth);
    lemma_push_integer_opt_text(p1, "AVERAGE-BANDWIDTH"@, m.average_bandwidth);
    assert(attribute_list_text(p2) == (quoted_attribute("URI"@, m.uri)) + (seq![44u8] + unquoted_attribute("BANDWIDTH"@, dec(m.bandwidth as nat))) + (comma_integer("AVERAGE-BANDWIDTH"@, m.average_bandwidth)));
    let p3 = push_unquoted_opt(p2, "SCORE"@, opt_encode(m.score));
    lemma_push_unquoted_opt_text(p2, "SCORE"@, opt_encode(m.score));
    assert(attribute_list_text(p3) == (quoted_attribute("URI"@, m.uri)) + (seq![44u8] + unquoted_attribute("BANDWIDTH"@, dec(m.bandwidth as nat))) + (comma_integer("AVERAGE-BANDWIDTH"@, m.average_bandwidth)) + (comma_unquoted("SCORE"@, opt_encode(m.score))));
    let p4 = push_quoted_opt(p3, "CODECS"@, m.codecs);
    lemma_push_quoted_opt_text(p3, "CODECS"@, m.codecs);
    assert(attribute_list_text(p4) == (quoted_attribute("URI"@, m.uri)) + (seq![44u8] + unquoted_attribute("BANDWIDTH"@, dec(m.bandwidth as nat))) + (comma_integer("AVERAGE-BANDWIDTH"@, m.average_bandwidth)) + (comma_unquoted("SCORE"@, opt_encode(m.score))) + (comma_quoted("CODECS"@, m.codecs)));
    assert(p4 == i_frame_stream_inf_entries_0(m));
    assert(attribute_list_text(p4) =~= i_frame_stream_inf_line_0(m));
}

proof fn lemma_i_frame_stream_inf_text_1(m: IFrameStreamInfAttributes)
    ensures
        attribute_list_text(i_frame_stream_inf_entries_1(m)) == attribute_list_text(i_frame_stream_inf_entries_0(m)) + i_frame_stream_inf_line_1(m),
{
    let p0 = push_quoted_opt(i_frame_stream_inf_entries_0(m), "SUPPLEMENTAL-CODECS"@, m.supplemental_codecs);
    lemma_push_quoted_opt_text(i_frame_stream_inf_entries_0(m), "SUPPLEMENTAL-CODECS"@, m.supplemental_codecs);
    assert(attribute_list_text(p0) == attribute_list_text(i_frame_stream_inf_entries_0(m)) + (comma_quoted("SUPPLEMENTAL-CODECS"@, m.supplemental_codecs)));
    let p1 = push_unquoted_opt(p0, "RESOLUTION"@, opt_resolution_text(m.resolution));
    lemma_push_unquoted_opt_text(p0, "RESOLUTION"@, opt_resolution_text(m.resolution));
    lemma_concat_step(attribute_list_text(i_frame_stream_inf_entries_0(m)), (comma_quoted("SUPPLEMENTAL-CODECS"@, m.supplemental_codecs)), comma_unquoted("RESOLUTION"@, opt_resolution_text(m.resolution)));
    assert(attribute_list_text(p1) == attribute_list_text(i_frame_stream_inf_entries_0(m)) + ((comma_quoted("SUPPLEMENTAL-CODECS"@, m.supplemental_codecs)) + (comma_unquoted("RESOLUTION"@, opt_resolution_text(m.resolution)))));
    let p2 = push_unquoted_opt(p1, "HDCP-LEVEL"@, opt_encode(m.hdcp_level));
    lemma_push_unquoted_opt_text(p1, "HDCP-LEVEL"@, opt_encode(m.hdcp_level));
    lemma_concat_step(attribute_list_text(i_frame_stream_inf_entries_0(m)), (comma_quoted("SUPPLEMENTAL-CODECS"@, m.supplemental_codecs)) + (comma_unquoted("RESOLUTION"@, opt_resolution_text(m.resolution))), comma_unquoted("HDCP-LEVEL"@, opt_encode(m.hdcp_level)));
    assert(attribute_list_text(p2) == attribute_list_text(i_frame_stream_inf_entries_0(m)) + ((comma_quoted("SUPPLEMENTAL-CODECS"@, m.supplemental_codecs)) + (comma_unquoted("RESOLUTION"@, opt_resolution_text(m.resolution))) + (comma_unquoted("HDCP-LEVEL"@, opt_encode(m.hdcp_level)))));
    let p3 = push_quoted_opt(p2, "ALLOWED-CPC"@, m.allowed_cpc);
    lemma_push_quoted_opt_text(p2, "ALLOWED-CPC"@, m.allowed_cpc);
    lemma_concat_step(attribute_list_text(i_frame_stream_inf_entries_0(m)), (comma_quoted("SUPPLEMENTAL-CODECS"@, m.supplemental_codecs)) + (comma_unquoted("RESOLUTION"@, opt_resolution_text(m.resolution))) + (comma_unquoted("HDCP-LEVEL"@, opt_encode(m.hdcp_level))), comma_quoted("ALLOWED-CPC"@, m.allowed_cpc));
    assert(attribute_list_text(p3) == attribute_list_text(i_frame_stream_inf_entries_0(m)) + ((comma_quoted("SUPPLEMENTAL-CODECS"@, m.supplemental_codecs)) + (comma_unquoted("RESOLUTION"@, opt_resolution_text(m.resolution))) + (comma_unquoted("HDCP-LEVEL"@, opt_encode(m.hdcp_level))) + (comma_quoted("ALLOWED-CPC"@, m.allowed_cpc))));
    let p4 = push_unquoted_opt(p3, "VIDEO-RANGE"@, opt_encode(m.video_range));
    lemma_push_unquoted_opt_text(p3, "VIDEO-RANGE"@, opt_encode(m.video_range));
    lemma_concat_step(attribute_list_text(i_frame_stream_inf_entries_0(m)), (comma_quoted("SUPPLEMENTAL-CODECS"@, m.supplemental_codecs)) + (comma_unquoted("RESOLUTION"@, opt_resolution_text(m.resolution))) + (comma_unquoted("HDCP-LEVEL"@, opt_encode(m.hdcp_level))) + (comma_quoted("ALLOWED-CPC"@, m.allowed_cpc)), comma_unquoted("VIDEO-RANGE"@, opt_encode(m.video_range)));
    assert(attribute_list_text(p4) == attribute_list_text(i_frame_stream_inf_entries_0(m)) + ((comma_quoted("SUPPLEMENTAL-CODECS"@, m.supplemental_codecs)) + (comma_unquoted("RESOLUTION"@, opt_resolution_text(m.resolution))) + (comma_unquoted("HDCP-LEVEL"@, opt_encode(m.hdcp_level))) + (comma_quoted("ALLOWED-CPC"@, m.allowed_cpc)) + (comma_unquoted("VIDEO-RANGE"@, opt_encode(m.video_range)))));
    assert(p4 == i_frame_stream_inf_entries_1(m));
}

proof fn lemma_i_frame_stream_inf_text_2(m: IFrameStreamInfAttributes)
    ensures
        attribute_list_text(i_frame_stream_inf_entries(m)) == attribute_list_text(i_frame_stream_inf_entries_1(m)) + i_frame_stream_inf_line_2(m),
{
    let p0 = push_quoted_opt(i_frame_stream_inf_entries_1(m), "REQ-VIDEO-LAYOUT"@, m.req_video_layout);
    lemma_push_quoted_opt_text(i_frame_stream_inf_entries_1(m), "REQ-VIDEO-LAYOUT"@, m.req_video_layout);
    assert(attribute_list_text(p0) == attribute_list_text(i_frame_stream_inf_entries_1(m)) + (comma_quoted("REQ-VIDEO-LAYOUT"@, m.req_video_layout)));
    let p1 = push_quoted_opt(p0, "STABLE-VARIANT-ID"@, m.stable_variant_id);
    lemma_push_quoted_opt_text(p0, "STABLE-VARIANT-ID"@, m.stable_variant_id);
    lemma_concat_step(attribute_list_text(i_frame_stream_inf_entries_1(m)), (comma_quoted("REQ-VIDEO-LAYOUT"@, m.req_video_layout)), comma_quoted("STABLE-VARIANT-ID"@, m.stable_variant_id));
    assert(attribute_list_text(p1) == attribute_list_text(i_frame_stream_inf_entries_1(m)) + ((comma_quoted("REQ-VIDEO-LAYOUT"@, m.req_video_layout)) + (comma_quoted("STABLE-VARIANT-ID"@, m.stable_variant_id))));
    let p2 = push_quoted_opt(p1, "VIDEO"@, m.video);
    lemma_push_quoted_opt_text(p1, "VIDEO"@, m.video);
    lemma_concat_step(attribute_list_text(i_frame_stream_inf_entries_1(m)), (comma_quoted("REQ-VIDEO-LAYOUT"@, m.req_video_layout)) + (comma_quoted("STABLE-VARIANT-ID"@, m.stable_variant_id)), comma_quoted("VIDEO"@, m.video));
    assert(attribute_list_text(p2) == attribute_list_text(i_frame_stream_inf_entries_1(m)) + ((comma_quoted("REQ-VIDEO-LAYOUT"@, m.req_video_layout)) + (comma_quoted("STABLE-VARIANT-ID"@, m.stable_variant_id)) + (comma_quoted("VIDEO"@, m.video))));
    let p3 = push_quoted_opt(p2, "PATHWAY-ID"@, m.pathway_id);
    lemma_push_quoted_opt_text(p2, "PATHWAY-ID"@, m.pathway_id);
    lemma_concat_step(attribute_list_text(i_frame_stream_inf_entries_1(m)), (comma_quoted("REQ-VIDEO-LAYOUT"@, m.req_video_layout)) + (comma_quoted("STABLE-VARIANT-ID"@, m.stable_variant_id)) + (comma_quoted("VIDEO"@, m.video)), comma_quoted("PATHWAY-ID"@, m.pathway_id));
    assert(attribute_list_text(p3) == attribute_list_text(i_frame_stream_inf_entries_1(m)) + ((comma_quoted("REQ-VIDEO-LAYOUT"@, m.req_video_layout)) + (comma_quoted("STABLE-VARIANT-ID"@, m.stable_variant_id)) + (comma_quoted("VIDEO"@, m.video)) + (comma_quoted("PATHWAY-ID"@, m.pathway_id))));
    assert(p3 == i_frame_stream_inf_entries(m));
}

proof fn lemma_i_frame_stream_inf_line_text(m: IFrameStreamInfAttributes)
    ensures
        i_frame_stream_inf_line(m) == line_start(TagName::IFrameStreamInf) + seq![58u8] + attribute_list_text(i_frame_stream_inf_entries(m)),
{
    let pre = line_start(TagName::IFrameStreamInf) + seq![58u8];
    lemma_i_frame_stream_inf_text_0(m);
    assert(pre + attribute_list_text(i_frame_stream_inf_entries_0(m)) == pre + i_frame_stream_inf_line_0(m));
    lemma_i_frame_stream_inf_text_1(m);
    lemma_concat_step(pre, i_frame_stream_inf_line_0(m), i_frame_stream_inf_line_1(m));
    assert(pre + attribute_list_text(i_frame_stream_inf_entries_1(m)) == pre + i_frame_stream_inf_line_0(m) + i_frame_stream_inf_line_1(m));
    lemma_i_frame_stream_inf_text_2(m);
    lemma_concat_step(pre, i_frame_stream_inf_line_0(m) + i_frame_stream_inf_line_1(m), i_frame_stream_inf_line_2(m));
    assert(pre + attribute_list_text(i_frame_stream_inf_entries(m)) == pre + i_frame_stream_inf_line_0(m) + i_frame_stream_inf_line_1(m) + i_frame_stream_inf_line_2(m));
}

#[verifier::spinoff_prover]
proof fn lemma_i_frame_stream_inf_ok_0(m: IFrameStreamInfAttributes)
    requires
        quoted_value_ok(m.uri),
        m.score matches Some(v) ==> unquoted_value_ok(encode_utf8(v)),
        m.codecs matches Some(v) ==> quoted_value_ok(v),
    ensures
        entries_ok(i_frame_stream_inf_entries_0(m)),
{
    reveal_strlit("URI");
    reveal_strlit("BANDWIDTH");
    reveal_strlit("AVERAGE-BANDWIDTH");
    reveal_strlit("SCORE");
    reveal_strlit("CODECS");
    let p0 = seq![("URI"@, AttributeValueView::Quoted(m.uri))];
    lemma_entries_ok_one("URI"@, AttributeValueView::Quoted(m.uri));
    let p1 = p0.push(("BANDWIDTH"@, AttributeValueView::Unquoted(dec(m.bandwidth as nat))));
    lemma_dec_unquoted_ok(m.bandwidth);
    lemma_entries_ok_push(p0, "BANDWIDTH"@, AttributeValueView::Unquoted(dec(m.bandwidth as nat)));
    let p2 = push_integer_opt(p1, "AVERAGE-BANDWIDTH"@, m.average_bandwidth);
    assert(entries_ok(p2)) by {
        match m.average_bandwidth {
            Some(v) => {
                lemma_dec_unquoted_ok(v);
                lemma_entries_ok_push(p1, "AVERAGE-BANDWIDTH"@, AttributeValueView::Unquoted(dec(v as nat)));
            },
            None => {},
        }
    }
    let p3 = push_unquoted_opt(p2, "SCORE"@, opt_encode(m.score));
    assert(entries_ok(p3)) by {
        match m.score {
            Some(v) => {
                lemma_entries_ok_push(p2, "SCORE"@, AttributeValueView::Unquoted(encode_utf8(v)));
            },
            None => {},
        }
    }
    let p4 = push_quoted_opt(p3, "CODECS"@, m.codecs);
    assert(entries_ok(p4)) by {
        match m.codecs {
            Some(v) => {
                lemma_entries_ok_push(p3, "CODECS"@, AttributeValueView::Quoted(v));
            },
            None => {},
        }
    }
    assert(p4 == i_frame_stream_inf_entries_0(m));
}

#[verifier::spinoff_prover]
proof fn lemma_i_frame_stream_inf_ok_1(m: IFrameStreamInfAttributes)
    requires
        entries_ok(i_frame_stream_inf_entries_0(m)),
        m.supplemental_codecs matches Some(v) ==> quoted_value_ok(v),
        m.hdcp_level matches Some(v) ==> unquoted_value_ok(encode_utf8(v)),
        m.allowed_cpc matches Some(v) ==> quoted_value_ok(v),
        m.video_range matches Some(v) ==> unquoted_value_ok(encode_utf8(v)),
    ensures
        entries_ok(i_frame_stream_inf_entries_1(m)),
{
    reveal_strlit("SUPPLEMENTAL-CODECS");
    reveal_strlit("RESOLUTION");
    reveal_strlit("HDCP-LEVEL");
    reveal_strlit("ALLOWED-CPC");
    reveal_strlit("VIDEO-RANGE");
    let p0 = push_quoted_opt(i_frame_stream_inf_entries_0(m), "SUPPLEMENTAL-CODECS"@, m.supplemental_codecs);
    assert(entries_ok(p0)) by {
        match m.supplemental_codecs {
            Some(v) => {
                lemma_entries_ok_push(i_frame_stream_inf_entries_0(m), "SUPPLEMENTAL-CODECS"@, AttributeValueView::Quoted(v));
            },
            None => {},
        }
    }
    let p1 = push_unquoted_opt(p0, "RESOLUTION"@, opt_resolution_text(m.resolution));
    assert(entries_ok(p1)) by {
        match m.resolution {
            Some(v) => {
                lemma_resolution_value_ok(v);
                lemma_entries_ok_push(p0, "RESOLUTION"@, AttributeValueView::Unquoted(encode_utf8(decimal_resolution_text(v))));
            },
            None => {},
        }
    }
    let p2 = push_unquoted_opt(p1, "HDCP-LEVEL"@, opt_encode(m.hdcp_level));
    assert(entries_ok(p2)) by {
        match m.hdcp_level {
            Some(v) => {
                lemma_entries_ok_push(p1, "HDCP-LEVEL"@, AttributeValueView::Unquoted(encode_utf8(v)));
            },
            None => {},
        }
    }
    let p3 = push_quoted_opt(p2, "ALLOWED-CPC"@, m.allowed_cpc);
    assert(entries_ok(p3)) by {
        match m.allowed_cpc {
            Some(v) => {
                lemma_entries_ok_push(p2, "ALLOWED-CPC"@, AttributeValueView::Quoted(v));
            },
            None => {},
        }
    }
    let p4 = push_unquoted_opt(p3, "VIDEO-RANGE"@, opt_encode(m.video_range));
    assert(entries_ok(p4)) by {
        match m.video_range {
            Some(v) => {
                lemma_entries_ok_push(p3, "VIDEO-RANGE"@, AttributeValueView::Unquoted(encode_utf8(v)));
            },
            None => {},
        }
    }
    assert(p4 == i_frame_stream_inf_entries_1(m));
}

#[verifier::spinoff_prover]
proof fn lemma_i_frame_stream_inf_ok_2(m: IFrameStreamInfAttributes)
    requires
        entries_ok(i_frame_stream_inf_entries_1(m)),
        m.req_video_layout matches Some(v) ==> quoted_value_ok(v),
        m.stable_variant_id matches Some(v) ==> quoted_value_ok(v),
        m.video matches Some(v) ==> quoted_value_ok(v),
        m.pathway_id matches Some(v) ==> quoted_value_ok(v),
    ensures
        entries_ok(i_frame_stream_inf_entries(m)),
{
    reveal_strlit("REQ-VIDEO-LAYOUT");
    reveal_strlit("STABLE-VARIANT-ID");
    reveal_strlit("VIDEO");
    reveal_strlit("PATHWAY-ID");
    let p0 = push_quoted_opt(i_frame_stream_inf_entries_1(m), "REQ-VIDEO-LAYOUT"@, m.req_video_layout);
    assert(entries_ok(p0)) by {
        match m.req_video_layout {
            Some(v) => {
                lemma_entries_ok_push(i_frame_stream_inf_entries_1(m), "REQ-VIDEO-LAYOUT"@, AttributeValueView::Quoted(v));
            },
            None => {},
        }
    }
    let p1 = push_quoted_opt(p0, "STABLE-VARIANT-ID"@, m.stable_variant_id);
    assert(entries_ok(p1)) by {
        match m.stable_variant_id {
            Some(v) => {
                lemma_entries_ok_push(p0, "STABLE-VARIANT-ID"@, AttributeValueView::Quoted(v));
            },
            None => {},
        }
    }
    let p2 = push_quoted_opt(p1, "VIDEO"@, m.video);
    assert(entries_ok(p2)) by {
        match m.video {
            Some(v) => {
                lemma_entries_ok_push(p1, "VIDEO"@, AttributeValueView::Quoted(v));
            },
            None => {},
        }
    }
    let p3 = push_quoted_opt(p2, "PATHWAY-ID"@, m.pathway_id);
    assert(entries_ok(p3)) by {
        match m.pathway_id {
            Some(v) => {
                lemma_entries_ok_push(p2, "PATHWAY-ID"@, AttributeValueView::Quoted(v));
            },
            None => {},
        }
    }
    assert(p3 == i_frame_stream_inf_entries(m));
}

#[verifier::spinoff_prover]
proof fn lemma_i_frame_stream_inf_lookup_0(m: IFrameStreamInfAttributes)
    ensures
        quoted_attr(i_frame_stream_inf_entries(m), "URI"@) == Some(m.uri),
        integer_attr(i_frame_stream_inf_entries(m), "BANDWIDTH"@) == Some(m.bandwidth),
        integer_attr(i_frame_stream_inf_entries(m), "AVERAGE-BANDWIDTH"@) == m.average_bandwidth,
{
    reveal_strlit("URI");
    reveal_strlit("BANDWIDTH");
    reveal_strlit("AVERAGE-BANDWIDTH");
    reveal_strlit("SCORE");
    reveal_strlit("CODECS");
    reveal_strlit("SUPPLEMENTAL-CODECS");
    reveal_strlit("RESOLUTION");
    reveal_strlit("HDCP-LEVEL");
    reveal_strlit("ALLOWED-CPC");
    reveal_strlit("VIDEO-RANGE");
    reveal_strlit("REQ-VIDEO-LAYOUT");
    reveal_strlit("STABLE-VARIANT-ID");
    reveal_strlit("VIDEO");
    reveal_strlit("PATHWAY-ID");
    assert("URI"@.len() != "BANDWIDTH"@.len());
    assert("URI"@.len() != "AVERAGE-BANDWIDTH"@.len());
    assert("URI"@.len() != "SCORE"@.len());
    assert("URI"@.len() != "CODECS"@.len());
    assert("URI"@.len() != "SUPPLEMENTAL-CODECS"@.len());
    assert("URI"@.len() != "RESOLUTION"@.len());
    assert("URI"@.len() != "HDCP-LEVEL"@.len());
    assert("URI"@.len() != "ALLOWED-CPC"@.len());
    assert("URI"@.len() != "VIDEO-RANGE"@.len());
    assert("URI"@.len() != "REQ-VIDEO-LAYOUT"@.len());
    assert("URI"@.len() != "STABLE-VARIANT-ID"@.len());
    assert("URI"@.len() != "VIDEO"@.len());
    assert("URI"@.len() != "PATHWAY-ID"@.len());
    assert("BANDWIDTH"@.len() != "URI"@.len());
    assert("BANDWIDTH"@.len() != "AVERAGE-BANDWIDTH"@.len());
    assert("BANDWIDTH"@.len() != "SCORE"@.len());
    assert("BANDWIDTH"@.len() != "CODECS"@.len());
    assert("BANDWIDTH"@.len() != "SUPPLEMENTAL-CODECS"@.len());
    assert("BANDWIDTH"@.len() != "RESOLUTION"@.len());
    assert("BANDWIDTH"@.len() != "HDCP-LEVEL"@.len());
    assert("BANDWIDTH"@.len() != "ALLOWED-CPC"@.len());
    assert("BANDWIDTH"@.len() != "VIDEO-RANGE"@.len());
    assert("BANDWIDTH"@.len() != "REQ-VIDEO-LAYOUT"@.len());
    assert("BANDWIDTH"@.len() != "STABLE-VARIANT-ID"@.len());
    assert("BANDWIDTH"@.len() != "VIDEO"@.len());
    assert("BANDWIDTH"@.len() != "PATHWAY-ID"@.len());
    assert("AVERAGE-BANDWIDTH"@.len() != "URI"@.len());
    assert("AVERAGE-BANDWIDTH"@.len() != "BANDWIDTH"@.len());
    assert("AVERAGE-BANDWIDTH"@.len() != "SCORE"@.len());
    assert("AVERAGE-BANDWIDTH"@.len() != "CODECS"@.len());
    assert("AVERAGE-BANDWIDTH"@.len() != "SUPPLEMENTAL-CODECS"@.len());
    assert("AVERAGE-BANDWIDTH"@.len() != "RESOLUTION"@.len());
    assert("AVERAGE-BANDWIDTH"@.len() != "HDCP-LEVEL"@.len());
    assert("AVERAGE-BANDWIDTH"@.len() != "ALLOWED-CPC"@.len());
    assert("AVERAGE-BANDWIDTH"@.len() != "VIDEO-RANGE"@.len());
    assert("AVERAGE-BANDWIDTH"@.len() != "REQ-VIDEO-LAYOUT"@.len());
    assert("AVERAGE-BANDWIDTH"@[0] != "STABLE-VARIANT-ID"@[0]);
    assert("AVERAGE-BANDWIDTH"@.len() != "VIDEO"@.len());
    assert("AVERAGE-BANDWIDTH"@.len() != "PATHWAY-ID"@.len());
    let l0 = seq![("URI"@, AttributeValueView::Quoted(m.uri))];
    let l1 = l0.push(("BANDWIDTH"@, AttributeValueView::Unquoted(dec(m.bandwidth as nat))));
    let l2 = push_integer_opt(l1, "AVERAGE-BANDWIDTH"@, m.average_bandwidth);
    let l3 = push_unquoted_opt(l2, "SCORE"@, opt_encode(m.score));
    let l4 = push_quoted_opt(l3, "CODECS"@, m.codecs);
    let l5 = push_quoted_opt(l4, "SUPPLEMENTAL-CODECS"@, m.supplemental_codecs);
    let l6 = push_unquoted_opt(l5, "RESOLUTION"@, opt_resolution_text(m.resolution));
    let l7 = push_unquoted_opt(l6, "HDCP-LEVEL"@, opt_encode(m.hdcp_level));
    let l8 = push_quoted_opt(l7, "ALLOWED-CPC"@, m.allowed_cpc);
    let l9 = push_unquoted_opt(l8, "VIDEO-RANGE"@, opt_encode(m.video_range));
    let l10 = push_quoted_opt(l9, "REQ-VIDEO-LAYOUT"@, m.req_video_layout);
    let l11 = push_quoted_opt(l10, "STABLE-VARIANT-ID"@, m.stable_variant_id);
    let l12 = push_quoted_opt(l11, "VIDEO"@, m.video);
    let l13 = push_quoted_opt(l12, "PATHWAY-ID"@, m.pathway_id);
    assert(l4 == i_frame_stream_inf_entries_0(m));
    assert(l9 == i_frame_stream_inf_entries_1(m));
    assert(l13 == i_frame_stream_inf_entries(m));
    lemma_lookup_push(Seq::empty(), ("URI"@, AttributeValueView::Quoted(m.uri)), "URI"@);
    lemma_lookup_push(l0, ("BANDWIDTH"@, AttributeValueView::Unquoted(dec(m.bandwidth as nat))), "URI"@);
    lemma_lookup_push_integer_opt(l1, "AVERAGE-BANDWIDTH"@, m.average_bandwidth, "URI"@);
    lemma_lookup_push_unquoted_opt(l2, "SCORE"@, opt_encode(m.score), "URI"@);
    lemma_lookup_push_quoted_opt(l3, "CODECS"@, m.codecs, "URI"@);
    lemma_lookup_push_quoted_opt(l4, "SUPPLEMENTAL-CODECS"@, m.supplemental_codecs, "URI"@);
    lemma_lookup_push_unquoted_opt(l5, "RESOLUTION"@, opt_resolution_text(m.resolution), "URI"@);
    lemma_lookup_push_unquoted_opt(l6, "HDCP-LEVEL"@, opt_encode(m.hdcp_level), "URI"@);
    lemma_lookup_push_quoted_opt(l7, "ALLOWED-CPC"@, m.allowed_cpc, "URI"@);
    lemma_lookup_push_unquoted_opt(l8, "VIDEO-RANGE"@, opt_encode(m.video_range), "URI"@);
    lemma_lookup_push_quoted_opt(l9, "REQ-VIDEO-LAYOUT"@, m.req_video_layout, "URI"@);
    lemma_lookup_push_quoted_opt(l10, "STABLE-VARIANT-ID"@, m.stable_variant_id, "URI"@);
    lemma_lookup_push_quoted_opt(l11, "VIDEO"@, m.video, "URI"@);
    lemma_lookup_push_quoted_opt(l12, "PATHWAY-ID"@, m.pathway_id, "URI"@);
    lemma_lookup_push(Seq::empty(), ("URI"@, AttributeValueView::Quoted(m.uri)), "BANDWIDTH"@);
    lemma_lookup_push(l0, ("BANDWIDTH"@, AttributeValueView::Unquoted(dec(m.bandwidth as nat))), "BANDWIDTH"@);
    lemma_lookup_push_integer_opt(l1, "AVERAGE-BANDWIDTH"@, m.average_bandwidth, "BANDWIDTH"@);
    lemma_lookup_push_unquoted_opt(l2, "SCORE"@, opt_encode(m.score), "BANDWIDTH"@);
    lemma_lookup_push_quoted_opt(l3, "CODECS"@, m.codecs, "BANDWIDTH"@);
    lemma_lookup_push_quoted_opt(l4, "SUPPLEMENTAL-CODECS"@, m.supplemental_codecs, "BANDWIDTH"@);
    lemma_lookup_push_unquoted_opt(l5, "RESOLUTION"@, opt_resolution_text(m.resolution), "BANDWIDTH"@);
    lemma_lookup_push_unquoted_opt(l6, "HDCP-LEVEL"@, opt_encode(m.hdcp_level), "BANDWIDTH"@);
    lemma_lookup_push_quoted_opt(l7, "ALLOWED-CPC"@, m.allowed_cpc, "BANDWIDTH"@);
    lemma_lookup_push_unquoted_opt(l8, "VIDEO-RANGE"@, opt_encode(m.video_range), "BANDWIDTH"@);
    lemma_lookup_push_quoted_opt(l9, "REQ-VIDEO-LAYOUT"@, m.req_video_layout, "BANDWIDTH"@);
    lemma_lookup_push_quoted_opt(l10, "STABLE-VARIANT-ID"@, m.stable_variant_id, "BANDWIDTH"@);
    lemma_lookup_push_quoted_opt(l11, "VIDEO"@, m.video, "BANDWIDTH"@);
    lemma_lookup_push_quoted_opt(l12, "PATHWAY-ID"@, m.pathway_id, "BANDWIDTH"@);
    lemma_lookup_push(Seq::empty(), ("URI"@, AttributeValueView::Quoted(m.uri)), "AVERAGE-BANDWIDTH"@);
    lemma_lookup_push(l0, ("BANDWIDTH"@, AttributeValueView::Unquoted(dec(m.bandwidth as nat))), "AVERAGE-BANDWIDTH"@);
    lemma_lookup_push_integer_opt(l1, "AVERAGE-BANDWIDTH"@, m.average_bandwidth, "AVERAGE-BANDWIDTH"@);
    lemma_lookup_push_unquoted_opt(l2, "SCORE"@, opt_encode(m.score), "AVERAGE-BANDWIDTH"@);
    lemma_lookup_push_quoted_opt(l3, "CODECS"@, m.codecs, "AVERAGE-BANDWIDTH"@);
    lemma_lookup_push_quoted_opt(l4, "SUPPLEMENTAL-CODECS"@, m.supplemental_codecs, "AVERAGE-BANDWIDTH"@);
    lemma_lookup_push_unquoted_opt(l5, "RESOLUTION"@, opt_resolution_text(m.resolution), "AVERAGE-BANDWIDTH"@);
    lemma_lookup_push_unquoted_opt(l6, "HDCP-LEVEL"@, opt_encode(m.hdcp_level), "AVERAGE-BANDWIDTH"@);
    lemma_lookup_push_quoted_opt(l7, "ALLOWED-CPC"@, m.allowed_cpc, "AVERAGE-BANDWIDTH"@);
    lemma_lookup_push_unquoted_opt(l8, "VIDEO-RANGE"@, opt_encode(m.video_range), "AVERAGE-BANDWIDTH"@);
    lemma_lookup_push_quoted_opt(l9, "REQ-VIDEO-LAYOUT"@, m.req_video_layout, "AVERAGE-BANDWIDTH"@);
    lemma_lookup_push_quoted_opt(l10, "STABLE-VARIANT-ID"@, m.stable_variant_id, "AVERAGE-BANDWIDTH"@);
    lemma_lookup_push_quoted_opt(l11, "VIDEO"@, m.video, "AVERAGE-BANDWIDTH"@);
    lemma_lookup_push_quoted_opt(l12, "PATHWAY-ID"@, m.pathway_id, "AVERAGE-BANDWIDTH"@);
    assert(Seq::<(Seq<char>, AttributeValueView)>::empty().push(("URI"@, AttributeValueView::Quoted(m.uri))) =~= l0);
    crate::utils::lemma_parse_u64_of_dec(m.bandwidth);
    if let Some(v) = m.average_bandwidth {
        crate::utils::lemma_parse_u64_of_dec(v);
    }
    assert(quoted_attr(l13, "URI"@) == Some(m.uri));
    assert(integer_attr(l13, "BANDWIDTH"@) == Some(m.bandwidth));
    assert(integer_attr(l13, "AVERAGE-BANDWIDTH"@) == m.average_bandwidth);
}

#[verifier::spinoff_prover]
proof fn lemma_i_frame_stream_inf_lookup_1(m: IFrameStreamInfAttributes)
    ensures
        utf8_attr(i_frame_stream_inf_entries(m), "SCORE"@) == m.score,
        quoted_attr(i_frame_stream_inf_entries(m), "CODECS"@) == m.codecs,
        quoted_attr(i_frame_stream_inf_entries(m), "SUPPLEMENTAL-CODECS"@) == m.supplemental_codecs,
{
    reveal_strlit("URI");
    reveal_strlit("BANDWIDTH");
    reveal_strlit("AVERAGE-BANDWIDTH");
    reveal_strlit("SCORE");
    reveal_strlit("CODECS");
    reveal_strlit("SUPPLEMENTAL-CODECS");
    reveal_strlit("RESOLUTION");
    reveal_strlit("HDCP-LEVEL");
    reveal_strlit("ALLOWED-CPC");
    reveal_strlit("VIDEO-RANGE");
    reveal_strlit("REQ-VIDEO-LAYOUT");
    reveal_strlit("STABLE-VARIANT-ID");
    reveal_strlit("VIDEO");
    reveal_strlit("PATHWAY-ID");
    assert("SCORE"@.len() != "URI"@.len());
    assert("SCORE"@.len() != "BANDWIDTH"@.len());
    assert("SCORE"@.len() != "AVERAGE-BANDWIDTH"@.len());
    assert("SCORE"@.len() != "CODECS"@.len());
    assert("SCORE"@.len() != "SUPPLEMENTAL-CODECS"@.len());
    assert("SCORE"@.len() != "RESOLUTION"@.len());
    assert("SCORE"@.len() != "HDCP-LEVEL"@.len());
    assert("SCORE"@.len() != "ALLOWED-CPC"@.len());
    assert("SCORE"@.len() != "VIDEO-RANGE"@.len());
    assert("SCORE"@.len() != "REQ-VIDEO-LAYOUT"@.len());
    assert("SCORE"@.len() != "STABLE-VARIANT-ID"@.len());
    assert("SCORE"@[0] != "VIDEO"@[0]);
    assert("SCORE"@.len() != "PATHWAY-ID"@.len());
    assert("CODECS"@.len() != "URI"@.len());
    assert("CODECS"@.len() != "BANDWIDTH"@.len());
    assert("CODECS"@.len() != "AVERAGE-BANDWIDTH"@.len());
    assert("CODECS"@.len() != "SCORE"@.len());
    assert("CODECS"@.len() != "SUPPLEMENTAL-CODECS"@.len());
    assert("CODECS"@.len() != "RESOLUTION"@.len());
    assert("CODECS"@.len() != "HDCP-LEVEL"@.len());
    assert("CODECS"@.len() != "ALLOWED-CPC"@.len());
    assert("CODECS"@.len() != "VIDEO-RANGE"@.len());
    assert("CODECS"@.len() != "REQ-VIDEO-LAYOUT"@.len());
    assert("CODECS"@.len() != "STABLE-VARIANT-ID"@.len());
    assert("CODECS"@.len() != "VIDEO"@.len());
    assert("CODECS"@.len() != "PATHWAY-ID"@.len());
    assert("SUPPLEMENTAL-CODECS"@.len() != "URI"@.len());
    assert("SUPPLEMENTAL-CODECS"@.len() != "BANDWIDTH"@.len());
    assert("SUPPLEMENTAL-CODECS"@.len() != "AVERAGE-BANDWIDTH"@.len());
    assert("SUPPLEMENTAL-CODECS"@.len() != "SCORE"@.len());
    assert("SUPPLEMENTAL-CODECS"@.len() != "CODECS"@.len());
    assert("SUPPLEMENTAL-CODECS"@.len() != "RESOLUTION"@.len());
    assert("SUPPLEMENTAL-CODECS"@.len() != "HDCP-LEVEL"@.len());
    assert("SUPPLEMENTAL-CODECS"@.len() != "ALLOWED-CPC"@.len());
    assert("SUPPLEMENTAL-CODECS"@.len() != "VIDEO-RANGE"@.len());
    assert("SUPPLEMENTAL-CODECS"@.len() != "REQ-VIDEO-LAYOUT"@.len());
    assert("SUPPLEMENTAL-CODECS"@.len() != "STABLE-VARIANT-ID"@.len());
    assert("SUPPLEMENTAL-CODECS"@.len() != "VIDEO"@.len());
    assert("SUPPLEMENTAL-CODECS"@.len() != "PATHWAY-ID"@.len());
    let l0 = seq![("URI"@, AttributeValueView::Quoted(m.uri))];
    let l1 = l0.push(("BANDWIDTH"@, AttributeValueView::Unquoted(dec(m.bandwidth as nat))));
    let l2 = push_integer_opt(l1, "AVERAGE-BANDWIDTH"@, m.average_bandwidth);
    let l3 = push_unquoted_opt(l2, "SCORE"@, opt_encode(m.score));
    let l4 = push_quoted_opt(l3, "CODECS"@, m.codecs);
    let l5 = push_quoted_opt(l4, "SUPPLEMENTAL-CODECS"@, m.supplemental_codecs);
    let l6 = push_unquoted_opt(l5, "RESOLUTION"@, opt_resolution_text(m.resolution));
    let l7 = push_unquoted_opt(l6, "HDCP-LEVEL"@, opt_encode(m.hdcp_level));
    let l8 = push_quoted_opt(l7, "ALLOWED-CPC"@, m.allowed_cpc);
    let l9 = push_unquoted_opt(l8, "VIDEO-RANGE"@, opt_encode(m.video_range));
    let l10 = push_quoted_opt(l9, "REQ-VIDEO-LAYOUT"@, m.req_video_layout);
    let l11 = push_quoted_opt(l10, "STABLE-VARIANT-ID"@, m.stable_variant_id);
    let l12 = push_quoted_opt(l11, "VIDEO"@, m.video);
    let l13 = push_quoted_opt(l12, "PATHWAY-ID"@, m.pathway_id);
    assert(l4 == i_frame_stream_inf_entries_0(m));
    assert(l9 == i_frame_stream_inf_entries_1(m));
    assert(l13 == i_frame_stream_inf_entries(m));
    lemma_lookup_push(Seq::empty(), ("URI"@, AttributeValueView::Quoted(m.uri)), "SCORE"@);
    lemma_lookup_push(l0, ("BANDWIDTH"@, AttributeValueView::Unquoted(dec(m.bandwidth as nat))), "SCORE"@);
    lemma_lookup_push_integer_opt(l1, "AVERAGE-BANDWIDTH"@, m.average_bandwidth, "SCORE"@);
    lemma_lookup_push_unquoted_opt(l2, "SCORE"@, opt_encode(m.score), "SCORE"@);
    lemma_lookup_push_quoted_opt(l3, "CODECS"@, m.codecs, "SCORE"@);
    lemma_lookup_push_quoted_opt(l4, "SUPPLEMENTAL-CODECS"@, m.supplemental_codecs, "SCORE"@);
    lemma_lookup_push_unquoted_opt(l5, "RESOLUTION"@, opt_resolution_text(m.resolution), "SCORE"@);
    lemma_lookup_push_unquoted_opt(l6, "HDCP-LEVEL"@, opt_encode(m.hdcp_level), "SCORE"@);
    lemma_lookup_push_quoted_opt(l7, "ALLOWED-CPC"@, m.allowed_cpc, "SCORE"@);
    lemma_lookup_push_unquoted_opt(l8, "VIDEO-RANGE"@, opt_encode(m.video_range), "SCORE"@);
    lemma_lookup_push_quoted_opt(l9, "REQ-VIDEO-LAYOUT"@, m.req_video_layout, "SCORE"@);
    lemma_lookup_push_quoted_opt(l10, "STABLE-VARIANT-ID"@, m.stable_variant_id, "SCORE"@);
    lemma_lookup_push_quoted_opt(l11, "VIDEO"@, m.video, "SCORE"@);
    lemma_lookup_push_quoted_opt(l12, "PATHWAY-ID"@, m.pathway_id, "SCORE"@);
    lemma_lookup_push(Seq::empty(), ("URI"@, AttributeValueView::Quoted(m.uri)), "CODECS"@);
    lemma_lookup_push(l0, ("BANDWIDTH"@, AttributeValueView::Unquoted(dec(m.bandwidth as nat))), "CODECS"@);
    lemma_lookup_push_integer_opt(l1, "AVERAGE-BANDWIDTH"@, m.average_bandwidth, "CODECS"@);
    lemma_lookup_push_unquoted_opt(l2, "SCORE"@, opt_encode(m.score), "CODECS"@);
    lemma_lookup_push_quoted_opt(l3, "CODECS"@, m.codecs, "CODECS"@);
    lemma_lookup_push_quoted_opt(l4, "SUPPLEMENTAL-CODECS"@, m.supplemental_codecs, "CODECS"@);
    lemma_lookup_push_unquoted_opt(l5, "RESOLUTION"@, opt_resolution_text(m.resolution), "CODECS"@);
    lemma_lookup_push_unquoted_opt(l6, "HDCP-LEVEL"@, opt_encode(m.hdcp_level), "CODECS"@);
    lemma_lookup_push_quoted_opt(l7, "ALLOWED-CPC"@, m.allowed_cpc, "CODECS"@);
    lemma_lookup_push_unquoted_opt(l8, "VIDEO-RANGE"@, opt_encode(m.video_range), "CODECS"@);
    lemma_lookup_push_quoted_opt(l9, "REQ-VIDEO-LAYOUT"@, m.req_video_layout, "CODECS"@);
    lemma_lookup_push_quoted_opt(l10, "STABLE-VARIANT-ID"@, m.stable_variant_id, "CODECS"@);
    lemma_lookup_push_quoted_opt(l11, "VIDEO"@, m.video, "CODECS"@);
    lemma_lookup_push_quoted_opt(l12, "PATHWAY-ID"@, m.pathway_id, "CODECS"@);
    lemma_lookup_push(Seq::empty(), ("URI"@, AttributeValueView::Quoted(m.uri)), "SUPPLEMENTAL-CODECS"@);
    lemma_lookup_push(l0, ("BANDWIDTH"@, AttributeValueView::Unquoted(dec(m.bandwidth as nat))), "SUPPLEMENTAL-CODECS"@);
    lemma_lookup_push_integer_opt(l1, "AVERAGE-BANDWIDTH"@, m.average_bandwidth, "SUPPLEMENTAL-CODECS"@);
    lemma_lookup_push_unquoted_opt(l2, "SCORE"@, opt_encode(m.score), "SUPPLEMENTAL-CODECS"@);
    lemma_lookup_push_quoted_opt(l3, "CODECS"@, m.codecs, "SUPPLEMENTAL-CODECS"@);
    lemma_lookup_push_quoted_opt(l4, "SUPPLEMENTAL-CODECS"@, m.supplemental_codecs, "SUPPLEMENTAL-CODECS"@);
    lemma_lookup_push_unquoted_opt(l5, "RESOLUTION"@, opt_resolution_text(m.resolution), "SUPPLEMENTAL-CODECS"@);
    lemma_lookup_push_unquoted_opt(l6, "HDCP-LEVEL"@, opt_encode(m.hdcp_level), "SUPPLEMENTAL-CODECS"@);
    lemma_lookup_push_quoted_opt(l7, "ALLOWED-CPC"@, m.allowed_cpc, "SUPPLEMENTAL-CODECS"@);
    lemma_lookup_push_unquoted_opt(l8, "VIDEO-RANGE"@, opt_encode(m.video_range), "SUPPLEMENTAL-CODECS"@);
    lemma_lookup_push_quoted_opt(l9, "REQ-VIDEO-LAYOUT"@, m.req_video_layout, "SUPPLEMENTAL-CODECS"@);
    lemma_lookup_push_quoted_opt(l10, "STABLE-VARIANT-ID"@, m.stable_variant_id, "SUPPLEMENTAL-CODECS"@);
    lemma_lookup_push_quoted_opt(l11, "VIDEO"@, m.video, "SUPPLEMENTAL-CODECS"@);
    lemma_lookup_push_quoted_opt(l12, "PATHWAY-ID"@, m.pathway_id, "SUPPLEMENTAL-CODECS"@);
    assert(Seq::<(Seq<char>, AttributeValueView)>::empty().push(("URI"@, AttributeValueView::Quoted(m.uri))) =~= l0);
    if let Some(v) = m.score {
        encode_utf8_valid_utf8(v);
        encode_utf8_decode_utf8(v);
    }
    assert(utf8_attr(l13, "SCORE"@) == m.score);
    assert(quoted_attr(l13, "CODECS"@) == m.codecs);
    assert(quoted_attr(l13, "SUPPLEMENTAL-CODECS"@) == m.supplemental_codecs);
}

#[verifier::spinoff_prover]
proof fn lemma_i_frame_stream_inf_lookup_2(m: IFrameStreamInfAttributes)
    ensures
        resolution_attr(i_frame_stream_inf_entries(m), "RESOLUTION"@) == m.resolution,
        utf8_attr(i_frame_stream_inf_entries(m), "HDCP-LEVEL"@) == m.hdcp_level,
        quoted_attr(i_frame_stream_inf_entries(m), "ALLOWED-CPC"@) == m.allowed_cpc,
{
    reveal_strlit("URI");
    reveal_strlit("BANDWIDTH");
    reveal_strlit("AVERAGE-BANDWIDTH");
    reveal_strlit("SCORE");
    reveal_strlit("CODECS");
    reveal_strlit("SUPPLEMENTAL-CODECS");
    reveal_strlit("RESOLUTION");
    reveal_strlit("HDCP-LEVEL");
    reveal_strlit("ALLOWED-CPC");
    reveal_strlit("VIDEO-RANGE");
    reveal_strlit("REQ-VIDEO-LAYOUT");
    reveal_strlit("STABLE-VARIANT-ID");
    reveal_strlit("VIDEO");
    reveal_strlit("PATHWAY-ID");
    assert("RESOLUTION"@.len() != "URI"@.len());
    assert("RESOLUTION"@.len() != "BANDWIDTH"@.len());
    assert("RESOLUTION"@.len() != "AVERAGE-BANDWIDTH"@.len());
    assert("RESOLUTION"@.len() != "SCORE"@.len());
    assert("RESOLUTION"@.len() != "CODECS"@.len());
    assert("RESOLUTION"@.len() != "SUPPLEMENTAL-CODECS"@.len());
    assert("RESOLUTION"@[0] != "HDCP-LEVEL"@[0]);
    assert("RESOLUTION"@.len() != "ALLOWED-CPC"@.len());
    assert("RESOLUTION"@.len() != "VIDEO-RANGE"@.len());
    assert("RESOLUTION"@.len() != "REQ-VIDEO-LAYOUT"@.len());
    assert("RESOLUTION"@.len() != "STABLE-VARIANT-ID"@.len());
    assert("RESOLUTION"@.len() != "VIDEO"@.len());
    assert("RESOLUTION"@[0] != "PATHWAY-ID"@[0]);
    assert("HDCP-LEVEL"@.len() != "URI"@.len());
    assert("HDCP-LEVEL"@.len() != "BANDWIDTH"@.len());
    assert("HDCP-LEVEL"@.len() != "AVERAGE-BANDWIDTH"@.len());
    assert("HDCP-LEVEL"@.len() != "SCORE"@.len());
    assert("HDCP-LEVEL"@.len() != "CODECS"@.len());
    assert("HDCP-LEVEL"@.len() != "SUPPLEMENTAL-CODECS"@.len());
    assert("HDCP-LEVEL"@[0] != "RESOLUTION"@[0]);
    assert("HDCP-LEVEL"@.len() != "ALLOWED-CPC"@.len());
    assert("HDCP-LEVEL"@.len() != "VIDEO-RANGE"@.len());
    assert("HDCP-LEVEL"@.len() != "REQ-VIDEO-LAYOUT"@.len());
    assert("HDCP-LEVEL"@.len() != "STABLE-VARIANT-ID"@.len());
    assert("HDCP-LEVEL"@.len() != "VIDEO"@.len());
    assert("HDCP-LEVEL"@[0] != "PATHWAY-ID"@[0]);
    assert("ALLOWED-CPC"@.len() != "URI"@.len());
    assert("ALLOWED-CPC"@.len() != "BANDWIDTH"@.len());
    assert("ALLOWED-CPC"@.len() != "AVERAGE-BANDWIDTH"@.len());
    assert("ALLOWED-CPC"@.len() != "SCORE"@.len());
    assert("ALLOWED-CPC"@.len() != "CODECS"@.len());
    assert("ALLOWED-CPC"@.len() != "SUPPLEMENTAL-CODECS"@.len());
    assert("ALLOWED-CPC"@.len() != "RESOLUTION"@.len());
    assert("ALLOWED-CPC"@.len() != "HDCP-LEVEL"@.len());
    assert("ALLOWED-CPC"@[0] != "VIDEO-RANGE"@[0]);
    assert("ALLOWED-CPC"@.len() != "REQ-VIDEO-LAYOUT"@.len());
    assert("ALLOWED-CPC"@.len() != "STABLE-VARIANT-ID"@.len());
    assert("ALLOWED-CPC"@.len() != "VIDEO"@.len());
    assert("ALLOWED-CPC"@.len() != "PATHWAY-ID"@.len());
    let l0 = seq![("URI"@, AttributeValueView::Quoted(m.uri))];
    let l1 = l0.push(("BANDWIDTH"@, AttributeValueView::Unquoted(dec(m.bandwidth as nat))));
    let l2 = push_integer_opt(l1, "AVERAGE-BANDWIDTH"@, m.average_bandwidth);
    let l3 = push_unquoted_opt(l2, "SCORE"@, opt_encode(m.score));
    let l4 = push_quoted_opt(l3, "CODECS"@, m.codecs);
    let l5 = push_quoted_opt(l4, "SUPPLEMENTAL-CODECS"@, m.supplemental_codecs);
    let l6 = push_unquoted_opt(l5, "RESOLUTION"@, opt_resolution_text(m.resolution));
    let l7 = push_unquoted_opt(l6, "HDCP-LEVEL"@, opt_encode(m.hdcp_level));
    let l8 = push_quoted_opt(l7, "ALLOWED-CPC"@, m.allowed_cpc);
    let l9 = push_unquoted_opt(l8, "VIDEO-RANGE"@, opt_encode(m.video_range));
    let l10 = push_quoted_opt(l9, "REQ-VIDEO-LAYOUT"@, m.req_video_layout);
    let l11 = push_quoted_opt(l10, "STABLE-VARIANT-ID"@, m.stable_variant_id);
    let l12 = push_quoted_opt(l11, "VIDEO"@, m.video);
    let l13 = push_quoted_opt(l12, "PATHWAY-ID"@, m.pathway_id);
    assert(l4 == i_frame_stream_inf_entries_0(m));
    assert(l9 == i_frame_stream_inf_entries_1(m));
    assert(l13 == i_frame_stream_inf_entries(m));
    lemma_lookup_push(Seq::empty(), ("URI"@, AttributeValueView::Quoted(m.uri)), "RESOLUTION"@);
    lemma_lookup_push(l0, ("BANDWIDTH"@, AttributeValueView::Unquoted(dec(m.bandwidth as nat))), "RESOLUTION"@);
    lemma_lookup_push_integer_opt(l1, "AVERAGE-BANDWIDTH"@, m.average_bandwidth, "RESOLUTION"@);
    lemma_lookup_push_unquoted_opt(l2, "SCORE"@, opt_encode(m.score), "RESOLUTION"@);
    lemma_lookup_push_quoted_opt(l3, "CODECS"@, m.codecs, "RESOLUTION"@);
    lemma_lookup_push_quoted_opt(l4, "SUPPLEMENTAL-CODECS"@, m.supplemental_codecs, "RESOLUTION"@);
    lemma_lookup_push_unquoted_opt(l5, "RESOLUTION"@, opt_resolution_text(m.resolution), "RESOLUTION"@);
    lemma_lookup_push_unquoted_opt(l6, "HDCP-LEVEL"@, opt_encode(m.hdcp_level), "RESOLUTION"@);
    lemma_lookup_push_quoted_opt(l7, "ALLOWED-CPC"@, m.allowed_cpc, "RESOLUTION"@);
    lemma_lookup_push_unquoted_opt(l8, "VIDEO-RANGE"@, opt_encode(m.video_range), "RESOLUTION"@);
    lemma_lookup_push_quoted_opt(l9, "REQ-VIDEO-LAYOUT"@, m.req_video_layout, "RESOLUTION"@);
    lemma_lookup_push_quoted_opt(l10, "STABLE-VARIANT-ID"@, m.stable_variant_id, "RESOLUTION"@);
    lemma_lookup_push_quoted_opt(l11, "VIDEO"@, m.video, "RESOLUTION"@);
    lemma_lookup_push_quoted_opt(l12, "PATHWAY-ID"@, m.pathway_id, "RESOLUTION"@);
    lemma_lookup_push(Seq::empty(), ("URI"@, AttributeValueView::Quoted(m.uri)), "HDCP-LEVEL"@);
    lemma_lookup_push(l0, ("BANDWIDTH"@, AttributeValueView::Unquoted(dec(m.bandwidth as nat))), "HDCP-LEVEL"@);
    lemma_lookup_push_integer_opt(l1, "AVERAGE-BANDWIDTH"@, m.average_bandwidth, "HDCP-LEVEL"@);
    lemma_lookup_push_unquoted_opt(l2, "SCORE"@, opt_encode(m.score), "HDCP-LEVEL"@);
    lemma_lookup_push_quoted_opt(l3, "CODECS"@, m.codecs, "HDCP-LEVEL"@);
    lemma_lookup_push_quoted_opt(l4, "SUPPLEMENTAL-CODECS"@, m.supplemental_codecs, "HDCP-LEVEL"@);
    lemma_lookup_push_unquoted_opt(l5, "RESOLUTION"@, opt_resolution_text(m.resolution), "HDCP-LEVEL"@);
    lemma_lookup_push_unquoted_opt(l6, "HDCP-LEVEL"@, opt_encode(m.hdcp_level), "HDCP-LEVEL"@);
    lemma_lookup_push_quoted_opt(l7, "ALLOWED-CPC"@, m.allowed_cpc, "HDCP-LEVEL"@);
    lemma_lookup_push_unquoted_opt(l8, "VIDEO-RANGE"@, opt_encode(m.video_range), "HDCP-LEVEL"@);
    lemma_lookup_push_quoted_opt(l9, "REQ-VIDEO-LAYOUT"@, m.req_video_layout, "HDCP-LEVEL"@);
    lemma_lookup_push_quoted_opt(l10, "STABLE-VARIANT-ID"@, m.stable_variant_id, "HDCP-LEVEL"@);
    lemma_lookup_push_quoted_opt(l11, "VIDEO"@, m.video, "HDCP-LEVEL"@);
    lemma_lookup_push_quoted_opt(l12, "PATHWAY-ID"@, m.pathway_id, "HDCP-LEVEL"@);
    lemma_lookup_push(Seq::empty(), ("URI"@, AttributeValueView::Quoted(m.uri)), "ALLOWED-CPC"@);
    lemma_lookup_push(l0, ("BANDWIDTH"@, AttributeValueView::Unquoted(dec(m.bandwidth as nat))), "ALLOWED-CPC"@);
    lemma_lookup_push_integer_opt(l1, "AVERAGE-BANDWIDTH"@, m.average_bandwidth, "ALLOWED-CPC"@);
    lemma_lookup_push_unquoted_opt(l2, "SCORE"@, opt_encode(m.score), "ALLOWED-CPC"@);
    lemma_lookup_push_quoted_opt(l3, "CODECS"@, m.codecs, "ALLOWED-CPC"@);
    lemma_lookup_push_quoted_opt(l4, "SUPPLEMENTAL-CODECS"@, m.supplemental_codecs, "ALLOWED-CPC"@);
    lemma_lookup_push_unquoted_opt(l5, "RESOLUTION"@, opt_resolution_text(m.resolution), "ALLOWED-CPC"@);
    lemma_lookup_push_unquoted_opt(l6, "HDCP-LEVEL"@, opt_encode(m.hdcp_level), "ALLOWED-CPC"@);
    lemma_lookup_push_quoted_opt(l7, "ALLOWED-CPC"@, m.allowed_cpc, "ALLOWED-CPC"@);
    lemma_lookup_push_unquoted_opt(l8, "VIDEO-RANGE"@, opt_encode(m.video_range), "ALLOWED-CPC"@);
    lemma_lookup_push_quoted_opt(l9, "REQ-VIDEO-LAYOUT"@, m.req_video_layout, "ALLOWED-CPC"@);
    lemma_lookup_push_quoted_opt(l10, "STABLE-VARIANT-ID"@, m.stable_variant_id, "ALLOWED-CPC"@);
    lemma_lookup_push_quoted_opt(l11, "VIDEO"@, m.video, "ALLOWED-CPC"@);
    lemma_lookup_push_quoted_opt(l12, "PATHWAY-ID"@, m.pathway_id, "ALLOWED-CPC"@);
    assert(Seq::<(Seq<char>, AttributeValueView)>::empty().push(("URI"@, AttributeValueView::Quoted(m.uri))) =~= l0);
    if let Some(v) = m.resolution {
        lemma_resolution_value_ok(v);
    }
    if let Some(v) = m.hdcp_level {
        encode_utf8_valid_utf8(v);
        encode_utf8_decode_utf8(v);
    }
    assert(resolution_attr(l13, "RESOLUTION"@) == m.resolution);
    assert(utf8_attr(l13, "HDCP-LEVEL"@) == m.hdcp_level);
    assert(quoted_attr(l13, "ALLOWED-CPC"@) == m.allowed_cpc);
}

#[verifier::spinoff_prover]
proof fn lemma_i_frame_stream_inf_lookup_3(m: IFrameStreamInfAttributes)
    ensures
        utf8_attr(i_frame_stream_inf_entries(m), "VIDEO-RANGE"@) == m.video_range,
        quoted_attr(i_frame_stream_inf_entries(m), "REQ-VIDEO-LAYOUT"@) == m.req_video_layout,
        quoted_attr(i_frame_stream_inf_entries(m), "STABLE-VARIANT-ID"@) == m.stable_variant_id,
{
    reveal_strlit("URI");
    reveal_strlit("BANDWIDTH");
    reveal_strlit("AVERAGE-BANDWIDTH");
    reveal_strlit("SCORE");
    reveal_strlit("CODECS");
    reveal_strlit("SUPPLEMENTAL-CODECS");
    reveal_strlit("RESOLUTION");
    reveal_strlit("HDCP-LEVEL");
    reveal_strlit("ALLOWED-CPC");
    reveal_strlit("VIDEO-RANGE");
    reveal_strlit("REQ-VIDEO-LAYOUT");
    reveal_strlit("STABLE-VARIANT-ID");
    reveal_strlit("VIDEO");
    reveal_strlit("PATHWAY-ID");
    assert("VIDEO-RANGE"@.len() != "URI"@.len());
    assert("VIDEO-RANGE"@.len() != "BANDWIDTH"@.len());
    assert("VIDEO-RANGE"@.len() != "AVERAGE-BANDWIDTH"@.len());
    assert("VIDEO-RANGE"@.len() != "SCORE"@.len());
    assert("VIDEO-RANGE"@.len() != "CODECS"@.len());
    assert("VIDEO-RANGE"@.len() != "SUPPLEMENTAL-CODECS"@.len());
    assert("VIDEO-RANGE"@.len() != "RESOLUTION"@.len());
    assert("VIDEO-RANGE"@.len() != "HDCP-LEVEL"@.len());
    assert("VIDEO-RANGE"@[0] != "ALLOWED-CPC"@[0]);
    assert("VIDEO-RANGE"@.len() != "REQ-VIDEO-LAYOUT"@.len());
    assert("VIDEO-RANGE"@.len() != "STABLE-VARIANT-ID"@.len());
    assert("VIDEO-RANGE"@.len() != "VIDEO"@.len());
    assert("VIDEO-RANGE"@.len() != "PATHWAY-ID"@.len());
    assert("REQ-VIDEO-LAYOUT"@.len() != "URI"@.len());
    assert("REQ-VIDEO-LAYOUT"@.len() != "BANDWIDTH"@.len());
    assert("REQ-VIDEO-LAYOUT"@.len() != "AVERAGE-BANDWIDTH"@.len());
    assert("REQ-VIDEO-LAYOUT"@.len() != "SCORE"@.len());
    assert("REQ-VIDEO-LAYOUT"@.len() != "CODECS"@.len());
    assert("REQ-VIDEO-LAYOUT"@.len() != "SUPPLEMENTAL-CODECS"@.len());
    assert("REQ-VIDEO-LAYOUT"@.len() != "RESOLUTION"@.len());
    assert("REQ-VIDEO-LAYOUT"@.len() != "HDCP-LEVEL"@.len());
    assert("REQ-VIDEO-LAYOUT"@.len() != "ALLOWED-CPC"@.len());
    assert("REQ-VIDEO-LAYOUT"@.len() != "VIDEO-RANGE"@.len());
    assert("REQ-VIDEO-LAYOUT"@.len() != "STABLE-VARIANT-ID"@.len());
    assert("REQ-VIDEO-LAYOUT"@.len() != "VIDEO"@.len());
    assert("REQ-VIDEO-LAYOUT"@.len() != "PATHWAY-ID"@.len());
    assert("STABLE-VARIANT-ID"@.len() != "URI"@.len());
    assert("STABLE-VARIANT-ID"@.len() != "BANDWIDTH"@.len());
    assert("STABLE-VARIANT-ID"@[0] != "AVERAGE-BANDWIDTH"@[0]);
    assert("STABLE-VARIANT-ID"@.len() != "SCORE"@.len());
    assert("STABLE-VARIANT-ID"@.len() != "CODECS"@.len());
    assert("STABLE-VARIANT-ID"@.len() != "SUPPLEMENTAL-CODECS"@.len());
    assert("STABLE-VARIANT-ID"@.len() != "RESOLUTION"@.len());
    assert("STABLE-VARIANT-ID"@.len() != "HDCP-LEVEL"@.len());
    assert("STABLE-VARIANT-ID"@.len() != "ALLOWED-CPC"@.len());
    assert("STABLE-VARIANT-ID"@.len() != "VIDEO-RANGE"@.len());
    assert("STABLE-VARIANT-ID"@.len() != "REQ-VIDEO-LAYOUT"@.len());
    assert("STABLE-VARIANT-ID"@.len() != "VIDEO"@.len());
    assert("STABLE-VARIANT-ID"@.len() != "PATHWAY-ID"@.len());
    let l0 = seq![("URI"@, AttributeValueView::Quoted(m.uri))];
    let l1 = l0.push(("BANDWIDTH"@, AttributeValueView::Unquoted(dec(m.bandwidth as nat))));
    let l2 = push_integer_opt(l1, "AVERAGE-BANDWIDTH"@, m.average_bandwidth);
    let l3 = push_unquoted_opt(l2, "SCORE"@, opt_encode(m.score));
    let l4 = push_quoted_opt(l3, "CODECS"@, m.codecs);
    let l5 = push_quoted_opt(l4, "SUPPLEMENTAL-CODECS"@, m.supplemental_codecs);
    let l6 = push_unquoted_opt(l5, "RESOLUTION"@, opt_resolution_text(m.resolution));
    let l7 = push_unquoted_opt(l6, "HDCP-LEVEL"@, opt_encode(m.hdcp_level));
    let l8 = push_quoted_opt(l7, "ALLOWED-CPC"@, m.allowed_cpc);
    let l9 = push_unquoted_opt(l8, "VIDEO-RANGE"@, opt_encode(m.video_range));
    let l10 = push_quoted_opt(l9, "REQ-VIDEO-LAYOUT"@, m.req_video_layout);
    let l11 = push_quoted_opt(l10, "STABLE-VARIANT-ID"@, m.stable_variant_id);
    let l12 = push_quoted_opt(l11, "VIDEO"@, m.video);
    let l13 = push_quoted_opt(l12, "PATHWAY-ID"@, m.pathway_id);
    assert(l4 == i_frame_stream_inf_entries_0(m));
    assert(l9 == i_frame_stream_inf_entries_1(m));
    assert(l13 == i_frame_stream_inf_entries(m));
    lemma_lookup_push(Seq::empty(), ("URI"@, AttributeValueView::Quoted(m.uri)), "VIDEO-RANGE"@);
    lemma_lookup_push(l0, ("BANDWIDTH"@, AttributeValueView::Unquoted(dec(m.bandwidth as nat))), "VIDEO-RANGE"@);
    lemma_lookup_push_integer_opt(l1, "AVERAGE-BANDWIDTH"@, m.average_bandwidth, "VIDEO-RANGE"@);
    lemma_lookup_push_unquoted_opt(l2, "SCORE"@, opt_encode(m.score), "VIDEO-RANGE"@);
    lemma_lookup_push_quoted_opt(l3, "CODECS"@, m.codecs, "VIDEO-RANGE"@);
    lemma_lookup_push_quoted_opt(l4, "SUPPLEMENTAL-CODECS"@, m.supplemental_codecs, "VIDEO-RANGE"@);
    lemma_lookup_push_unquoted_opt(l5, "RESOLUTION"@, opt_resolution_text(m.resolution), "VIDEO-RANGE"@);
    lemma_lookup_push_unquoted_opt(l6, "HDCP-LEVEL"@, opt_encode(m.hdcp_level), "VIDEO-RANGE"@);
    lemma_lookup_push_quoted_opt(l7, "ALLOWED-CPC"@, m.allowed_cpc, "VIDEO-RANGE"@);
    lemma_lookup_push_unquoted_opt(l8, "VIDEO-RANGE"@, opt_encode(m.video_range), "VIDEO-RANGE"@);
    lemma_lookup_push_quoted_opt(l9, "REQ-VIDEO-LAYOUT"@, m.req_video_layout, "VIDEO-RANGE"@);
    lemma_lookup_push_quoted_opt(l10, "STABLE-VARIANT-ID"@, m.stable_variant_id, "VIDEO-RANGE"@);
    lemma_lookup_push_quoted_opt(l11, "VIDEO"@, m.video, "VIDEO-RANGE"@);
    lemma_lookup_push_quoted_opt(l12, "PATHWAY-ID"@, m.pathway_id, "VIDEO-RANGE"@);
    lemma_lookup_push(Seq::empty(), ("URI"@, AttributeValueView::Quoted(m.uri)), "REQ-VIDEO-LAYOUT"@);
    lemma_lookup_push(l0, ("BANDWIDTH"@, AttributeValueView::Unquoted(dec(m.bandwidth as nat))), "REQ-VIDEO-LAYOUT"@);
    lemma_lookup_push_integer_opt(l1, "AVERAGE-BANDWIDTH"@, m.average_bandwidth, "REQ-VIDEO-LAYOUT"@);
    lemma_lookup_push_unquoted_opt(l2, "SCORE"@, opt_encode(m.score), "REQ-VIDEO-LAYOUT"@);
    lemma_lookup_push_quoted_opt(l3, "CODECS"@, m.codecs, "REQ-VIDEO-LAYOUT"@);
    lemma_lookup_push_quoted_opt(l4, "SUPPLEMENTAL-CODECS"@, m.supplemental_codecs, "REQ-VIDEO-LAYOUT"@);
    lemma_lookup_push_unquoted_opt(l5, "RESOLUTION"@, opt_resolution_text(m.resolution), "REQ-VIDEO-LAYOUT"@);
    lemma_lookup_push_unquoted_opt(l6, "HDCP-LEVEL"@, opt_encode(m.hdcp_level), "REQ-VIDEO-LAYOUT"@);
    lemma_lookup_push_quoted_opt(l7, "ALLOWED-CPC"@, m.allowed_cpc, "REQ-VIDEO-LAYOUT"@);
    lemma_lookup_push_unquoted_opt(l8, "VIDEO-RANGE"@, opt_encode(m.video_range), "REQ-VIDEO-LAYOUT"@);
    lemma_lookup_push_quoted_opt(l9, "REQ-VIDEO-LAYOUT"@, m.req_video_layout, "REQ-VIDEO-LAYOUT"@);
    lemma_lookup_push_quoted_opt(l10, "STABLE-VARIANT-ID"@, m.stable_variant_id, "REQ-VIDEO-LAYOUT"@);
    lemma_lookup_push_quoted_opt(l11, "VIDEO"@, m.video, "REQ-VIDEO-LAYOUT"@);
    lemma_lookup_push_quoted_opt(l12, "PATHWAY-ID"@, m.pathway_id, "REQ-VIDEO-LAYOUT"@);
    lemma_lookup_push(Seq::empty(), ("URI"@, AttributeValueView::Quoted(m.uri)), "STABLE-VARIANT-ID"@);
    lemma_lookup_push(l0, ("BANDWIDTH"@, AttributeValueView::Unquoted(dec(m.bandwidth as nat))), "STABLE-VARIANT-ID"@);
    lemma_lookup_push_integer_opt(l1, "AVERAGE-BANDWIDTH"@, m.average_bandwidth, "STABLE-VARIANT-ID"@);
    lemma_lookup_push_unquoted_opt(l2, "SCORE"@, opt_encode(m.score), "STABLE-VARIANT-ID"@);
    lemma_lookup_push_quoted_opt(l3, "CODECS"@, m.codecs, "STABLE-VARIANT-ID"@);
    lemma_lookup_push_quoted_opt(l4, "SUPPLEMENTAL-CODECS"@, m.supplemental_codecs, "STABLE-VARIANT-ID"@);
    lemma_lookup_push_unquoted_opt(l5, "RESOLUTION"@, opt_resolution_text(m.resolution), "STABLE-VARIANT-ID"@);
    lemma_lookup_push_unquoted_opt(l6, "HDCP-LEVEL"@, opt_encode(m.hdcp_level), "STABLE-VARIANT-ID"@);
    lemma_lookup_push_quoted_opt(l7, "ALLOWED-CPC"@, m.allowed_cpc, "STABLE-VARIANT-ID"@);
    lemma_lookup_push_unquoted_opt(l8, "VIDEO-RANGE"@, opt_encode(m.video_range), "STABLE-VARIANT-ID"@);
    lemma_lookup_push_quoted_opt(l9, "REQ-VIDEO-LAYOUT"@, m.req_video_layout, "STABLE-VARIANT-ID"@);
    lemma_lookup_push_quoted_opt(l10, "STABLE-VARIANT-ID"@, m.stable_variant_id, "STABLE-VARIANT-ID"@);
    lemma_lookup_push_quoted_opt(l11, "VIDEO"@, m.video, "STABLE-VARIANT-ID"@);
    lemma_lookup_push_quoted_opt(l12, "PATHWAY-ID"@, m.pathway_id, "STABLE-VARIANT-ID"@);
    assert(Seq::<(Seq<char>, AttributeValueView)>::empty().push(("URI"@, AttributeValueView::Quoted(m.uri))) =~= l0);
    if let Some(v) = m.video_range {
        encode_utf8_valid_utf8(v);
        encode_utf8_decode_utf8(v);
    }
    assert(utf8_attr(l13, "VIDEO-RANGE"@) == m.video_range);
    assert(quoted_attr(l13, "REQ-VIDEO-LAYOUT"@) == m.req_video_layout);
    assert(quoted_attr(l13, "STABLE-VARIANT-ID"@) == m.stable_variant_id);
}

#[verifier::spinoff_prover]
proof fn lemma_i_frame_stream_inf_lookup_4(m: IFrameStreamInfAttributes)
    ensures
        quoted_attr(i_frame_stream_inf_entries(m), "VIDEO"@) == m.video,
        quoted_attr(i_frame_stream_inf_entries(m), "PATHWAY-ID"@) == m.pathway_id,
{
    reveal_strlit("URI");
    reveal_strlit("BANDWIDTH");
    reveal_strlit("AVERAGE-BANDWIDTH");
    reveal_strlit("SCORE");
    reveal_strlit("CODECS");
    reveal_strlit("SUPPLEMENTAL-CODECS");
    reveal_strlit("RESOLUTION");
    reveal_strlit("HDCP-LEVEL");
    reveal_strlit("ALLOWED-CPC");
    reveal_strlit("VIDEO-RANGE");
    reveal_strlit("REQ-VIDEO-LAYOUT");
    reveal_strlit("STABLE-VARIANT-ID");
    reveal_strlit("VIDEO");
    reveal_strlit("PATHWAY-ID");
    assert("VIDEO"@.len() != "URI"@.len());
    assert("VIDEO"@.len() != "BANDWIDTH"@.len());
    assert("VIDEO"@.len() != "AVERAGE-BANDWIDTH"@.len());
    assert("VIDEO"@[0] != "SCORE"@[0]);
    assert("VIDEO"@.len() != "CODECS"@.len());
    assert("VIDEO"@.len() != "SUPPLEMENTAL-CODECS"@.len());
    assert("VIDEO"@.len() != "RESOLUTION"@.len());
    assert("VIDEO"@.len() != "HDCP-LEVEL"@.len());
    assert("VIDEO"@.len() != "ALLOWED-CPC"@.len());
    assert("VIDEO"@.len() != "VIDEO-RANGE"@.len());
    assert("VIDEO"@.len() != "REQ-VIDEO-LAYOUT"@.len());
    assert("VIDEO"@.len() != "STABLE-VARIANT-ID"@.len());
    assert("VIDEO"@.len() != "PATHWAY-ID"@.len());
    assert("PATHWAY-ID"@.len() != "URI"@.len());
    assert("PATHWAY-ID"@.len() != "BANDWIDTH"@.len());
    assert("PATHWAY-ID"@.len() != "AVERAGE-BANDWIDTH"@.len());
    assert("PATHWAY-ID"@.len() != "SCORE"@.len());
    assert("PATHWAY-ID"@.len() != "CODECS"@.len());
    assert("PATHWAY-ID"@.len() != "SUPPLEMENTAL-CODECS"@.len());
    assert("PATHWAY-ID"@[0] != "RESOLUTION"@[0]);
    assert("PATHWAY-ID"@[0] != "HDCP-LEVEL"@[0]);
    assert("PATHWAY-ID"@.len() != "ALLOWED-CPC"@.len());
    assert("PATHWAY-ID"@.len() != "VIDEO-RANGE"@.len());
    assert("PATHWAY-ID"@.len() != "REQ-VIDEO-LAYOUT"@.len());
    assert("PATHWAY-ID"@.len() != "STABLE-VARIANT-ID"@.len());
    assert("PATHWAY-ID"@.len() != "VIDEO"@.len());
    let l0 = seq![("URI"@, AttributeValueView::Quoted(m.uri))];
    let l1 = l0.push(("BANDWIDTH"@, AttributeValueView::Unquoted(dec(m.bandwidth as nat))));
    let l2 = push_integer_opt(l1, "AVERAGE-BANDWIDTH"@, m.average_bandwidth);
    let l3 = push_unquoted_opt(l2, "SCORE"@, opt_encode(m.score));
    let l4 = push_quoted_opt(l3, "CODECS"@, m.codecs);
    let l5 = push_quoted_opt(l4, "SUPPLEMENTAL-CODECS"@, m.supplemental_codecs);
    let l6 = push_unquoted_opt(l5, "RESOLUTION"@, opt_resolution_text(m.resolution));
    let l7 = push_unquoted_opt(l6, "HDCP-LEVEL"@, opt_encode(m.hdcp_level));
    let l8 = push_quoted_opt(l7, "ALLOWED-CPC"@, m.allowed_cpc);
    let l9 = push_unquoted_opt(l8, "VIDEO-RANGE"@, opt_encode(m.video_range));
    let l10 = push_quoted_opt(l9, "REQ-VIDEO-LAYOUT"@, m.req_video_layout);
    let l11 = push_quoted_opt(l10, "STABLE-VARIANT-ID"@, m.stable_variant_id);
    let l12 = push_quoted_opt(l11, "VIDEO"@, m.video);
    let l13 = push_quoted_opt(l12, "PATHWAY-ID"@, m.pathway_id);
    assert(l4 == i_frame_stream_inf_entries_0(m));
    assert(l9 == i_frame_stream_inf_entries_1(m));
    assert(l13 == i_frame_stream_inf_entries(m));
    lemma_lookup_push(Seq::empty(), ("URI"@, AttributeValueView::Quoted(m.uri)), "VIDEO"@);
    lemma_lookup_push(l0, ("BANDWIDTH"@, AttributeValueView::Unquoted(dec(m.bandwidth as nat))), "VIDEO"@);
    lemma_lookup_push_integer_opt(l1, "AVERAGE-BANDWIDTH"@, m.average_bandwidth, "VIDEO"@);
    lemma_lookup_push_unquoted_opt(l2, "SCORE"@, opt_encode(m.score), "VIDEO"@);
    lemma_lookup_push_quoted_opt(l3, "CODECS"@, m.codecs, "VIDEO"@);
    lemma_lookup_push_quoted_opt(l4, "SUPPLEMENTAL-CODECS"@, m.supplemental_codecs, "VIDEO"@);
    lemma_lookup_push_unquoted_opt(l5, "RESOLUTION"@, opt_resolution_text(m.resolution), "VIDEO"@);
    lemma_lookup_push_unquoted_opt(l6, "HDCP-LEVEL"@, opt_encode(m.hdcp_level), "VIDEO"@);
    lemma_lookup_push_quoted_opt(l7, "ALLOWED-CPC"@, m.allowed_cpc, "VIDEO"@);
    lemma_lookup_push_unquoted_opt(l8, "VIDEO-RANGE"@, opt_encode(m.video_range), "VIDEO"@);
    lemma_lookup_push_quoted_opt(l9, "REQ-VIDEO-LAYOUT"@, m.req_video_layout, "VIDEO"@);
    lemma_lookup_push_quoted_opt(l10, "STABLE-VARIANT-ID"@, m.stable_variant_id, "VIDEO"@);
    lemma_lookup_push_quoted_opt(l11, "VIDEO"@, m.video, "VIDEO"@);
    lemma_lookup_push_quoted_opt(l12, "PATHWAY-ID"@, m.pathway_id, "VIDEO"@);
    lemma_lookup_push(Seq::empty(), ("URI"@, AttributeValueView::Quoted(m.uri)), "PATHWAY-ID"@);
    lemma_lookup_push(l0, ("BANDWIDTH"@, AttributeValueView::Unquoted(dec(m.bandwidth as nat))), "PATHWAY-ID"@);
    lemma_lookup_push_integer_opt(l1, "AVERAGE-BANDWIDTH"@, m.average_bandwidth, "PATHWAY-ID"@);
    lemma_lookup_push_unquoted_opt(l2, "SCORE"@, opt_encode(m.score), "PATHWAY-ID"@);
    lemma_lookup_push_quoted_opt(l3, "CODECS"@, m.codecs, "PATHWAY-ID"@);
    lemma_lookup_push_quoted_opt(l4, "SUPPLEMENTAL-CODECS"@, m.supplemental_codecs, "PATHWAY-ID"@);
    lemma_lookup_push_unquoted_opt(l5, "RESOLUTION"@, opt_resolution_text(m.resolution), "PATHWAY-ID"@);
    lemma_lookup_push_unquoted_opt(l6, "HDCP-LEVEL"@, opt_encode(m.hdcp_level), "PATHWAY-ID"@);
    lemma_lookup_push_quoted_opt(l7, "ALLOWED-CPC"@, m.allowed_cpc, "PATHWAY-ID"@);
    lemma_lookup_push_unquoted_opt(l8, "VIDEO-RANGE"@, opt_encode(m.video_range), "PATHWAY-ID"@);
    lemma_lookup_push_quoted_opt(l9, "REQ-VIDEO-LAYOUT"@, m.req_video_layout, "PATHWAY-ID"@);
    lemma_lookup_push_quoted_opt(l10, "STABLE-VARIANT-ID"@, m.stable_variant_id, "PATHWAY-ID"@);
    lemma_lookup_push_quoted_opt(l11, "VIDEO"@, m.video, "PATHWAY-ID"@);
    lemma_lookup_push_quoted_opt(l12, "PATHWAY-ID"@, m.pathway_id, "PATHWAY-ID"@);
    assert(Seq::<(Seq<char>, AttributeValueView)>::empty().push(("URI"@, AttributeValueView::Quoted(m.uri))) =~= l0);
    assert(quoted_attr(l13, "VIDEO"@) == m.video);
    assert(quoted_attr(l13, "PATHWAY-ID"@) == m.pathway_id);
}

proof fn lemma_i_frame_stream_inf_lookup(m: IFrameStreamInfAttributes)
    ensures
        i_frame_stream_inf_spec(i_frame_stream_inf_entries(m)) == Ok::<IFrameStreamInfAttributes, ValidationError>(m),
{
    lemma_i_frame_stream_inf_lookup_0(m);
    lemma_i_frame_stream_inf_lookup_1(m);
    lemma_i_frame_stream_inf_lookup_2(m);
    lemma_i_frame_stream_inf_lookup_3(m);
    lemma_i_frame_stream_inf_lookup_4(m);
}

/// Writing and then reading an I-frame stream tag gives it back: its line reads as its name with
/// its attributes as the value, and that value reads as the attributes, when no quoted value holds
/// a `"` or a line feed and no unquoted text value is empty, starts with `"`, or holds a `,` or a
/// line feed.
pub proof fn lemma_i_frame_stream_inf_reads_back(m: IFrameStreamInfAttributes)
    requires
        quoted_value_ok(m.uri),
        m.score matches Some(v) ==> unquoted_value_ok(encode_utf8(v)),
        m.codecs matches Some(v) ==> quoted_value_ok(v),
        m.supplemental_codecs matches Some(v) ==> quoted_value_ok(v),
        m.hdcp_level matches Some(v) ==> unquoted_value_ok(encode_utf8(v)),
        m.allowed_cpc matches Some(v) ==> quoted_value_ok(v),
        m.video_range matches Some(v) ==> unquoted_value_ok(encode_utf8(v)),
        m.req_video_layout matches Some(v) ==> quoted_value_ok(v),
        m.stable_variant_id matches Some(v) ==> quoted_value_ok(v),
        m.video matches Some(v) ==> quoted_value_ok(v),
        m.pathway_id matches Some(v) ==> quoted_value_ok(v),
    ensures
        i_frame_stream_inf_line(m) == line_start(TagName::IFrameStreamInf) + seq![58u8] + attribute_list_text(
            i_frame_stream_inf_entries(m),
        ),
        unknown::starts_with_ext(i_frame_stream_inf_line(m)),
        unknown::tag_after_ext_spec(i_frame_stream_inf_line(m).subrange(4, i_frame_stream_inf_line(m).len() as int))
            == Ok::<(Seq<u8>, Option<Seq<u8>>, Option<Seq<u8>>), UnknownTagSyntaxError>((
            encode_utf8(tag_name_text(TagName::IFrameStreamInf)),
            Some(attribute_list_text(i_frame_stream_inf_entries(m))),
            None,
        )),
        i_frame_stream_inf_value_spec(Some(attribute_list_text(i_frame_stream_inf_entries(m)))) == Ok::<
            IFrameStreamInfAttributes,
            ValidationError,
        >(m),
{
    let l = i_frame_stream_inf_entries(m);
    let text = attribute_list_text(l);
    lemma_i_frame_stream_inf_line_text(m);
    let rest = seq![58u8] + text;
    lemma_line_after_ext(TagName::IFrameStreamInf, rest);
    assert(i_frame_stream_inf_line(m) =~= line_start(TagName::IFrameStreamInf) + rest);
    assert(encode_utf8(tag_name_text(TagName::IFrameStreamInf)) + rest =~= encode_utf8(
        tag_name_text(TagName::IFrameStreamInf),
    ) + seq![58u8] + text);
    lemma_tag_name_plain(TagName::IFrameStreamInf);
    lemma_i_frame_stream_inf_ok_0(m);
    lemma_i_frame_stream_inf_ok_1(m);
    lemma_i_frame_stream_inf_ok_2(m);
    lemma_attribute_list_text_free_of_line_feed(l);
    unknown::lemma_read_written_tag(encode_utf8(tag_name_text(TagName::IFrameStreamInf)), text);
    lemma_attribute_list_reads_back(l);
    lemma_attribute_list_text_kind(l);
    lemma_i_frame_stream_inf_lookup(m);
}

} // verus!
