//! The inline-image escape-sequence builder.
//!
//! A builder accumulates the named fields and the raw payload of one
//! inline-image request and serializes them into the single escape
//! sequence that a compatible terminal parses: `ESC ]1337;File=`,
//! the present fields in a fixed order, a `:`, the base64-encoded
//! payload, and a terminating `BEL`.

use vstd::prelude::*;
use vstd::string::StrSliceExecFns;
use vstd::string::StringSliceAdditionalSpecFns;
use vstd::utf8::encode_utf8;
use crate::encoding::b64_encode;
use crate::encoding::b64_encode_bytes;
use crate::encoding::decimal_digits;
use crate::encoding::push_decimal;

verus! {

/// The field values of one inline-image request: what the builder
/// holds, as mathematical values.
pub ghost struct ImageDescriptor {
    /// Display filename; empty means omitted.
    pub name: Seq<char>,
    /// Declared payload size in bytes; zero means omitted.
    pub size: nat,
    /// Width specifier, passed through verbatim; empty means omitted.
    pub width: Seq<char>,
    /// Height specifier, passed through verbatim; empty means omitted.
    pub height: Seq<char>,
    /// Whether the terminal should keep the image's aspect ratio.
    pub preserve_aspect_ratio: bool,
    /// Whether to render in place rather than offer a download.
    pub inline: bool,
    /// The raw image bytes.
    pub data: Seq<u8>,
}

/// The descriptor a fresh builder holds: everything empty or zero,
/// aspect ratio preserved, not inline.
pub open spec fn default_descriptor() -> ImageDescriptor {
    ImageDescriptor {
        name: Seq::empty(),
        size: 0,
        width: Seq::empty(),
        height: Seq::empty(),
        preserve_aspect_ratio: true,
        inline: false,
        data: Seq::empty(),
    }
}

/// The fixed sequence header: `ESC` then `]1337;File=`.
pub open spec fn header_bytes() -> Seq<u8> {
    seq![27u8, 93u8, 49u8, 51u8, 51u8, 55u8, 59u8, 70u8, 105u8, 108u8, 101u8, 61u8]
}

/// The `name=<base64 of the name's UTF-8 bytes>;` segment, empty when
/// the name is omitted.
pub open spec fn name_segment(name: Seq<char>) -> Seq<u8> {
    if name.len() == 0 {
        Seq::empty()
    } else {
        seq![110u8, 97u8, 109u8, 101u8, 61u8] + b64_encode(encode_utf8(name)) + seq![59u8]
    }
}

/// The `size=<decimal>;` segment, empty when the size is omitted.
pub open spec fn size_segment(size: nat) -> Seq<u8> {
    if size == 0 {
        Seq::empty()
    } else {
        seq![115u8, 105u8, 122u8, 101u8, 61u8] + decimal_digits(size) + seq![59u8]
    }
}

/// The `width=<verbatim>;` segment, empty when the width is omitted.
pub open spec fn width_segment(width: Seq<char>) -> Seq<u8> {
    if width.len() == 0 {
        Seq::empty()
    } else {
        seq![119u8, 105u8, 100u8, 116u8, 104u8, 61u8] + encode_utf8(width) + seq![59u8]
    }
}

/// The `height=<verbatim>;` segment, empty when the height is omitted.
pub open spec fn height_segment(height: Seq<char>) -> Seq<u8> {
    if height.len() == 0 {
        Seq::empty()
    } else {
        seq![104u8, 101u8, 105u8, 103u8, 104u8, 116u8, 61u8] + encode_utf8(height) + seq![59u8]
    }
}

/// The `preserveAspectRatio=<0|1>;` segment, always present.
pub open spec fn aspect_segment(preserve_aspect_ratio: bool) -> Seq<u8> {
    seq![
        112u8, 114u8, 101u8, 115u8, 101u8, 114u8, 118u8, 101u8, 65u8, 115u8, 112u8,
        101u8, 99u8, 116u8, 82u8, 97u8, 116u8, 105u8, 111u8, 61u8,
        if preserve_aspect_ratio { 49u8 } else { 48u8 },
        59u8,
    ]
}

/// The `inline=<0|1>;` segment, always present.
pub open spec fn inline_segment(inline: bool) -> Seq<u8> {
    seq![
        105u8, 110u8, 108u8, 105u8, 110u8, 101u8, 61u8,
        if inline { 49u8 } else { 48u8 },
        59u8,
    ]
}

/// The closing segment: `:`, the base64 of the payload, and `BEL`.
pub open spec fn payload_segment(data: Seq<u8>) -> Seq<u8> {
    seq![58u8] + b64_encode(data) + seq![7u8]
}

/// The serialized escape sequence for descriptor `d`: the header,
/// then each present field in the fixed order name, size, width,
/// height, aspect ratio, inline, then the payload.
pub open spec fn spec_render(d: ImageDescriptor) -> Seq<u8> {
    header_bytes() + name_segment(d.name) + size_segment(d.size) + width_segment(d.width)
        + height_segment(d.height) + aspect_segment(d.preserve_aspect_ratio)
        + inline_segment(d.inline) + payload_segment(d.data)
}

/// Accumulates the fields of one inline-image request and serializes
/// them into the escape sequence.
pub struct InlineImageBuilder {
    name: String,
    size: usize,
    width: String,
    height: String,
    preserve_aspect_ratio: bool,
    inline: bool,
    data: Vec<u8>,
}

impl View for InlineImageBuilder {
    type V = ImageDescriptor;

    closed spec fn view(&self) -> ImageDescriptor {
        ImageDescriptor {
            name: self.name@,
            size: self.size as nat,
            width: self.width@,
            height: self.height@,
            preserve_aspect_ratio: self.preserve_aspect_ratio,
            inline: self.inline,
            data: self.data@,
        }
    }
}

impl InlineImageBuilder {
    /// A fresh builder: aspect ratio preserved, every other field at
    /// its empty, zero or false default.
    pub fn new() -> (r: Self)
        ensures
            r@ == default_descriptor(),
    {
        let r = InlineImageBuilder {
            name: String::new(),
            size: 0,
            width: String::new(),
            height: String::new(),
            preserve_aspect_ratio: true,
            inline: false,
            data: Vec::new(),
        };
        assert(r@ == default_descriptor());
        r
    }

    /// Sets the display filename; the empty string means omitted.
    pub fn set_name(&mut self, v: String)
        ensures
            final(self)@ == (ImageDescriptor { name: v@, ..old(self)@ }),
    {
        self.name = v;
    }

    /// Sets the declared payload size; zero means omitted.
    pub fn set_size(&mut self, v: usize)
        ensures
            final(self)@ == (ImageDescriptor { size: v as nat, ..old(self)@ }),
    {
        self.size = v;
    }

    /// Sets the width specifier; the empty string means omitted.
    pub fn set_width(&mut self, v: String)
        ensures
            final(self)@ == (ImageDescriptor { width: v@, ..old(self)@ }),
    {
        self.width = v;
    }

    /// Sets the height specifier; the empty string means omitted.
    pub fn set_height(&mut self, v: String)
        ensures
            final(self)@ == (ImageDescriptor { height: v@, ..old(self)@ }),
    {
        self.height = v;
    }

    /// Sets whether the terminal should keep the aspect ratio.
    pub fn set_preserve_aspect_ratio(&mut self, v: bool)
        ensures
            final(self)@ == (ImageDescriptor { preserve_aspect_ratio: v, ..old(self)@ }),
    {
        self.preserve_aspect_ratio = v;
    }

    /// Sets whether the image renders in place.
    pub fn set_inline(&mut self, v: bool)
        ensures
            final(self)@ == (ImageDescriptor { inline: v, ..old(self)@ }),
    {
        self.inline = v;
    }

    /// Sets the raw image bytes.
    pub fn set_data(&mut self, v: Vec<u8>)
        ensures
            final(self)@ == (ImageDescriptor { data: v@, ..old(self)@ }),
    {
        self.data = v;
    }

    /// Serializes the builder's current state into the escape
    /// sequence. Reads the builder only, so repeating the call on an
    /// unchanged builder returns the same bytes.
    pub fn serialize(&self) -> (r: Vec<u8>)
        ensures
            r@ == spec_render(self@),
    {
        let mut out: Vec<u8> = Vec::new();
        push_header(&mut out);
        push_name_segment(&self.name, &mut out);
        push_size_segment(self.size, &mut out);
        push_width_segment(&self.width, &mut out);
        push_height_segment(&self.height, &mut out);
        push_aspect_segment(self.preserve_aspect_ratio, &mut out);
        push_inline_segment(self.inline, &mut out);
        push_payload_segment(&self.data, &mut out);
        assert(out@ =~= spec_render(self@));
        out
    }
}

/// Omitted fields contribute no bytes to the serialized sequence and
/// present fields contribute a non-empty segment; the sequence is the
/// header and the segments in the fixed field order, with the two
/// boolean fields always present.
pub proof fn lemma_field_omission(d: ImageDescriptor)
    ensures
        d.name.len() == 0 <==> name_segment(d.name).len() == 0,
        d.size == 0 <==> size_segment(d.size).len() == 0,
        d.width.len() == 0 <==> width_segment(d.width).len() == 0,
        d.height.len() == 0 <==> height_segment(d.height).len() == 0,
        aspect_segment(d.preserve_aspect_ratio).len() > 0,
        inline_segment(d.inline).len() > 0,
        payload_segment(d.data).len() > 0,
        spec_render(d) == header_bytes() + name_segment(d.name) + size_segment(d.size)
            + width_segment(d.width) + height_segment(d.height)
            + aspect_segment(d.preserve_aspect_ratio) + inline_segment(d.inline)
            + payload_segment(d.data),
{
}

/// Round trip: decoding the base64 fields of the serialized output —
/// the `name=` segment's value and the trailing payload — recovers
/// exactly the bytes that were supplied: the name's UTF-8 bytes and
/// the raw payload.
pub proof fn lemma_output_round_trip(d: ImageDescriptor)
    ensures
        crate::encoding::b64_decode(b64_encode(encode_utf8(d.name))) == encode_utf8(d.name),
        crate::encoding::b64_decode(b64_encode(d.data)) == d.data,
{
    crate::encoding::lemma_b64_round_trip(encode_utf8(d.name));
    crate::encoding::lemma_b64_round_trip(d.data);
}

/// Serialization is a pure function of the builder's state: two
/// builders that hold the same descriptor serialize to byte-identical
/// output, so repeating the serialization of an unchanged builder
/// repeats its bytes.
pub proof fn lemma_serialize_deterministic(d1: ImageDescriptor, d2: ImageDescriptor)
    requires
        d1 == d2,
    ensures
        spec_render(d1) == spec_render(d2),
{
}

/// An all-default builder serializes to exactly
/// `ESC ]1337;File=preserveAspectRatio=1;inline=0;: BEL`, the base64
/// of the empty payload being empty.
pub proof fn lemma_default_render()
    ensures
        spec_render(default_descriptor()) == seq![
            27u8, 93u8, 49u8, 51u8, 51u8, 55u8, 59u8, 70u8, 105u8, 108u8, 101u8, 61u8,
            112u8, 114u8, 101u8, 115u8, 101u8, 114u8, 118u8, 101u8, 65u8, 115u8, 112u8,
            101u8, 99u8, 116u8, 82u8, 97u8, 116u8, 105u8, 111u8, 61u8, 49u8, 59u8,
            105u8, 110u8, 108u8, 105u8, 110u8, 101u8, 61u8, 48u8, 59u8,
            58u8, 7u8,
        ],
{
    assert(encode_utf8(default_descriptor().name) =~= Seq::<u8>::empty());
    assert(spec_render(default_descriptor()) =~= seq![
        27u8, 93u8, 49u8, 51u8, 51u8, 55u8, 59u8, 70u8, 105u8, 108u8, 101u8, 61u8,
        112u8, 114u8, 101u8, 115u8, 101u8, 114u8, 118u8, 101u8, 65u8, 115u8, 112u8,
        101u8, 99u8, 116u8, 82u8, 97u8, 116u8, 105u8, 111u8, 61u8, 49u8, 59u8,
        105u8, 110u8, 108u8, 105u8, 110u8, 101u8, 61u8, 48u8, 59u8,
        58u8, 7u8,
    ]);
}

fn push_header(out: &mut Vec<u8>)
    ensures
        final(out)@ == old(out)@ + header_bytes(),
{
    out.push(27u8);
    out.push(93u8);
    out.push(49u8);
    out.push(51u8);
    out.push(51u8);
    out.push(55u8);
    out.push(59u8);
    out.push(70u8);
    out.push(105u8);
    out.push(108u8);
    out.push(101u8);
    out.push(61u8);
    assert(out@ =~= old(out)@ + header_bytes());
}

fn push_name_segment(name: &String, out: &mut Vec<u8>)
    ensures
        final(out)@ == old(out)@ + name_segment(name@),
{
    if !name.as_str().is_empty() {
        out.push(110u8);
        out.push(97u8);
        out.push(109u8);
        out.push(101u8);
        out.push(61u8);
        let mut enc = b64_encode_bytes(name.as_str().as_bytes());
        out.append(&mut enc);
        out.push(59u8);
        assert(out@ =~= old(out)@ + name_segment(name@));
    } else {
        assert(out@ =~= old(out)@ + name_segment(name@));
    }
}

fn push_size_segment(size: usize, out: &mut Vec<u8>)
    ensures
        final(out)@ == old(out)@ + size_segment(size as nat),
{
    if size != 0 {
        out.push(115u8);
        out.push(105u8);
        out.push(122u8);
        out.push(101u8);
        out.push(61u8);
        push_decimal(size, out);
        out.push(59u8);
        assert(out@ =~= old(out)@ + size_segment(size as nat));
    } else {
        assert(out@ =~= old(out)@ + size_segment(size as nat));
    }
}

fn push_width_segment(width: &String, out: &mut Vec<u8>)
    ensures
        final(out)@ == old(out)@ + width_segment(width@),
{
    if !width.as_str().is_empty() {
        out.push(119u8);
        out.push(105u8);
        out.push(100u8);
        out.push(116u8);
        out.push(104u8);
        out.push(61u8);
        let mut wb = width.as_str().as_bytes_vec();
        out.append(&mut wb);
        out.push(59u8);
        assert(out@ =~= old(out)@ + width_segment(width@));
    } else {
        assert(out@ =~= old(out)@ + width_segment(width@));
    }
}

fn push_height_segment(height: &String, out: &mut Vec<u8>)
    ensures
        final(out)@ == old(out)@ + height_segment(height@),
{
    if !height.as_str().is_empty() {
        out.push(104u8);
        out.push(101u8);
        out.push(105u8);
        out.push(103u8);
        out.push(104u8);
        out.push(116u8);
        out.push(61u8);
        let mut hb = height.as_str().as_bytes_vec();
        out.append(&mut hb);
        out.push(59u8);
        assert(out@ =~= old(out)@ + height_segment(height@));
    } else {
        assert(out@ =~= old(out)@ + height_segment(height@));
    }
}

fn push_aspect_segment(preserve_aspect_ratio: bool, out: &mut Vec<u8>)
    ensures
        final(out)@ == old(out)@ + aspect_segment(preserve_aspect_ratio),
{
    out.push(112u8);
    out.push(114u8);
    out.push(101u8);
    out.push(115u8);
    out.push(101u8);
    out.push(114u8);
    out.push(118u8);
    out.push(101u8);
    out.push(65u8);
    out.push(115u8);
    out.push(112u8);
    out.push(101u8);
    out.push(99u8);
    out.push(116u8);
    out.push(82u8);
    out.push(97u8);
    out.push(116u8);
    out.push(105u8);
    out.push(111u8);
    out.push(61u8);
    if preserve_aspect_ratio {
        out.push(49u8);
    } else {
        out.push(48u8);
    }
    out.push(59u8);
    assert(out@ =~= old(out)@ + aspect_segment(preserve_aspect_ratio));
}

fn push_inline_segment(inline: bool, out: &mut Vec<u8>)
    ensures
        final(out)@ == old(out)@ + inline_segment(inline),
{
    out.push(105u8);
    out.push(110u8);
    out.push(108u8);
    out.push(105u8);
    out.push(110u8);
    out.push(101u8);
    out.push(61u8);
    if inline {
        out.push(49u8);
    } else {
        out.push(48u8);
    }
    out.push(59u8);
    assert(out@ =~= old(out)@ + inline_segment(inline));
}

fn push_payload_segment(data: &Vec<u8>, out: &mut Vec<u8>)
    ensures
        final(out)@ == old(out)@ + payload_segment(data@),
{
    out.push(58u8);
    let mut db = b64_encode_bytes(data.as_slice());
    out.append(&mut db);
    out.push(7u8);
    assert(out@ =~= old(out)@ + payload_segment(data@));
}

} // verus!
