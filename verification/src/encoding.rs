//! Payload encoding identifiers.
//!
//! The boundary names a closed set of common payload encodings by small
//! numbers; on the wire the engine names encodings by text. The mapping
//! between the two is total in both directions: every identifier has a
//! canonical text, and every text maps to an identifier, with unrecognized
//! texts falling back to the generic octet-stream identifier rather than
//! failing.

use crate::text::str_eq;
use vstd::prelude::*;

verus! {

/// A payload encoding the boundary can name.
#[derive(Clone, Copy, PartialEq, Eq, Structural, Debug)]
pub enum ZenohEncodingId {
    Empty,
    AppOctetStream,
    TextPlain,
    AppJson,
    TextJson,
    AppCbor,
    AppYaml,
    TextYaml,
    TextXml,
    AppXml,
    TextCsv,
    AppProtobuf,
    TextHtml,
}

impl ZenohEncodingId {
    /// The numeric value of this identifier in the foreign interface.
    pub open spec fn spec_code(self) -> u32 {
        match self {
            ZenohEncodingId::Empty => 0,
            ZenohEncodingId::AppOctetStream => 1,
            ZenohEncodingId::TextPlain => 2,
            ZenohEncodingId::AppJson => 3,
            ZenohEncodingId::TextJson => 4,
            ZenohEncodingId::AppCbor => 5,
            ZenohEncodingId::AppYaml => 6,
            ZenohEncodingId::TextYaml => 7,
            ZenohEncodingId::TextXml => 8,
            ZenohEncodingId::AppXml => 9,
            ZenohEncodingId::TextCsv => 10,
            ZenohEncodingId::AppProtobuf => 11,
            ZenohEncodingId::TextHtml => 12,
        }
    }

    /// The numeric value of this identifier in the foreign interface.
    pub fn code(self) -> (c: u32)
        ensures
            c == self.spec_code(),
    {
        match self {
            ZenohEncodingId::Empty => 0,
            ZenohEncodingId::AppOctetStream => 1,
            ZenohEncodingId::TextPlain => 2,
            ZenohEncodingId::AppJson => 3,
            ZenohEncodingId::TextJson => 4,
            ZenohEncodingId::AppCbor => 5,
            ZenohEncodingId::AppYaml => 6,
            ZenohEncodingId::TextYaml => 7,
            ZenohEncodingId::TextXml => 8,
            ZenohEncodingId::AppXml => 9,
            ZenohEncodingId::TextCsv => 10,
            ZenohEncodingId::AppProtobuf => 11,
            ZenohEncodingId::TextHtml => 12,
        }
    }

    /// The identifier with the given numeric value, if any.
    pub fn from_code(c: u32) -> (r: Option<ZenohEncodingId>)
        ensures
            r matches Some(id) ==> id.spec_code() == c,
            r is None <==> c > 12,
    {
        match c {
            0 => Some(ZenohEncodingId::Empty),
            1 => Some(ZenohEncodingId::AppOctetStream),
            2 => Some(ZenohEncodingId::TextPlain),
            3 => Some(ZenohEncodingId::AppJson),
            4 => Some(ZenohEncodingId::TextJson),
            5 => Some(ZenohEncodingId::AppCbor),
            6 => Some(ZenohEncodingId::AppYaml),
            7 => Some(ZenohEncodingId::TextYaml),
            8 => Some(ZenohEncodingId::TextXml),
            9 => Some(ZenohEncodingId::AppXml),
            10 => Some(ZenohEncodingId::TextCsv),
            11 => Some(ZenohEncodingId::AppProtobuf),
            12 => Some(ZenohEncodingId::TextHtml),
            _ => None,
        }
    }
}

/// The canonical text of each encoding identifier.
pub open spec fn spec_encoding_text(id: ZenohEncodingId) -> Seq<char> {
    match id {
        ZenohEncodingId::Empty => ""@,
        ZenohEncodingId::AppOctetStream => "application/octet-stream"@,
        ZenohEncodingId::TextPlain => "text/plain"@,
        ZenohEncodingId::AppJson => "application/json"@,
        ZenohEncodingId::TextJson => "text/json"@,
        ZenohEncodingId::AppCbor => "application/cbor"@,
        ZenohEncodingId::AppYaml => "application/yaml"@,
        ZenohEncodingId::TextYaml => "text/yaml"@,
        ZenohEncodingId::TextXml => "text/xml"@,
        ZenohEncodingId::AppXml => "application/xml"@,
        ZenohEncodingId::TextCsv => "text/csv"@,
        ZenohEncodingId::AppProtobuf => "application/protobuf"@,
        ZenohEncodingId::TextHtml => "text/html"@,
    }
}

/// The identifier a wire-side encoding text maps to: the matching identifier
/// for a recognized text, and the generic octet-stream identifier for any
/// other nonempty text.
pub open spec fn spec_encoding_id_of_text(t: Seq<char>) -> ZenohEncodingId {
    if t == "application/octet-stream"@ {
        ZenohEncodingId::AppOctetStream
    } else if t == "text/plain"@ {
        ZenohEncodingId::TextPlain
    } else if t == "application/json"@ {
        ZenohEncodingId::AppJson
    } else if t == "text/json"@ {
        ZenohEncodingId::TextJson
    } else if t == "application/cbor"@ {
        ZenohEncodingId::AppCbor
    } else if t == "application/yaml"@ {
        ZenohEncodingId::AppYaml
    } else if t == "text/yaml"@ {
        ZenohEncodingId::TextYaml
    } else if t == "text/xml"@ {
        ZenohEncodingId::TextXml
    } else if t == "application/xml"@ {
        ZenohEncodingId::AppXml
    } else if t == "text/csv"@ {
        ZenohEncodingId::TextCsv
    } else if t == "application/protobuf"@ {
        ZenohEncodingId::AppProtobuf
    } else if t == "text/html"@ {
        ZenohEncodingId::TextHtml
    } else if t.len() == 0 {
        ZenohEncodingId::Empty
    } else {
        ZenohEncodingId::AppOctetStream
    }
}

/// Whether a text is one of the canonical encoding texts (the empty text
/// included).
pub open spec fn known_encoding_text(t: Seq<char>) -> bool {
    exists|id: ZenohEncodingId| spec_encoding_text(id) == t
}

/// The identifier a wire-side encoding text maps to.
pub fn encoding_to_id(text: &str) -> (id: ZenohEncodingId)
    ensures
        id == spec_encoding_id_of_text(text@),
{
    if str_eq(text, "application/octet-stream") {
        ZenohEncodingId::AppOctetStream
    } else if str_eq(text, "text/plain") {
        ZenohEncodingId::TextPlain
    } else if str_eq(text, "application/json") {
        ZenohEncodingId::AppJson
    } else if str_eq(text, "text/json") {
        ZenohEncodingId::TextJson
    } else if str_eq(text, "application/cbor") {
        ZenohEncodingId::AppCbor
    } else if str_eq(text, "application/yaml") {
        ZenohEncodingId::AppYaml
    } else if str_eq(text, "text/yaml") {
        ZenohEncodingId::TextYaml
    } else if str_eq(text, "text/xml") {
        ZenohEncodingId::TextXml
    } else if str_eq(text, "application/xml") {
        ZenohEncodingId::AppXml
    } else if str_eq(text, "text/csv") {
        ZenohEncodingId::TextCsv
    } else if str_eq(text, "application/protobuf") {
        ZenohEncodingId::AppProtobuf
    } else if str_eq(text, "text/html") {
        ZenohEncodingId::TextHtml
    } else if text.is_empty() {
        ZenohEncodingId::Empty
    } else {
        ZenohEncodingId::AppOctetStream
    }
}

/// The canonical text of an encoding identifier.
pub fn id_to_encoding(id: ZenohEncodingId) -> (t: &'static str)
    ensures
        t@ == spec_encoding_text(id),
{
    match id {
        ZenohEncodingId::Empty => "",
        ZenohEncodingId::AppOctetStream => "application/octet-stream",
        ZenohEncodingId::TextPlain => "text/plain",
        ZenohEncodingId::AppJson => "application/json",
        ZenohEncodingId::TextJson => "text/json",
        ZenohEncodingId::AppCbor => "application/cbor",
        ZenohEncodingId::AppYaml => "application/yaml",
        ZenohEncodingId::TextYaml => "text/yaml",
        ZenohEncodingId::TextXml => "text/xml",
        ZenohEncodingId::AppXml => "application/xml",
        ZenohEncodingId::TextCsv => "text/csv",
        ZenohEncodingId::AppProtobuf => "application/protobuf",
        ZenohEncodingId::TextHtml => "text/html",
    }
}

/// Lengths of the canonical encoding texts, and one distinguishing
/// character for each group of texts that share a length.
proof fn lemma_canonical_text_facts()
    ensures
        ""@.len() == 0,
        "application/octet-stream"@.len() == 24,
        "text/plain"@.len() == 10,
        "application/json"@.len() == 16,
        "text/json"@.len() == 9,
        "application/cbor"@.len() == 16,
        "application/yaml"@.len() == 16,
        "text/yaml"@.len() == 9,
        "text/xml"@.len() == 8,
        "application/xml"@.len() == 15,
        "text/csv"@.len() == 8,
        "application/protobuf"@.len() == 20,
        "text/html"@.len() == 9,
        "application/json"@[12] == 'j',
        "application/cbor"@[12] == 'c',
        "application/yaml"@[12] == 'y',
        "text/json"@[5] == 'j',
        "text/yaml"@[5] == 'y',
        "text/html"@[5] == 'h',
        "text/xml"@[5] == 'x',
        "text/csv"@[5] == 'c',
{
    reveal_strlit("");
    reveal_strlit("application/octet-stream");
    reveal_strlit("text/plain");
    reveal_strlit("application/json");
    reveal_strlit("text/json");
    reveal_strlit("application/cbor");
    reveal_strlit("application/yaml");
    reveal_strlit("text/yaml");
    reveal_strlit("text/xml");
    reveal_strlit("application/xml");
    reveal_strlit("text/csv");
    reveal_strlit("application/protobuf");
    reveal_strlit("text/html");
}

/// Every encoding identifier round-trips through its canonical text: mapping
/// the text back yields the same identifier, the generic fallback included.
pub proof fn lemma_encoding_round_trip(id: ZenohEncodingId)
    ensures
        spec_encoding_id_of_text(spec_encoding_text(id)) == id,
{
    lemma_canonical_text_facts();
    match id {
        ZenohEncodingId::Empty => {
            assert(spec_encoding_id_of_text(""@) == ZenohEncodingId::Empty);
        },
        ZenohEncodingId::AppOctetStream => {
            assert(spec_encoding_id_of_text("application/octet-stream"@)
                == ZenohEncodingId::AppOctetStream);
        },
        ZenohEncodingId::TextPlain => {
            assert(spec_encoding_id_of_text("text/plain"@) == ZenohEncodingId::TextPlain);
        },
        ZenohEncodingId::AppJson => {
            assert(spec_encoding_id_of_text("application/json"@) == ZenohEncodingId::AppJson);
        },
        ZenohEncodingId::TextJson => {
            assert(spec_encoding_id_of_text("text/json"@) == ZenohEncodingId::TextJson);
        },
        ZenohEncodingId::AppCbor => {
            assert(spec_encoding_id_of_text("application/cbor"@) == ZenohEncodingId::AppCbor);
        },
        ZenohEncodingId::AppYaml => {
            assert(spec_encoding_id_of_text("application/yaml"@) == ZenohEncodingId::AppYaml);
        },
        ZenohEncodingId::TextYaml => {
            assert(spec_encoding_id_of_text("text/yaml"@) == ZenohEncodingId::TextYaml);
        },
        ZenohEncodingId::TextXml => {
            assert(spec_encoding_id_of_text("text/xml"@) == ZenohEncodingId::TextXml);
        },
        ZenohEncodingId::AppXml => {
            assert(spec_encoding_id_of_text("application/xml"@) == ZenohEncodingId::AppXml);
        },
        ZenohEncodingId::TextCsv => {
            assert(spec_encoding_id_of_text("text/csv"@) == ZenohEncodingId::TextCsv);
        },
        ZenohEncodingId::AppProtobuf => {
            assert(spec_encoding_id_of_text("application/protobuf"@)
                == ZenohEncodingId::AppProtobuf);
        },
        ZenohEncodingId::TextHtml => {
            assert(spec_encoding_id_of_text("text/html"@) == ZenohEncodingId::TextHtml);
        },
    }
}

/// An unrecognized nonempty encoding text maps to the generic octet-stream
/// fallback, never to a failure, and the fallback's own text maps to itself.
pub proof fn lemma_unknown_text_maps_to_fallback(t: Seq<char>)
    requires
        !known_encoding_text(t),
    ensures
        spec_encoding_id_of_text(t) == ZenohEncodingId::AppOctetStream,
        spec_encoding_id_of_text(spec_encoding_text(ZenohEncodingId::AppOctetStream))
            == ZenohEncodingId::AppOctetStream,
{
    if t == "application/octet-stream"@ {
        assert(spec_encoding_text(ZenohEncodingId::AppOctetStream) == t);
    }
    if t == "text/plain"@ {
        assert(spec_encoding_text(ZenohEncodingId::TextPlain) == t);
    }
    if t == "application/json"@ {
        assert(spec_encoding_text(ZenohEncodingId::AppJson) == t);
    }
    if t == "text/json"@ {
        assert(spec_encoding_text(ZenohEncodingId::TextJson) == t);
    }
    if t == "application/cbor"@ {
        assert(spec_encoding_text(ZenohEncodingId::AppCbor) == t);
    }
    if t == "application/yaml"@ {
        assert(spec_encoding_text(ZenohEncodingId::AppYaml) == t);
    }
    if t == "text/yaml"@ {
        assert(spec_encoding_text(ZenohEncodingId::TextYaml) == t);
    }
    if t == "text/xml"@ {
        assert(spec_encoding_text(ZenohEncodingId::TextXml) == t);
    }
    if t == "application/xml"@ {
        assert(spec_encoding_text(ZenohEncodingId::AppXml) == t);
    }
    if t == "text/csv"@ {
        assert(spec_encoding_text(ZenohEncodingId::TextCsv) == t);
    }
    if t == "application/protobuf"@ {
        assert(spec_encoding_text(ZenohEncodingId::AppProtobuf) == t);
    }
    if t == "text/html"@ {
        assert(spec_encoding_text(ZenohEncodingId::TextHtml) == t);
    }
    if t.len() == 0 {
        reveal_strlit("");
        assert(t =~= ""@);
        assert(spec_encoding_text(ZenohEncodingId::Empty) == t);
    }
    lemma_encoding_round_trip(ZenohEncodingId::AppOctetStream);
}

} // verus!
