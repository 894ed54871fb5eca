//! Subscription sources an administrator publishes to every account.

use vstd::prelude::*;

use crate::ids::UnixSeconds;
use crate::text::{enum_word, enum_word_of, lemma_plain_word_reads_as_itself, same_text};

verus! {

/// How to read a source's endpoint. Closed set: the client has one adapter
/// per value, and a row it cannot parse is a row nothing can play.
#[derive(Debug, Clone, Copy, PartialEq, Eq, Structural)]
pub enum VodSourceFormat {
    /// MacCMS / CMS10 JSON.
    MaccmsJson,
    /// The same API rendered as XML.
    MaccmsXml,
    /// An M3U playlist: one flat list where `group-title` is the category.
    M3u,
}

impl VodSourceFormat {
    /// The stored word.
    pub open spec fn word(self) -> Seq<char> {
        match self {
            VodSourceFormat::MaccmsJson => "maccms_json"@,
            VodSourceFormat::MaccmsXml => "maccms_xml"@,
            VodSourceFormat::M3u => "m3u"@,
        }
    }

    /// The words each format is read from, its stored word among them.
    pub open spec fn from_word(word: Seq<char>) -> Option<VodSourceFormat> {
        if word == "maccms_json"@ || word == "maccms"@ || word == "json"@ {
            Some(VodSourceFormat::MaccmsJson)
        } else if word == "maccms_xml"@ || word == "xml"@ {
            Some(VodSourceFormat::MaccmsXml)
        } else if word == "m3u"@ || word == "m3u8"@ {
            Some(VodSourceFormat::M3u)
        } else {
            None
        }
    }

    pub fn as_str(self) -> (r: &'static str)
        ensures
            r@ == self.word(),
    {
        match self {
            VodSourceFormat::MaccmsJson => "maccms_json",
            VodSourceFormat::MaccmsXml => "maccms_xml",
            VodSourceFormat::M3u => "m3u",
        }
    }

    /// Reads a format from text, ignoring surrounding white space and ASCII
    /// case, with the aliases `maccms` and `json`, `xml`, and `m3u8`;
    /// "unknown vod source format: <word>" otherwise.
    pub fn parse(value: &str) -> (r: Result<VodSourceFormat, String>)
        ensures
            match Self::from_word(enum_word(value@)) {
                Some(f) => r == Ok::<VodSourceFormat, String>(f),
                None => r matches Err(m) && m@ == "unknown vod source format: "@
                    + enum_word(value@),
            },
    {
        let word = enum_word_of(value);
        let w = word.as_str();
        if same_text(w, "maccms_json") || same_text(w, "maccms") || same_text(w, "json") {
            Ok(VodSourceFormat::MaccmsJson)
        } else if same_text(w, "maccms_xml") || same_text(w, "xml") {
            Ok(VodSourceFormat::MaccmsXml)
        } else if same_text(w, "m3u") || same_text(w, "m3u8") {
            Ok(VodSourceFormat::M3u)
        } else {
            let mut m = String::from_str("unknown vod source format: ");
            m.append(w);
            Err(m)
        }
    }
}

impl std::str::FromStr for VodSourceFormat {
    type Err = String;

    fn from_str(value: &str) -> (r: Result<Self, Self::Err>)
        ensures
            match Self::from_word(enum_word(value@)) {
                Some(f) => r == Ok::<Self, String>(f),
                None => r matches Err(m) && m@ == "unknown vod source format: "@
                    + enum_word(value@),
            },
    {
        Self::parse(value)
    }
}

/// A published source. The header bag is a list of distinct names with
/// their values, sent with every catalog request.
#[derive(Debug, Clone)]
pub struct VodSource {
    pub id: i64,
    pub name: String,
    pub format: VodSourceFormat,
    pub endpoint: String,
    pub headers: Vec<(String, String)>,
    /// A disabled source stays editable and stops being served to clients.
    pub enabled: bool,
    pub sort_order: i32,
    pub created_at: UnixSeconds,
    pub updated_at: UnixSeconds,
}

/// A source about to be stored.
#[derive(Debug, Clone)]
pub struct NewVodSource {
    pub name: String,
    pub format: VodSourceFormat,
    pub endpoint: String,
    pub headers: Vec<(String, String)>,
    pub enabled: bool,
    pub sort_order: i32,
}

/// Fields an edit may change. `None` leaves the stored value alone.
#[derive(Debug, Clone)]
pub struct VodSourceUpdate {
    pub name: Option<String>,
    pub format: Option<VodSourceFormat>,
    pub endpoint: Option<String>,
    pub headers: Option<Vec<(String, String)>>,
    pub enabled: Option<bool>,
    pub sort_order: Option<i32>,
}

impl VodSourceUpdate {
    /// True when the edit carries no field.
    pub open spec fn spec_is_empty(&self) -> bool {
        &&& self.name is None
        &&& self.format is None
        &&& self.endpoint is None
        &&& self.headers is None
        &&& self.enabled is None
        &&& self.sort_order is None
    }
}

impl Default for VodSourceUpdate {
    fn default() -> (r: Self)
        ensures
            r.spec_is_empty(),
    {
        VodSourceUpdate {
            name: None,
            format: None,
            endpoint: None,
            headers: None,
            enabled: None,
            sort_order: None,
        }
    }
}


/// A stored format reads back as the format that wrote it, and each alias
/// names the format it stands for.
pub proof fn format_words_read_back(format: VodSourceFormat)
    ensures
        VodSourceFormat::from_word(enum_word(format.word())) == Some(format),
        VodSourceFormat::from_word("maccms"@) == Some(VodSourceFormat::MaccmsJson),
        VodSourceFormat::from_word("json"@) == Some(VodSourceFormat::MaccmsJson),
        VodSourceFormat::from_word("xml"@) == Some(VodSourceFormat::MaccmsXml),
        VodSourceFormat::from_word("m3u8"@) == Some(VodSourceFormat::M3u),
{
    reveal_strlit("maccms_json");
    reveal_strlit("maccms_xml");
    reveal_strlit("m3u");
    reveal_strlit("maccms");
    reveal_strlit("json");
    reveal_strlit("xml");
    reveal_strlit("m3u8");
    lemma_plain_word_reads_as_itself(format.word());
    assert("xml"@ != "maccms_json"@ && "xml"@ != "maccms"@ && "xml"@ != "json"@) by {
        assert("xml"@.len() == 3);
    }
    assert("m3u8"@ != "json"@) by {
        assert("m3u8"@[0] != "json"@[0]);
    }
    assert("m3u8"@ != "maccms_json"@ && "m3u8"@ != "maccms"@ && "m3u8"@ != "maccms_xml"@
        && "m3u8"@ != "xml"@ && "m3u8"@ != "m3u"@) by {
        assert("m3u8"@.len() == 4);
    }
}

/// A source edit is empty only when it carries no field: carrying any one
/// of them, the switch included, makes it an edit to write.
pub proof fn a_source_update_carrying_a_field_is_not_empty(update: VodSourceUpdate)
    ensures
        update.name is Some ==> !update.spec_is_empty(),
        update.format is Some ==> !update.spec_is_empty(),
        update.endpoint is Some ==> !update.spec_is_empty(),
        update.headers is Some ==> !update.spec_is_empty(),
        update.enabled is Some ==> !update.spec_is_empty(),
        update.sort_order is Some ==> !update.spec_is_empty(),
{
}

} // verus!
