//! The stylesheet model: at most one stylesheet exists; a served or
//! broadcast style always carries the canonical path, never the content.

use vstd::prelude::*;

use crate::json::Json;
use crate::json::JsonV;
use crate::json::obj_model;
use crate::plugin::opt_str;
use crate::plugin::spec_opt_text_field;

verus! {

/// A stylesheet reference: a remote URL, an inline body, or — as served —
/// the canonical path.
pub struct Style {
    pub url: Option<String>,
    pub inline: Option<String>,
}

/// Ghost mirror of [`Style`].
#[verifier::ext_equal]
pub struct StyleV {
    pub url: Option<Seq<char>>,
    pub inline: Option<Seq<char>>,
}

impl View for Style {
    type V = StyleV;

    open spec fn view(&self) -> StyleV {
        StyleV { url: opt_str(self.url), inline: opt_str(self.inline) }
    }
}

/// The canonical served path of the stylesheet.
pub open spec fn spec_style_path() -> Seq<char> {
    "/custom/style.css"@
}

/// What a JSON value means as a [`Style`]: an object whose `url` and
/// `inline` fields, when present, are strings or null.
pub open spec fn spec_parse_style(j: JsonV) -> Option<StyleV> {
    if !(j matches JsonV::Obj(_)) {
        None
    } else {
        match (spec_opt_text_field(j, "url"@), spec_opt_text_field(j, "inline"@)) {
            (Some(u), Some(i)) => Some(StyleV { url: u, inline: i }),
            _ => None,
        }
    }
}

/// The JSON form of a style: absent fields are left out entirely.
pub open spec fn spec_style_json(s: StyleV) -> JsonV {
    JsonV::Obj(
        (match s.url {
            Some(u) => seq![("url"@, JsonV::Text(u))],
            None => Seq::empty(),
        }) + (match s.inline {
            Some(i) => seq![("inline"@, JsonV::Text(i))],
            None => Seq::empty(),
        }),
    )
}

impl Style {
    /// Reads a style out of a JSON value.
    pub fn of_json(j: &Json) -> (r: Option<Style>)
        ensures
            match r {
                Some(s) => spec_parse_style(j@) == Some(s@),
                None => spec_parse_style(j@) is None,
            },
    {
        match j {
            Json::Obj(_) => {},
            _ => {
                return None;
            },
        }
        let url = match crate::plugin::opt_text_field(j, "url") {
            Ok(u) => u,
            Err(_) => {
                return None;
            },
        };
        let inline = match crate::plugin::opt_text_field(j, "inline") {
            Ok(i) => i,
            Err(_) => {
                return None;
            },
        };
        Some(Style { url, inline })
    }

    /// Writes this style as a JSON value.
    pub fn to_json(&self) -> (r: Json)
        ensures
            r@ == spec_style_json(self@),
    {
        let mut entries: Vec<(String, Json)> = Vec::new();
        match &self.url {
            Some(u) => entries.push(("url".to_owned(), Json::Text(u.clone()))),
            None => {},
        }
        match &self.inline {
            Some(i) => entries.push(("inline".to_owned(), Json::Text(i.clone()))),
            None => {},
        }
        let r = Json::Obj(entries);
        proof {
            assert(r@ == JsonV::Obj(obj_model(entries@)));
            assert(r@->Obj_0 =~= spec_style_json(self@)->Obj_0);
        }
        r
    }

    /// The style as served once a stylesheet exists: the canonical path and
    /// nothing else.
    pub fn canonical() -> (r: Style)
        ensures
            r@ == (StyleV { url: Some(spec_style_path()), inline: None }),
    {
        Style { url: Some("/custom/style.css".to_owned()), inline: None }
    }

    /// The style as served while no stylesheet exists.
    pub fn empty() -> (r: Style)
        ensures
            r@ == (StyleV { url: None, inline: None }),
    {
        Style { url: None, inline: None }
    }
}

} // verus!
