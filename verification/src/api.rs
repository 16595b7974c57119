//! The engine's HTTP surface as the core consumes it: the endpoint paths
//! under the configured base URL, and the decoding of the model-listing
//! response into model descriptors.

use vstd::prelude::*;
use vstd::string::StringExecFns;

verus! {

/// The health / model-listing endpoint under the configured base URL.
pub fn tags_endpoint(base: &str) -> (r: String)
    ensures
        r@ == base@ + "/api/tags"@,
{
    let mut s = String::new();
    s.append(base);
    s.append("/api/tags");
    s
}

/// The streaming chat endpoint under the configured base URL.
pub fn chat_endpoint(base: &str) -> (r: String)
    ensures
        r@ == base@ + "/api/chat"@,
{
    let mut s = String::new();
    s.append(base);
    s.append("/api/chat");
    s
}

/// The streaming model-pull endpoint under the configured base URL.
pub fn pull_endpoint(base: &str) -> (r: String)
    ensures
        r@ == base@ + "/api/pull"@,
{
    let mut s = String::new();
    s.append(base);
    s.append("/api/pull");
    s
}

/// The model-deletion endpoint under the configured base URL.
pub fn delete_endpoint(base: &str) -> (r: String)
    ensures
        r@ == base@ + "/api/delete"@,
{
    let mut s = String::new();
    s.append(base);
    s.append("/api/delete");
    s
}

/// The optional detail fields of an installed model's descriptor.
#[derive(Debug)]
pub struct ModelDetails {
    pub format: Option<String>,
    pub family: Option<String>,
    pub parameter_size: Option<String>,
    pub quantization_level: Option<String>,
}

/// The mathematical value of a [`ModelDetails`].
pub struct ModelDetailsView {
    pub format: Option<Seq<char>>,
    pub family: Option<Seq<char>>,
    pub parameter_size: Option<Seq<char>>,
    pub quantization_level: Option<Seq<char>>,
}

impl View for ModelDetails {
    type V = ModelDetailsView;

    open spec fn view(&self) -> ModelDetailsView {
        ModelDetailsView {
            format: self.format.deep_view(),
            family: self.family.deep_view(),
            parameter_size: self.parameter_size.deep_view(),
            quantization_level: self.quantization_level.deep_view(),
        }
    }
}

impl DeepView for ModelDetails {
    type V = ModelDetailsView;

    open spec fn deep_view(&self) -> ModelDetailsView {
        self.view()
    }
}

/// One installed model, with absent descriptor fields defaulted.
#[derive(Debug)]
pub struct ModelInfo {
    pub name: String,
    pub size: u64,
    pub modified_at: String,
    pub digest: String,
    pub details: Option<ModelDetails>,
}

/// The mathematical value of a [`ModelInfo`].
pub struct ModelInfoView {
    pub name: Seq<char>,
    pub size: u64,
    pub modified_at: Seq<char>,
    pub digest: Seq<char>,
    pub details: Option<ModelDetailsView>,
}

impl View for ModelInfo {
    type V = ModelInfoView;

    open spec fn view(&self) -> ModelInfoView {
        ModelInfoView {
            name: self.name@,
            size: self.size,
            modified_at: self.modified_at@,
            digest: self.digest@,
            details: self.details.deep_view(),
        }
    }
}

impl DeepView for ModelInfo {
    type V = ModelInfoView;

    open spec fn deep_view(&self) -> ModelInfoView {
        self.view()
    }
}

/// What splitting the model-listing response yields: each entry of the
/// `models` array as its own JSON document, an empty sequence when the
/// array is absent or null, or nothing when the body is not such a
/// document. The result depends on the body's characters alone.
pub uninterp spec fn tags_entries(body: Seq<char>) -> Option<Seq<Seq<char>>>;

/// What reading one model entry's plain descriptor fields yields: name,
/// size, modification time and digest, each absent when the entry does
/// not carry it. The result depends on the entry's characters alone.
pub uninterp spec fn model_fields(entry: Seq<char>) -> (
    Option<Seq<char>>,
    Option<u64>,
    Option<Seq<char>>,
    Option<Seq<char>>,
);

/// What reading one model entry's detail block yields, if the entry has
/// one: format, family, parameter size and quantization level, each
/// absent when the block does not carry it. The result depends on the
/// entry's characters alone.
pub uninterp spec fn details_parse(entry: Seq<char>) -> Option<
    (Option<Seq<char>>, Option<Seq<char>>, Option<Seq<char>>, Option<Seq<char>>),
>;

/// Relies on serde_json::from_str / serde_json::Value: splits the model
/// listing `{"models":[...]}` into one JSON document per entry.
#[verifier::external_body]
fn parse_tags_entries(body: &str) -> (r: Option<Vec<String>>)
    ensures
        r matches Some(v) ==> tags_entries(body@) == Some(v.deep_view()),
        r is None ==> tags_entries(body@) is None,
{
    let v: serde_json::Value = match serde_json::from_str(body) {
        Ok(v) => v,
        Err(_) => return None,
    };
    if !v.is_object() {
        return None;
    }
    match v.get("models") {
        None | Some(serde_json::Value::Null) => Some(Vec::new()),
        Some(serde_json::Value::Array(es)) => Some(es.iter().map(|e| e.to_string()).collect()),
        Some(_) => None,
    }
}

/// Relies on serde_json::from_str / serde_json::Value: reads one model
/// entry's name, size, modification time and digest, leaving absent ones
/// absent.
#[verifier::external_body]
fn parse_model_fields(entry: &str) -> (r: (Option<String>, Option<u64>, Option<String>, Option<
    String,
>))
    ensures
        (r.0.deep_view(), r.1, r.2.deep_view(), r.3.deep_view()) == model_fields(entry@),
{
    let v: serde_json::Value = serde_json::from_str(entry).unwrap_or(serde_json::Value::Null);
    (
        v.get("name").and_then(|x| x.as_str()).map(|s| s.to_string()),
        v.get("size").and_then(|x| x.as_u64()),
        v.get("modified_at").and_then(|x| x.as_str()).map(|s| s.to_string()),
        v.get("digest").and_then(|x| x.as_str()).map(|s| s.to_string()),
    )
}

/// Relies on serde_json::from_str / serde_json::Value: reads one model
/// entry's detail block, leaving absent fields absent.
#[verifier::external_body]
fn parse_model_details(entry: &str) -> (r: Option<ModelDetails>)
    ensures
        r matches Some(d) ==> details_parse(entry@) == Some(
            (
                d.format.deep_view(),
                d.family.deep_view(),
                d.parameter_size.deep_view(),
                d.quantization_level.deep_view(),
            ),
        ),
        r is None ==> details_parse(entry@) is None,
{
    let v: serde_json::Value = serde_json::from_str(entry).unwrap_or(serde_json::Value::Null);
    v.get("details").and_then(|d| d.as_object()).map(|d| ModelDetails {
        format: d.get("format").and_then(|x| x.as_str()).map(|s| s.to_string()),
        family: d.get("family").and_then(|x| x.as_str()).map(|s| s.to_string()),
        parameter_size: d.get("parameter_size").and_then(|x| x.as_str()).map(|s| s.to_string()),
        quantization_level: d.get("quantization_level").and_then(|x| x.as_str()).map(|s| s.to_string()),
    })
}

/// The descriptor one model entry stands for: absent name, timestamp and
/// digest become empty, an absent size becomes zero, the detail block
/// stays as it is.
pub open spec fn model_of_entry(entry: Seq<char>) -> ModelInfoView {
    let f = model_fields(entry);
    ModelInfoView {
        name: match f.0 {
            Some(n) => n,
            None => Seq::<char>::empty(),
        },
        size: match f.1 {
            Some(s) => s,
            None => 0u64,
        },
        modified_at: match f.2 {
            Some(m) => m,
            None => Seq::<char>::empty(),
        },
        digest: match f.3 {
            Some(d) => d,
            None => Seq::<char>::empty(),
        },
        details: match details_parse(entry) {
            Some(d) => Some(
                ModelDetailsView {
                    format: d.0,
                    family: d.1,
                    parameter_size: d.2,
                    quantization_level: d.3,
                },
            ),
            None => None,
        },
    }
}

/// The model descriptors of a listing response body: one per entry, with
/// defaults applied; nothing when the body is not a listing document.
pub open spec fn models_spec(body: Seq<char>) -> Option<Seq<ModelInfoView>> {
    match tags_entries(body) {
        Some(es) => Some(Seq::new(es.len(), |i: int| model_of_entry(es[i]))),
        None => None,
    }
}

/// Decodes the model-listing response body into the installed models'
/// descriptors, defaulting absent fields; `None` when the body does not
/// parse as a listing document.
pub fn models_from_tags(body: &str) -> (r: Option<Vec<ModelInfo>>)
    ensures
        match r {
            Some(v) => models_spec(body@) == Some(v.deep_view()),
            None => models_spec(body@) is None,
        },
{
    let entries = match parse_tags_entries(body) {
        Option::Some(es) => es,
        Option::None => {
            return None;
        },
    };
    let mut out: Vec<ModelInfo> = Vec::new();
    let ghost target = models_spec(body@).unwrap();
    for i in 0..entries.len()
        invariant
            models_spec(body@) == Some(target),
            target == Seq::new(
                entries.deep_view().len(),
                |k: int| model_of_entry(entries.deep_view()[k]),
            ),
            out.deep_view() == target.subrange(0, i as int),
    {
        let entry = entries[i].as_str();
        let fields = parse_model_fields(entry);
        let details = parse_model_details(entry);
        let info = ModelInfo {
            name: match fields.0 {
                Option::Some(n) => n,
                Option::None => String::new(),
            },
            size: match fields.1 {
                Option::Some(s) => s,
                Option::None => 0,
            },
            modified_at: match fields.2 {
                Option::Some(m) => m,
                Option::None => String::new(),
            },
            digest: match fields.3 {
                Option::Some(d) => d,
                Option::None => String::new(),
            },
            details,
        };
        let ghost pre = out.deep_view();
        proof {
            assert(entries@[i as int]@ == entries.deep_view()[i as int]);
            assert(info.deep_view() == model_of_entry(entries.deep_view()[i as int]));
            assert(info.deep_view() == target[i as int]);
        }
        out.push(info);
        proof {
            assert(out.deep_view() =~= pre.push(info.deep_view()));
            assert(out.deep_view() =~= target.subrange(0, i as int + 1));
        }
    }
    proof {
        assert(out.deep_view() =~= target.subrange(0, target.len() as int));
        assert(out.deep_view() =~= target);
    }
    Some(out)
}

} // verus!
