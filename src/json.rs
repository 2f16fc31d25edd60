use vstd::prelude::*;
use crate::error::ColbertError;
use crate::settings::{
    unwrap_or, EncodingConfig, DEFAULT_BATCH_SIZE, DEFAULT_DOCUMENT_LENGTH, DEFAULT_QUERY_LENGTH,
};
use serde_json::Value;

verus! {

#[verifier::external_type_specification]
#[verifier::external_body]
pub struct ExValue(serde_json::Value);

/// Whether bytes hold a JSON document.
pub uninterp spec fn json_parses(b: Seq<u8>) -> bool;

/// The string member `key` of the JSON object in `b`, if there is one.
pub uninterp spec fn text_field(b: Seq<u8>, key: Seq<char>) -> Option<Seq<char>>;

/// The boolean member `key` of the JSON object in `b`, if there is one.
pub uninterp spec fn flag_field(b: Seq<u8>, key: Seq<char>) -> Option<bool>;

/// The non-negative integer member `key` of the JSON object in `b`, if there
/// is one and it fits in 64 bits.
pub uninterp spec fn u64_field(b: Seq<u8>, key: Seq<char>) -> Option<u64>;

/// The count member `key` of the JSON object in `b`: the integer member when
/// it fits in a `usize`.
pub open spec fn count_field(b: Seq<u8>, key: Seq<char>) -> Option<usize> {
    match u64_field(b, key) {
        Some(n) => if n <= usize::MAX {
            Some(n as usize)
        } else {
            None
        },
        None => None,
    }
}

/// The first entry of the array member `key` of the JSON object in `b`, if
/// there is one and it is a string.
pub uninterp spec fn first_text_field(b: Seq<u8>, key: Seq<char>) -> Option<Seq<char>>;

/// Relies on serde_json::from_slice: parses a JSON document.
#[verifier::external_body]
fn parse_json(bytes: &[u8]) -> (r: Result<Value, serde_json::Error>)
    ensures
        r is Ok <==> json_parses(bytes@),
{
    serde_json::from_slice(bytes)
}

/// Relies on serde_json::from_slice, Value::get and Value::as_str: a string
/// member of a document.
#[verifier::external_body]
fn read_text(doc: &[u8], key: &str) -> (r: Option<String>)
    ensures
        r is Some <==> text_field(doc@, key@) is Some,
        r matches Some(s) ==> text_field(doc@, key@) == Some(s@),
{
    let v: Value = serde_json::from_slice(doc).ok()?;
    v.get(key)?.as_str().map(|s| s.to_string())
}

/// Relies on serde_json::from_slice, Value::get and Value::as_bool: a boolean
/// member of a document.
#[verifier::external_body]
fn read_flag(doc: &[u8], key: &str) -> (r: Option<bool>)
    ensures
        r == flag_field(doc@, key@),
{
    let v: Value = serde_json::from_slice(doc).ok()?;
    v.get(key)?.as_bool()
}

/// Relies on serde_json::from_slice, Value::get and Value::as_u64: a
/// non-negative integer member of a document.
#[verifier::external_body]
fn read_u64(doc: &[u8], key: &str) -> (r: Option<u64>)
    ensures
        r == u64_field(doc@, key@),
{
    let v: Value = serde_json::from_slice(doc).ok()?;
    v.get(key)?.as_u64()
}

/// A count member of a document; an integer too large for a `usize` counts
/// as missing.
fn read_count(doc: &[u8], key: &str) -> (r: Option<usize>)
    ensures
        r == count_field(doc@, key@),
{
    match read_u64(doc, key) {
        Some(n) => if n <= usize::MAX as u64 {
            Some(n as usize)
        } else {
            None
        },
        None => None,
    }
}

/// Relies on serde_json::from_slice, Value::get, Value::as_array and
/// Value::as_str: the first entry of an array member of a document, when it
/// is a string.
#[verifier::external_body]
fn read_first_text(doc: &[u8], key: &str) -> (r: Option<String>)
    ensures
        r is Some <==> first_text_field(doc@, key@) is Some,
        r matches Some(s) ==> first_text_field(doc@, key@) == Some(s@),
{
    let v: Value = serde_json::from_slice(doc).ok()?;
    v.get(key)?.as_array()?.first()?.as_str().map(|s| s.to_string())
}

/// Checks that a document parses; a `Json` error when it does not.
pub fn check_json(bytes: &[u8]) -> (r: Result<(), ColbertError>)
    ensures
        r is Ok <==> json_parses(bytes@),
        r is Err ==> r->Err_0 is Json,
{
    match parse_json(bytes) {
        Ok(_) => Ok(()),
        Err(e) => Err(ColbertError::Json(e)),
    }
}

/// The text of an optional string.
pub open spec fn opt_view(o: Option<String>) -> Option<Seq<char>> {
    match o {
        Some(s) => Some(s@),
        None => None,
    }
}

/// The two supported families of base encoder.
#[derive(Debug, Clone, Copy, PartialEq, Eq, Structural)]
pub enum Architecture {
    ModernBert,
    Bert,
}

/// What picking an architecture by name gives: `ModernBertModel`, or
/// `BertForMaskedLM` / `BertModel`; a missing or other name is an operation
/// error with its message.
pub open spec fn architecture_outcome(name: Option<Seq<char>>, r: Result<Architecture, ColbertError>) -> bool {
    match name {
        None => r matches Err(ColbertError::Operation(m)) && m@
            == "Missing or invalid 'architectures' in config.json"@,
        Some(n) => if n == "ModernBertModel"@ {
            r == Ok::<Architecture, ColbertError>(Architecture::ModernBert)
        } else if n == "BertForMaskedLM"@ || n == "BertModel"@ {
            r == Ok::<Architecture, ColbertError>(Architecture::Bert)
        } else {
            r matches Err(ColbertError::Operation(m)) && m@ == "Unsupported architecture: "@ + n
        },
    }
}

/// Picks the base encoder family from the first entry of a model config's
/// `architectures` list.
pub fn select_architecture(name: Option<String>) -> (r: Result<Architecture, ColbertError>)
    ensures
        architecture_outcome(opt_view(name), r),
{
    match name {
        None => Err(ColbertError::operation("Missing or invalid 'architectures' in config.json")),
        Some(n) => {
            if n == String::from_str("ModernBertModel") {
                Ok(Architecture::ModernBert)
            } else if n == String::from_str("BertForMaskedLM") || n == String::from_str(
                "BertModel",
            ) {
                Ok(Architecture::Bert)
            } else {
                let mut msg = String::from_str("Unsupported architecture: ");
                msg.append(n.as_str());
                Err(ColbertError::Operation(msg))
            }
        },
    }
}

/// Reads the base encoder family from a model config document: a document
/// that does not parse is a `Json` error, otherwise the first entry of
/// `architectures` decides.
pub fn read_architecture(config: &[u8]) -> (r: Result<Architecture, ColbertError>)
    ensures
        !json_parses(config@) ==> (r matches Err(e) && e is Json),
        json_parses(config@) ==> architecture_outcome(
            first_text_field(config@, "architectures"@),
            r,
        ),
{
    check_json(config)?;
    let name = read_first_text(config, "architectures");
    select_architecture(name)
}

/// What the projection widths give: both present, or an operation error
/// naming the first one missing.
pub open spec fn features_outcome(
    in_features: Option<usize>,
    out_features: Option<usize>,
    r: Result<(usize, usize), ColbertError>,
) -> bool {
    match in_features {
        None => r matches Err(ColbertError::Operation(m)) && m@
            == "Missing 'in_features' in dense config"@,
        Some(i) => match out_features {
            None => r matches Err(ColbertError::Operation(m)) && m@
                == "Missing 'out_features' in dense config"@,
            Some(o) => r == Ok::<(usize, usize), ColbertError>((i, o)),
        },
    }
}

/// The projection's input and output widths; each is required.
pub fn features_from_fields(in_features: Option<usize>, out_features: Option<usize>) -> (r: Result<
    (usize, usize),
    ColbertError,
>)
    ensures
        features_outcome(in_features, out_features, r),
{
    match in_features {
        None => Err(ColbertError::operation("Missing 'in_features' in dense config")),
        Some(i) => match out_features {
            None => Err(ColbertError::operation("Missing 'out_features' in dense config")),
            Some(o) => Ok((i, o)),
        },
    }
}

/// Reads `in_features` and `out_features` from a projection config document;
/// a document that does not parse is a `Json` error.
pub fn read_dense_features(dense_config: &[u8]) -> (r: Result<(usize, usize), ColbertError>)
    ensures
        !json_parses(dense_config@) ==> (r matches Err(e) && e is Json),
        json_parses(dense_config@) ==> features_outcome(
            count_field(dense_config@, "in_features"@),
            count_field(dense_config@, "out_features"@),
            r,
        ),
{
    check_json(dense_config)?;
    features_from_fields(
        read_count(dense_config, "in_features"),
        read_count(dense_config, "out_features"),
    )
}

/// Encoding settings as given by a sentence-embedding config, before the
/// mask token is looked up.
pub struct SentenceSettings {
    pub query_prefix: String,
    pub document_prefix: String,
    pub mask_token: String,
    pub do_query_expansion: bool,
    pub attend_to_expansion_tokens: bool,
    pub query_length: Option<usize>,
    pub document_length: Option<usize>,
    pub batch_size: Option<usize>,
}

/// The text held, or the default.
pub open spec fn text_or(o: Option<Seq<char>>, d: Seq<char>) -> Seq<char> {
    match o {
        Some(s) => s,
        None => d,
    }
}

fn text_or_default(o: Option<String>, d: &str) -> (r: String)
    ensures
        r@ == text_or(opt_view(o), d@),
{
    match o {
        Some(s) => s,
        None => String::from_str(d),
    }
}

impl SentenceSettings {
    /// Fills in the documented defaults: prefixes `[Q]` and `[D]`, mask token
    /// `[MASK]`, expansion on, attendance off, batch size 32; the lengths stay
    /// open.
    pub fn from_fields(
        query_prefix: Option<String>,
        document_prefix: Option<String>,
        mask_token: Option<String>,
        do_query_expansion: Option<bool>,
        attend_to_expansion_tokens: Option<bool>,
        query_length: Option<usize>,
        document_length: Option<usize>,
        batch_size: Option<usize>,
    ) -> (r: SentenceSettings)
        ensures
            r.query_prefix@ == text_or(opt_view(query_prefix), "[Q]"@),
            r.document_prefix@ == text_or(opt_view(document_prefix), "[D]"@),
            r.mask_token@ == text_or(opt_view(mask_token), "[MASK]"@),
            r.do_query_expansion == (match do_query_expansion {
                Some(b) => b,
                None => true,
            }),
            r.attend_to_expansion_tokens == (match attend_to_expansion_tokens {
                Some(b) => b,
                None => false,
            }),
            r.query_length == query_length,
            r.document_length == document_length,
            r.batch_size == Some(match batch_size {
                Some(n) => n,
                None => DEFAULT_BATCH_SIZE,
            }),
    {
        SentenceSettings {
            query_prefix: text_or_default(query_prefix, "[Q]"),
            document_prefix: text_or_default(document_prefix, "[D]"),
            mask_token: text_or_default(mask_token, "[MASK]"),
            do_query_expansion: match do_query_expansion {
                Some(b) => b,
                None => true,
            },
            attend_to_expansion_tokens: match attend_to_expansion_tokens {
                Some(b) => b,
                None => false,
            },
            query_length,
            document_length,
            batch_size: Some(
                match batch_size {
                    Some(n) => n,
                    None => DEFAULT_BATCH_SIZE,
                },
            ),
        }
    }

    /// Reads the settings from a sentence-embedding config document and a
    /// special-tokens map, each field falling back to its default. A document
    /// that does not parse is a `Json` error.
    pub fn read(
        sentence_config: &[u8],
        special_tokens_map: &[u8],
        batch_size: Option<usize>,
    ) -> (r: Result<SentenceSettings, ColbertError>)
        ensures
            r is Ok <==> json_parses(sentence_config@) && json_parses(special_tokens_map@),
            r is Err ==> r->Err_0 is Json,
            r matches Ok(s) ==> {
                &&& s.query_prefix@ == text_or(text_field(sentence_config@, "query_prefix"@), "[Q]"@)
                &&& s.document_prefix@ == text_or(
                    text_field(sentence_config@, "document_prefix"@),
                    "[D]"@,
                )
                &&& s.mask_token@ == text_or(text_field(special_tokens_map@, "mask_token"@), "[MASK]"@)
                &&& s.do_query_expansion == unwrap_or(
                    flag_field(sentence_config@, "do_query_expansion"@),
                    true,
                )
                &&& s.attend_to_expansion_tokens == unwrap_or(
                    flag_field(sentence_config@, "attend_to_expansion_tokens"@),
                    false,
                )
                &&& s.query_length == count_field(sentence_config@, "query_length"@)
                &&& s.document_length == count_field(sentence_config@, "document_length"@)
                &&& s.batch_size == Some(unwrap_or(batch_size, DEFAULT_BATCH_SIZE))
            },
    {
        check_json(sentence_config)?;
        check_json(special_tokens_map)?;
        Ok(
            SentenceSettings::from_fields(
                read_text(sentence_config, "query_prefix"),
                read_text(sentence_config, "document_prefix"),
                read_text(special_tokens_map, "mask_token"),
                read_flag(sentence_config, "do_query_expansion"),
                read_flag(sentence_config, "attend_to_expansion_tokens"),
                read_count(sentence_config, "query_length"),
                read_count(sentence_config, "document_length"),
                batch_size,
            ),
        )
    }

    /// The encoding configuration these settings give once the mask token's
    /// id is known.
    pub fn into_config(self, mask_token_id: u32) -> (r: EncodingConfig)
        ensures
            r.wf(),
            r.query_prefix@ == self.query_prefix@,
            r.document_prefix@ == self.document_prefix@,
            r.mask_token@ == self.mask_token@,
            r.mask_token_id == mask_token_id,
            r.do_query_expansion == self.do_query_expansion,
            r.attend_to_expansion_tokens == (self.do_query_expansion
                && self.attend_to_expansion_tokens),
            r.query_length == unwrap_or(self.query_length, DEFAULT_QUERY_LENGTH),
            r.document_length == unwrap_or(self.document_length, DEFAULT_DOCUMENT_LENGTH),
            r.batch_size == unwrap_or(self.batch_size, DEFAULT_BATCH_SIZE),
    {
        EncodingConfig::new(
            self.query_prefix,
            self.document_prefix,
            self.mask_token,
            mask_token_id,
            self.do_query_expansion,
            self.attend_to_expansion_tokens,
            self.query_length,
            self.document_length,
            self.batch_size,
        )
    }
}

} // verus!
