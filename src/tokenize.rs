use vstd::prelude::*;
use crate::error::ColbertError;
use crate::settings::{EncodingConfig, PaddingPlan};
use tokenizers::Tokenizer;

verus! {

#[verifier::external_type_specification]
#[verifier::external_body]
pub struct ExTokenizer(tokenizers::Tokenizer);

/// One tokenized text: token ids, attention mask and token type ids.
pub struct EncodedText {
    pub ids: Vec<u32>,
    pub attention_mask: Vec<u32>,
    pub type_ids: Vec<u32>,
}

/// A tokenized chunk, one row per input, every row `seq_len` long.
pub struct TokenBatch {
    pub token_ids: Vec<Vec<u32>>,
    pub attention_mask: Vec<Vec<u32>>,
    pub token_type_ids: Vec<Vec<u32>>,
    pub seq_len: usize,
}

impl TokenBatch {
    /// The three matrices share one rectangular shape.
    pub open spec fn wf(&self) -> bool {
        &&& self.attention_mask.len() == self.token_ids.len()
        &&& self.token_type_ids.len() == self.token_ids.len()
        &&& forall|i: int| 0 <= i < self.token_ids.len() ==> #[trigger] self.token_ids@[i]@.len() == self.seq_len
        &&& forall|i: int| 0 <= i < self.token_ids.len() ==> #[trigger] self.attention_mask@[i]@.len() == self.seq_len
        &&& forall|i: int| 0 <= i < self.token_ids.len() ==> #[trigger] self.token_type_ids@[i]@.len() == self.seq_len
    }
}

/// Every encoding has ids, mask and type ids of the first one's length.
pub open spec fn uniform(encs: Seq<EncodedText>) -> bool {
    &&& forall|i: int| 0 <= i < encs.len() ==> #[trigger] encs[i].ids@.len() == encs[0].ids@.len()
    &&& forall|i: int|
        0 <= i < encs.len() ==> #[trigger] encs[i].attention_mask@.len() == encs[0].ids@.len()
    &&& forall|i: int|
        0 <= i < encs.len() ==> #[trigger] encs[i].type_ids@.len() == encs[0].ids@.len()
}

/// A mask row of `n` ones.
pub open spec fn ones(n: nat) -> Seq<u32> {
    Seq::new(n, |j: int| 1u32)
}

/// Rows laid end to end.
pub open spec fn flatten(rows: Seq<Vec<u32>>) -> Seq<u32>
    decreases rows.len(),
{
    if rows.len() == 0 {
        Seq::empty()
    } else {
        flatten(rows.drop_last()) + rows.last()@
    }
}

/// Whether bytes hold a tokenizer definition that loads.
pub uninterp spec fn definition_loads(b: Seq<u8>) -> bool;

/// The vocabulary of a tokenizer, from token to id.
pub uninterp spec fn token_ids(t: Tokenizer) -> Map<Seq<char>, u32>;

/// The vocabulary of a tokenizer, from id to token.
pub uninterp spec fn id_tokens(t: Tokenizer) -> Map<u32, Seq<char>>;

/// Number of special tokens a tokenizer adds to a single sequence.
pub uninterp spec fn special_count(t: Tokenizer) -> nat;

/// The truncation a tokenizer applies, if any: its bound and its stride.
pub uninterp spec fn truncation_of(t: Tokenizer) -> Option<(nat, nat)>;

/// The padding a tokenizer applies, if any: the fixed length (none for
/// batch-longest), the pad id and the pad token.
pub uninterp spec fn padding_rule(t: Tokenizer) -> Option<(Option<nat>, u32, Seq<char>)>;

/// The padding rule a plan sets: batch-longest padding keeps the default pad
/// id 0 and pad token `[PAD]`.
pub open spec fn rule_of(p: PaddingPlan) -> (Option<nat>, u32, Seq<char>) {
    match p {
        PaddingPlan::Fixed { length, pad_id, pad_token } => (
            Some(length as nat),
            pad_id,
            pad_token@,
        ),
        PaddingPlan::BatchLongest => (None, 0u32, "[PAD]"@),
    }
}

/// Relies on tokenizers::Tokenizer::from_bytes: reads a tokenizer from its
/// JSON definition; the error is kept as its message.
#[verifier::external_body]
fn tokenizer_from_bytes(bytes: &[u8]) -> (r: Result<Tokenizer, String>)
    ensures
        r is Ok <==> definition_loads(bytes@),
{
    Tokenizer::from_bytes(bytes).map_err(|e| e.to_string())
}

/// Relies on tokenizers' `token_to_id`: the id of a token in the added or the
/// model vocabulary.
#[verifier::external_body]
fn vocab_id(tok: &Tokenizer, token: &str) -> (r: Option<u32>)
    ensures
        r is Some <==> token_ids(*tok).contains_key(token@),
        r matches Some(id) ==> id == token_ids(*tok)[token@],
{
    tok.token_to_id(token)
}

/// Relies on tokenizers' `id_to_token`: the token of an id in the added or the
/// model vocabulary.
#[verifier::external_body]
fn vocab_token(tok: &Tokenizer, id: u32) -> (r: Option<String>)
    ensures
        r is Some <==> id_tokens(*tok).contains_key(id),
        r matches Some(s) ==> s@ == id_tokens(*tok)[id],
{
    tok.id_to_token(id)
}

/// Relies on tokenizers' post-processor `added_tokens(false)` (zero without a
/// post-processor): the special tokens added to a single sequence.
#[verifier::external_body]
fn special_token_count(tok: &Tokenizer) -> (r: usize)
    ensures
        r == special_count(*tok),
{
    tok.get_post_processor().map_or(0, |p| tokenizers::PostProcessor::added_tokens(p, false))
}

/// Relies on tokenizers' `with_truncation`: sets the truncation bound (stride
/// zero, other parameters default). With a bound no smaller than the special
/// token count the effective bound does not underflow and the call succeeds;
/// it changes nothing else.
#[verifier::external_body]
fn set_truncation(tok: &mut Tokenizer, max_length: usize)
    requires
        max_length >= special_count(*old(tok)),
    ensures
        truncation_of(*final(tok)) == Some((max_length as nat, 0nat)),
        padding_rule(*final(tok)) == padding_rule(*old(tok)),
        special_count(*final(tok)) == special_count(*old(tok)),
        token_ids(*final(tok)) == token_ids(*old(tok)),
        id_tokens(*final(tok)) == id_tokens(*old(tok)),
{
    let _ = tok.with_truncation(
        Some(tokenizers::TruncationParams { max_length, ..Default::default() }),
    );
}

/// Relies on tokenizers' `with_padding`: sets the padding strategy, pad id and
/// pad token, other parameters default; it changes nothing else.
#[verifier::external_body]
fn set_padding(tok: &mut Tokenizer, padding: &PaddingPlan)
    ensures
        padding_rule(*final(tok)) == Some(rule_of(*padding)),
        truncation_of(*final(tok)) == truncation_of(*old(tok)),
        special_count(*final(tok)) == special_count(*old(tok)),
        token_ids(*final(tok)) == token_ids(*old(tok)),
        id_tokens(*final(tok)) == id_tokens(*old(tok)),
{
    let params = match padding {
        PaddingPlan::Fixed { length, pad_id, pad_token } => tokenizers::PaddingParams {
            strategy: tokenizers::PaddingStrategy::Fixed(*length),
            pad_id: *pad_id,
            pad_token: pad_token.clone(),
            ..Default::default()
        },
        PaddingPlan::BatchLongest => tokenizers::PaddingParams {
            strategy: tokenizers::PaddingStrategy::BatchLongest,
            ..Default::default()
        },
    };
    tok.with_padding(Some(params));
}

/// Relies on tokenizers' `encode_batch` (with special tokens): each input is
/// encoded on its own and the results are collected in input order, so there
/// is one encoding per input, and padding or truncation moves ids, mask and
/// type ids together. With a stride of zero and a bound that holds the
/// special tokens, truncation cannot fail an assertion. The error is kept as
/// its message.
#[verifier::external_body]
fn encode_batch(tok: &Tokenizer, texts: Vec<String>) -> (r: Result<Vec<EncodedText>, String>)
    requires
        truncation_of(*tok) matches Some(t) ==> t.0 >= special_count(*tok) && t.1 == 0,
    ensures
        r matches Ok(v) ==> {
            &&& v.len() == texts.len()
            &&& forall|i: int| 0 <= i < v.len() ==> #[trigger] v@[i].attention_mask@.len()
                == v@[i].ids@.len() && v@[i].type_ids@.len() == v@[i].ids@.len()
        },
{
    tok.encode_batch(texts, true).map(|encs| encs.iter().map(|e| EncodedText {
        ids: e.get_ids().to_vec(),
        attention_mask: e.get_attention_mask().to_vec(),
        type_ids: e.get_type_ids().to_vec(),
    }).collect()).map_err(|e| e.to_string())
}

/// Reads a tokenizer definition; a failure is a tokenizer error.
pub fn load_tokenizer(bytes: &[u8]) -> (r: Result<Tokenizer, ColbertError>)
    ensures
        r is Ok <==> definition_loads(bytes@),
        r is Err ==> r->Err_0 is Tokenizer,
{
    match tokenizer_from_bytes(bytes) {
        Ok(t) => Ok(t),
        Err(msg) => Err(ColbertError::Tokenizer(msg)),
    }
}

/// The message for a mask token missing from the vocabulary.
pub open spec fn missing_token_message(token: Seq<char>) -> Seq<char> {
    "Token '"@ + token + "' not found in the tokenizer's vocabulary."@
}

/// The id of the mask token; a token missing from the vocabulary is an
/// operation error.
pub fn mask_token_id(tok: &Tokenizer, mask_token: &str) -> (r: Result<u32, ColbertError>)
    ensures
        r is Ok <==> token_ids(*tok).contains_key(mask_token@),
        r matches Ok(id) ==> id == token_ids(*tok)[mask_token@],
        r matches Err(e) ==> (e matches ColbertError::Operation(m) && m@ == missing_token_message(
            mask_token@,
        )),
{
    match vocab_id(tok, mask_token) {
        Some(id) => Ok(id),
        None => {
            let mut msg = String::from_str("Token '");
            msg.append(mask_token);
            msg.append("' not found in the tokenizer's vocabulary.");
            Err(ColbertError::Operation(msg))
        },
    }
}

/// Each text with `prefix` put in front of it.
pub fn prefixed_texts(texts: &[String], prefix: &str) -> (r: Vec<String>)
    ensures
        r.len() == texts.len(),
        forall|i: int| 0 <= i < texts.len() ==> #[trigger] r@[i]@ == prefix@ + texts@[i]@,
{
    let mut out: Vec<String> = Vec::new();
    let mut i: usize = 0;
    while i < texts.len()
        invariant
            i <= texts.len(),
            out.len() == i,
            forall|k: int| 0 <= k < i ==> #[trigger] out@[k]@ == prefix@ + texts@[k]@,
        decreases texts.len() - i,
    {
        let mut s = String::from_str(prefix);
        s.append(texts[i].as_str());
        out.push(s);
        i = i + 1;
    }
    out
}

/// A row of `n` ones.
fn ones_row(n: usize) -> (r: Vec<u32>)
    ensures
        r@ == ones(n as nat),
{
    let mut out: Vec<u32> = Vec::new();
    let mut j: usize = 0;
    while j < n
        invariant
            j <= n,
            out@ == ones(j as nat),
        decreases n - j,
    {
        out.push(1);
        j = j + 1;
        assert(out@ =~= ones(j as nat));
    }
    out
}

/// A copy of a row.
fn copy_row(v: &Vec<u32>) -> (r: Vec<u32>)
    ensures
        r@ == v@,
{
    let r = v.clone();
    assert(r@ =~= v@);
    r
}

/// Stacks the encodings of one chunk into a batch. When `attend_all` holds,
/// every mask row becomes all ones. An empty chunk, or encodings of unequal
/// lengths, are operation errors.
pub fn assemble_batch(encodings: &Vec<EncodedText>, attend_all: bool) -> (r: Result<
    TokenBatch,
    ColbertError,
>)
    ensures
        r is Err <==> (encodings.len() == 0 || !uniform(encodings@)),
        r is Err ==> r->Err_0 is Operation,
        r matches Ok(b) ==> {
            &&& b.wf()
            &&& b.token_ids.len() == encodings.len()
            &&& b.seq_len == encodings@[0].ids@.len()
            &&& forall|i: int| 0 <= i < encodings.len() ==> #[trigger] b.token_ids@[i]@
                == encodings@[i].ids@
            &&& forall|i: int| 0 <= i < encodings.len() ==> #[trigger] b.token_type_ids@[i]@
                == encodings@[i].type_ids@
            &&& forall|i: int| 0 <= i < encodings.len() ==> #[trigger] b.attention_mask@[i]@
                == (if attend_all { ones(b.seq_len as nat) } else {
                encodings@[i].attention_mask@
            })
        },
{
    if encodings.len() == 0 {
        return Err(ColbertError::operation("Input sentences cannot be empty."));
    }
    let seq_len = encodings[0].ids.len();
    let mut ids: Vec<Vec<u32>> = Vec::new();
    let mut mask: Vec<Vec<u32>> = Vec::new();
    let mut types: Vec<Vec<u32>> = Vec::new();
    let mut i: usize = 0;
    while i < encodings.len()
        invariant
            i <= encodings.len(),
            seq_len == encodings@[0].ids@.len(),
            ids.len() == i,
            mask.len() == i,
            types.len() == i,
            forall|k: int| 0 <= k < i ==> #[trigger] encodings@[k].ids@.len() == seq_len,
            forall|k: int| 0 <= k < i ==> #[trigger] encodings@[k].attention_mask@.len() == seq_len,
            forall|k: int| 0 <= k < i ==> #[trigger] encodings@[k].type_ids@.len() == seq_len,
            forall|k: int| 0 <= k < i ==> #[trigger] ids@[k]@ == encodings@[k].ids@,
            forall|k: int| 0 <= k < i ==> #[trigger] types@[k]@ == encodings@[k].type_ids@,
            forall|k: int| 0 <= k < i ==> #[trigger] mask@[k]@ == (if attend_all {
                ones(seq_len as nat)
            } else {
                encodings@[k].attention_mask@
            }),
        decreases encodings.len() - i,
    {
        let e = &encodings[i];
        if e.ids.len() != seq_len || e.attention_mask.len() != seq_len || e.type_ids.len()
            != seq_len {
            return Err(ColbertError::operation("Tokenized inputs differ in length."));
        }
        assert(encodings@[i as int].ids@.len() == seq_len);
        assert(encodings@[i as int].attention_mask@.len() == seq_len);
        assert(encodings@[i as int].type_ids@.len() == seq_len);
        ids.push(copy_row(&e.ids));
        types.push(copy_row(&e.type_ids));
        if attend_all {
            mask.push(ones_row(seq_len));
        } else {
            mask.push(copy_row(&e.attention_mask));
        }
        i = i + 1;
    }
    let b = TokenBatch { token_ids: ids, attention_mask: mask, token_type_ids: types, seq_len };
    assert(uniform(encodings@));
    assert forall|k: int| 0 <= k < b.token_ids.len() implies #[trigger] b.attention_mask@[k]@.len()
        == b.seq_len by {
        assert(b.attention_mask@[k]@ == (if attend_all { ones(seq_len as nat) } else {
            encodings@[k].attention_mask@
        }));
    }
    assert forall|k: int| 0 <= k < b.token_ids.len() implies #[trigger] b.token_ids@[k]@.len()
        == b.seq_len by {
        assert(b.token_ids@[k]@ == encodings@[k].ids@);
    }
    assert forall|k: int| 0 <= k < b.token_ids.len() implies #[trigger] b.token_type_ids@[k]@.len()
        == b.seq_len by {
        assert(b.token_type_ids@[k]@ == encodings@[k].type_ids@);
    }
    Ok(b)
}

/// Lays the rows of a matrix end to end, as a tensor's buffer.
pub fn flatten_rows(rows: &Vec<Vec<u32>>) -> (r: Vec<u32>)
    ensures
        r@ == flatten(rows@),
{
    let mut out: Vec<u32> = Vec::new();
    let mut i: usize = 0;
    while i < rows.len()
        invariant
            i <= rows.len(),
            out@ == flatten(rows@.take(i as int)),
        decreases rows.len() - i,
    {
        let mut j: usize = 0;
        let ghost before = out@;
        while j < rows[i].len()
            invariant
                i < rows.len(),
                j <= rows@[i as int].len(),
                out@ == before + rows@[i as int]@.take(j as int),
            decreases rows@[i as int].len() - j,
        {
            out.push(rows[i][j]);
            j = j + 1;
            assert(out@ =~= before + rows@[i as int]@.take(j as int));
        }
        assert(rows@.take(i + 1).drop_last() =~= rows@.take(i as int));
        assert(rows@[i as int]@.take(j as int) =~= rows@[i as int]@);
        i = i + 1;
    }
    assert(rows@.take(i as int) =~= rows@);
    out
}

/// Truncation bound for one kind of input.
pub open spec fn bound_for(cfg: EncodingConfig, is_query: bool) -> nat {
    if is_query {
        cfg.query_length as nat
    } else {
        cfg.document_length as nat
    }
}

/// Padding rule for one kind of input: the mask token to the query length for
/// queries, batch-longest for documents.
pub open spec fn rule_for(cfg: EncodingConfig, is_query: bool) -> (Option<nat>, u32, Seq<char>) {
    if is_query {
        (Some(cfg.query_length as nat), cfg.mask_token_id, cfg.mask_token@)
    } else {
        (None, 0u32, "[PAD]"@)
    }
}

/// Stacks the encodings of one chunk into a batch no wider than `bound`.
/// Encodings that are empty, of unequal lengths or wider than the bound are
/// operation errors; otherwise the rows are those of the encodings, with the
/// mask replaced by ones when `attend_all` holds.
pub fn finish_batch(encodings: &Vec<EncodedText>, bound: usize, attend_all: bool) -> (r: Result<
    TokenBatch,
    ColbertError,
>)
    ensures
        r is Err <==> (encodings.len() == 0 || !uniform(encodings@) || encodings@[0].ids@.len()
            > bound),
        r is Err ==> r->Err_0 is Operation,
        encodings.len() > 0 && uniform(encodings@) && encodings@[0].ids@.len() > bound ==> (r matches Err(
            ColbertError::Operation(m),
        ) && m@ == "Tokenized inputs exceed the truncation length."@),
        r matches Ok(b) ==> {
            &&& b.wf()
            &&& b.token_ids.len() == encodings.len()
            &&& b.seq_len == encodings@[0].ids@.len()
            &&& b.seq_len <= bound
            &&& forall|i: int| 0 <= i < encodings.len() ==> #[trigger] b.token_ids@[i]@
                == encodings@[i].ids@
            &&& forall|i: int| 0 <= i < encodings.len() ==> #[trigger] b.token_type_ids@[i]@
                == encodings@[i].type_ids@
            &&& forall|i: int| 0 <= i < encodings.len() ==> #[trigger] b.attention_mask@[i]@
                == (if attend_all { ones(b.seq_len as nat) } else {
                encodings@[i].attention_mask@
            })
        },
{
    let b = assemble_batch(encodings, attend_all)?;
    if b.seq_len > bound {
        return Err(ColbertError::operation("Tokenized inputs exceed the truncation length."));
    }
    Ok(b)
}

/// Tokenizes one chunk under the policy of `cfg` for its input kind: each
/// text gets the prefix, the tokenizer is set to truncate to the bound of the
/// kind (stride zero) and to pad by its rule, and the rows are checked and
/// stacked by `finish_batch`. An empty list, or a bound that cannot hold the
/// tokenizer's special tokens, is an operation error that leaves the
/// tokenizer as it was; a tokenizer failure is a tokenizer error.
pub fn tokenize_texts(
    tok: &mut Tokenizer,
    cfg: &EncodingConfig,
    texts: &[String],
    is_query: bool,
) -> (r: Result<TokenBatch, ColbertError>)
    ensures
        token_ids(*final(tok)) == token_ids(*old(tok)),
        id_tokens(*final(tok)) == id_tokens(*old(tok)),
        texts.len() == 0 ==> *final(tok) == *old(tok) && (r matches Err(
            ColbertError::Operation(m),
        ) && m@ == "Input sentences cannot be empty."@),
        texts.len() > 0 && bound_for(*cfg, is_query) < special_count(*old(tok)) ==> *final(tok)
            == *old(tok) && (r matches Err(ColbertError::Operation(m)) && m@
            == "Truncation length cannot hold the special tokens."@),
        texts.len() > 0 && bound_for(*cfg, is_query) >= special_count(*old(tok)) ==> {
            &&& truncation_of(*final(tok)) == Some((bound_for(*cfg, is_query), 0nat))
            &&& padding_rule(*final(tok)) == Some(rule_for(*cfg, is_query))
            &&& r is Err ==> (r->Err_0 is Tokenizer || r->Err_0 is Operation)
        },
        r matches Ok(b) ==> {
            &&& b.wf()
            &&& b.token_ids.len() == texts.len()
            &&& b.seq_len <= bound_for(*cfg, is_query)
            &&& cfg.attends_all(is_query) ==> forall|i: int|
                0 <= i < texts.len() ==> #[trigger] b.attention_mask@[i]@ == ones(
                    b.seq_len as nat,
                )
        },
{
    if texts.len() == 0 {
        return Err(ColbertError::operation("Input sentences cannot be empty."));
    }
    let plan = cfg.tokenize_plan(is_query);
    if plan.max_length < special_token_count(tok) {
        return Err(ColbertError::operation("Truncation length cannot hold the special tokens."));
    }
    let inputs = prefixed_texts(texts, plan.prefix.as_str());
    proof {
        reveal_strlit("[PAD]");
    }
    set_truncation(tok, plan.max_length);
    set_padding(tok, &plan.padding);
    assert(rule_of(plan.padding) == rule_for(*cfg, is_query));
    match encode_batch(tok, inputs) {
        Ok(encodings) => finish_batch(&encodings, plan.max_length, plan.attend_all),
        Err(msg) => Err(ColbertError::Tokenizer(msg)),
    }
}

/// The token of an id, or an empty text for an unknown id.
pub open spec fn token_or_empty(t: Tokenizer, id: u32) -> Seq<char> {
    if id_tokens(t).contains_key(id) {
        id_tokens(t)[id]
    } else {
        Seq::empty()
    }
}

/// The surface token of each id; an id outside the vocabulary gives an
/// empty string.
pub fn token_strings(tok: &Tokenizer, ids: &Vec<Vec<u32>>) -> (r: Vec<Vec<String>>)
    ensures
        r.len() == ids.len(),
        forall|i: int| 0 <= i < ids.len() ==> #[trigger] r@[i].len() == ids@[i].len(),
        forall|i: int, j: int|
            0 <= i < ids.len() && 0 <= j < ids@[i].len() ==> #[trigger] r@[i]@[j]@ == token_or_empty(
                *tok,
                ids@[i]@[j],
            ),
{
    let mut out: Vec<Vec<String>> = Vec::new();
    let mut i: usize = 0;
    while i < ids.len()
        invariant
            i <= ids.len(),
            out.len() == i,
            forall|k: int| 0 <= k < i ==> #[trigger] out@[k].len() == ids@[k].len(),
            forall|k: int, j: int|
                0 <= k < i && 0 <= j < ids@[k].len() ==> #[trigger] out@[k]@[j]@ == token_or_empty(
                    *tok,
                    ids@[k]@[j],
                ),
        decreases ids.len() - i,
    {
        let mut row: Vec<String> = Vec::new();
        let mut j: usize = 0;
        while j < ids[i].len()
            invariant
                i < ids.len(),
                j <= ids@[i as int].len(),
                row.len() == j,
                forall|l: int| 0 <= l < j ==> #[trigger] row@[l]@ == token_or_empty(
                    *tok,
                    ids@[i as int]@[l],
                ),
            decreases ids@[i as int].len() - j,
        {
            let s = match vocab_token(tok, ids[i][j]) {
                Some(s) => s,
                None => String::new(),
            };
            row.push(s);
            j = j + 1;
        }
        out.push(row);
        i = i + 1;
    }
    out
}

} // verus!
