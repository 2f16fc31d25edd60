use vstd::prelude::*;

verus! {

/// Number of query tokens when none is configured.
pub const DEFAULT_QUERY_LENGTH: usize = 32;

/// Number of document tokens when none is configured.
pub const DEFAULT_DOCUMENT_LENGTH: usize = 180;

/// Chunk size of the batch dispatcher when none is configured.
pub const DEFAULT_BATCH_SIZE: usize = 32;

/// What drives tokenization and post-processing of queries and documents.
pub struct EncodingConfig {
    pub query_prefix: String,
    pub document_prefix: String,
    pub mask_token: String,
    pub mask_token_id: u32,
    pub do_query_expansion: bool,
    pub attend_to_expansion_tokens: bool,
    pub query_length: usize,
    pub document_length: usize,
    pub batch_size: usize,
}

impl EncodingConfig {
    /// Attending to expansion tokens only makes sense with query expansion.
    pub open spec fn wf(&self) -> bool {
        self.attend_to_expansion_tokens ==> self.do_query_expansion
    }

    /// Builds a configuration, filling in the default lengths and batch size
    /// and turning attendance off when there is no query expansion.
    pub fn new(
        query_prefix: String,
        document_prefix: String,
        mask_token: String,
        mask_token_id: u32,
        do_query_expansion: bool,
        attend_to_expansion_tokens: bool,
        query_length: Option<usize>,
        document_length: Option<usize>,
        batch_size: Option<usize>,
    ) -> (r: EncodingConfig)
        ensures
            r.wf(),
            r.query_prefix@ == query_prefix@,
            r.document_prefix@ == document_prefix@,
            r.mask_token@ == mask_token@,
            r.mask_token_id == mask_token_id,
            r.do_query_expansion == do_query_expansion,
            r.attend_to_expansion_tokens == normalized_attendance(
                do_query_expansion,
                attend_to_expansion_tokens,
            ),
            r.query_length == unwrap_or(query_length, DEFAULT_QUERY_LENGTH),
            r.document_length == unwrap_or(document_length, DEFAULT_DOCUMENT_LENGTH),
            r.batch_size == unwrap_or(batch_size, DEFAULT_BATCH_SIZE),
    {
        let attend = if !do_query_expansion {
            false
        } else {
            attend_to_expansion_tokens
        };
        EncodingConfig {
            query_prefix,
            document_prefix,
            mask_token,
            mask_token_id,
            do_query_expansion,
            attend_to_expansion_tokens: attend,
            query_length: match query_length {
                Some(n) => n,
                None => DEFAULT_QUERY_LENGTH,
            },
            document_length: match document_length {
                Some(n) => n,
                None => DEFAULT_DOCUMENT_LENGTH,
            },
            batch_size: match batch_size {
                Some(n) => n,
                None => DEFAULT_BATCH_SIZE,
            },
        }
    }
}

/// How the tokenizer pads one chunk.
pub enum PaddingPlan {
    /// Every sequence padded to `length` with the mask token.
    Fixed { length: usize, pad_id: u32, pad_token: String },
    /// Every sequence padded to the longest one of its chunk.
    BatchLongest,
}

/// The tokenization policy for one kind of input.
pub struct TokenizePlan {
    /// Literal text put before every input.
    pub prefix: String,
    /// Truncation bound, in tokens.
    pub max_length: usize,
    pub padding: PaddingPlan,
    /// Whether the attention mask is replaced by all ones.
    pub attend_all: bool,
}

/// What `EncodingConfig::new` keeps of the attendance flag.
pub open spec fn normalized_attendance(do_query_expansion: bool, attend: bool) -> bool {
    do_query_expansion && attend
}

impl EncodingConfig {
    /// Whether the attention mask of a tokenized chunk is replaced by ones.
    pub open spec fn attends_all(&self, is_query: bool) -> bool {
        is_query && self.attend_to_expansion_tokens
    }

    /// Whether a chunk takes the expanded-query path (normalize only, no
    /// filtering or re-padding).
    pub open spec fn expands(&self, is_query: bool) -> bool {
        is_query && self.do_query_expansion
    }

    /// Queries take the expanded path exactly when query expansion is on.
    pub fn uses_expansion(&self, is_query: bool) -> (r: bool)
        ensures
            r == self.expands(is_query),
    {
        is_query && self.do_query_expansion
    }

    /// The tokenization policy: prefix and truncation by input kind, fixed
    /// padding with the mask token for queries, batch-longest padding for
    /// documents.
    pub fn tokenize_plan(&self, is_query: bool) -> (r: TokenizePlan)
        ensures
            r.prefix@ == (if is_query { self.query_prefix@ } else { self.document_prefix@ }),
            r.max_length == (if is_query { self.query_length } else { self.document_length }),
            is_query ==> (r.padding matches PaddingPlan::Fixed { length, pad_id, pad_token }
                && length == self.query_length && pad_id == self.mask_token_id
                && pad_token@ == self.mask_token@),
            !is_query ==> r.padding is BatchLongest,
            r.attend_all == self.attends_all(is_query),
    {
        if is_query {
            TokenizePlan {
                prefix: self.query_prefix.clone(),
                max_length: self.query_length,
                padding: PaddingPlan::Fixed {
                    length: self.query_length,
                    pad_id: self.mask_token_id,
                    pad_token: self.mask_token.clone(),
                },
                attend_all: self.attend_to_expansion_tokens,
            }
        } else {
            TokenizePlan {
                prefix: self.document_prefix.clone(),
                max_length: self.document_length,
                padding: PaddingPlan::BatchLongest,
                attend_all: false,
            }
        }
    }
}

/// Asking to attend to expansion tokens without query expansion has no
/// observable effect: the flag is normalized to the default, and a well-formed
/// configuration without expansion neither attends to padding nor takes the
/// expanded-query path.
pub proof fn lemma_attendance_needs_expansion(cfg: EncodingConfig, attend: bool, is_query: bool)
    requires
        cfg.wf(),
        !cfg.do_query_expansion,
    ensures
        normalized_attendance(false, attend) == normalized_attendance(false, false),
        !cfg.attends_all(is_query),
        !cfg.expands(is_query),
{
}

/// The value held, or the default.
pub open spec fn unwrap_or<T>(o: Option<T>, d: T) -> T {
    match o {
        Some(v) => v,
        None => d,
    }
}

} // verus!
