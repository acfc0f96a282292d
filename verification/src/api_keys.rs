//! API keys: generating a key, storing only its hash and a prefix, and who may
//! reach a stored key.

use vstd::prelude::*;
use sha2::Digest;
use crate::common::{now_millis, uuid_text};
use crate::error::ApiError;
use crate::paging::PageLink;
use crate::random::{is_token_char, new_uuid_v4, random_alphanumeric_string};
use crate::security::{require_owner, SecurityContext};
use crate::text::{all_ascii, chars_of, concat_str, hex_encode, hex_of_bytes, is_lower_hex_char, lemma_hex_of_bytes_shape, slice_chars, string_of};

verus! {

/// Default page size of the API key list.
pub fn default_page_size() -> (r: i64)
    ensures
        r == 20,
{
    20
}

/// Query of the API key list.
pub struct PageParams {
    pub page: i64,
    pub page_size: i64,
}

impl PageParams {
    pub fn defaults() -> (r: Self)
        ensures
            r.page == 0,
            r.page_size == 20,
    {
        PageParams { page: 0, page_size: default_page_size() }
    }

    pub fn page_link(&self) -> (r: PageLink)
        ensures
            r.page == self.page && r.page_size == self.page_size && r.text_search is None,
    {
        PageLink::new(self.page, self.page_size)
    }
}

/// The text every raw key starts with.
pub open spec fn key_head() -> Seq<char> {
    "vielang_live_"@
}

/// A raw key: the fixed head followed by 32 random letters and digits.
pub open spec fn is_raw_key(k: Seq<char>) -> bool {
    &&& k.len() == 45
    &&& k.subrange(0, 13) == key_head()
    &&& forall|i: int| 13 <= i < 45 ==> is_token_char(#[trigger] k[i])
}

pub fn generate_api_key() -> (r: String)
    ensures
        is_raw_key(r@),
        all_ascii(r@),
{
    let suffix = random_alphanumeric_string(32);
    let r = concat_str("vielang_live_", suffix.as_str());
    proof {
        reveal_strlit("vielang_live_");
        assert(r@.subrange(0, 13) =~= key_head());
        assert forall|i: int| 0 <= i < r@.len() implies ((r@[i] as u32) < 128) by {
            if i >= 13 {
                assert(is_token_char(suffix@[i - 13]));
            }
        }
    }
    r
}

/// The SHA-256 digest of a text's UTF-8 bytes.
pub uninterp spec fn sha256_of_text(s: Seq<char>) -> Seq<u8>;

/// `sha2::Sha256` over the UTF-8 bytes of `s`: the 32-byte digest. The digest is
/// named, not restated; its length is the one fact given.
#[verifier::external_body]
pub(crate) fn sha256_text(s: &str) -> (r: Vec<u8>)
    ensures
        r@ == sha256_of_text(s@),
        r@.len() == 32,
{
    let mut hasher = sha2::Sha256::new();
    hasher.update(s.as_bytes());
    hasher.finalize().to_vec()
}

/// The stored hash of a key: its SHA-256 digest in lower-case hex.
pub fn hash_key(key: &str) -> (r: String)
    ensures
        r@ == hex_of_bytes(sha256_of_text(key@)),
        r@.len() == 64,
        forall|i: int| 0 <= i < 64 ==> is_lower_hex_char(#[trigger] r@[i]),
{
    let digest = sha256_text(key);
    proof {
        lemma_hex_of_bytes_shape(digest@);
    }
    hex_encode(digest.as_slice())
}

/// The prefix kept to recognise a key: its first 20 characters (all of a shorter key).
pub open spec fn key_prefix_of(k: Seq<char>) -> Seq<char> {
    if k.len() < 20 { k } else { k.subrange(0, 20) }
}

pub fn key_prefix(raw_key: &str) -> (r: String)
    requires
        all_ascii(raw_key@),
    ensures
        r@ == key_prefix_of(raw_key@),
{
    let v = chars_of(raw_key);
    let n = if v.len() < 20 { v.len() } else { 20 };
    let p = slice_chars(v.as_slice(), 0, n);
    proof {
        assert(raw_key@.subrange(0, raw_key@.len() as int) =~= raw_key@);
    }
    string_of(p.as_slice())
}

/// A stored API key.
pub struct ApiKey {
    pub id: u128,
    pub created_time: i64,
    pub tenant_id: u128,
    pub user_id: u128,
    pub name: String,
    pub key_hash: String,
    pub key_prefix: String,
    pub scopes: Vec<String>,
    pub expires_at: Option<i64>,
    pub last_used_at: Option<i64>,
    pub enabled: bool,
}

/// A key creation request.
pub struct CreateApiKeyRequest {
    pub name: String,
    pub scopes: Vec<String>,
    pub expires_at: Option<i64>,
}

/// A created key with the raw key, shown this once.
pub struct CreateApiKeyResponse {
    pub key: ApiKey,
    pub raw_key: String,
}

/// A new key for the caller: a fresh raw key, of which only the hash and the prefix
/// are stored; enabled, never used.
pub fn create_api_key(ctx: &SecurityContext, req: CreateApiKeyRequest) -> (r: CreateApiKeyResponse)
    ensures
        is_raw_key(r.raw_key@),
        r.key.key_hash@ == hex_of_bytes(sha256_of_text(r.raw_key@)),
        r.key.key_prefix@ == key_prefix_of(r.raw_key@),
        r.key.tenant_id == ctx.tenant_id,
        r.key.user_id == ctx.user_id,
        r.key.name == req.name,
        r.key.scopes@ == req.scopes@,
        r.key.expires_at == req.expires_at,
        r.key.last_used_at is None,
        r.key.enabled,
{
    let raw_key = generate_api_key();
    let key_hash = hash_key(raw_key.as_str());
    let prefix = key_prefix(raw_key.as_str());
    let now = now_millis();
    let key = ApiKey {
        id: new_uuid_v4(),
        created_time: now,
        tenant_id: ctx.tenant_id,
        user_id: ctx.user_id,
        name: req.name,
        key_hash,
        key_prefix: prefix,
        scopes: req.scopes,
        expires_at: req.expires_at,
        last_used_at: None,
        enabled: true,
    };
    CreateApiKeyResponse { key, raw_key }
}

/// A stored key is reached by its owner or a system administrator; a missing key is
/// a not-found answer.
pub fn reach_api_key(ctx: &SecurityContext, found: Option<ApiKey>) -> (r: Result<ApiKey, ApiError>)
    ensures
        found is None ==> (r matches Err(ApiError::NotFound(m)) && m@ == "API key not found"@),
        found matches Some(k) ==> ((k.user_id == ctx.user_id || ctx.sys_admin()) <==> r is Ok),
        found matches Some(k) ==> (r matches Ok(x) ==> x == k),
        found matches Some(k) ==> (r matches Err(e) ==> (e matches ApiError::Forbidden(m) && m@ == "Access denied"@)),
{
    match found {
        None => Err(ApiError::NotFound("API key not found".to_owned())),
        Some(k) => {
            require_owner(ctx, k.user_id)?;
            Ok(k)
        },
    }
}

} // verus!
