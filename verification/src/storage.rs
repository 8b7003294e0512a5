//! Object storage locations: where a store's uploads are kept, how object
//! keys are laid out under a base path, and the public URL of an object.
use vstd::prelude::*;
use crate::errors::{ErrorCode, RpcError, STATUS_BAD_REQUEST};
use crate::text::{
    concat, is_blank, str_eq, trim, trim_char, trim_char_end_seq, trim_char_start_seq,
    trim_end_char, trim_seq,
};

verus! {

/// One storage location (the public media bucket or the private downloads
/// bucket), as configured.
#[derive(Debug, Clone, PartialEq, Eq)]
pub struct StorageLocationConfig {
    pub provider: String,
    pub bucket: String,
    pub base_path: String,
    pub cdn_base_url: String,
    pub region: String,
}

impl StorageLocationConfig {
    /// A provider and a bucket are both set.
    pub open spec fn configured(self) -> bool {
        trim_seq(self.provider@).len() > 0 && trim_seq(self.bucket@).len() > 0
    }

    /// A provider and a bucket are both set (neither is blank).
    pub fn is_configured(&self) -> (r: bool)
        ensures
            r == self.configured(),
    {
        !is_blank(self.provider.as_str()) && !is_blank(self.bucket.as_str())
    }
}

/// The location built from the raw values of its five settings, each trimmed.
pub open spec fn config_from_spec(
    c: StorageLocationConfig,
    provider: Seq<char>,
    bucket: Seq<char>,
    base_path: Seq<char>,
    cdn_base_url: Seq<char>,
    region: Seq<char>,
) -> bool {
    &&& c.provider@ == trim_seq(provider)
    &&& c.bucket@ == trim_seq(bucket)
    &&& c.base_path@ == trim_seq(base_path)
    &&& c.cdn_base_url@ == trim_seq(cdn_base_url)
    &&& c.region@ == trim_seq(region)
}

fn config_from(
    provider: &str,
    bucket: &str,
    base_path: &str,
    cdn_base_url: &str,
    region: &str,
) -> (r: StorageLocationConfig)
    ensures
        config_from_spec(r, provider@, bucket@, base_path@, cdn_base_url@, region@),
{
    StorageLocationConfig {
        provider: trim(provider),
        bucket: trim(bucket),
        base_path: trim(base_path),
        cdn_base_url: trim(cdn_base_url),
        region: trim(region),
    }
}

/// The public media location, from the values of `STORAGE_PUBLIC_PROVIDER`,
/// `_BUCKET`, `_BASE_PATH`, `_CDN_BASE_URL` and `_REGION` (empty when unset).
pub fn public_config(
    provider: &str,
    bucket: &str,
    base_path: &str,
    cdn_base_url: &str,
    region: &str,
) -> (r: StorageLocationConfig)
    ensures
        config_from_spec(r, provider@, bucket@, base_path@, cdn_base_url@, region@),
{
    config_from(provider, bucket, base_path, cdn_base_url, region)
}

/// The private downloads location, from the values of
/// `STORAGE_PRIVATE_PROVIDER`, `_BUCKET`, `_BASE_PATH`, `_CDN_BASE_URL` and
/// `_REGION` (empty when unset).
pub fn private_config(
    provider: &str,
    bucket: &str,
    base_path: &str,
    cdn_base_url: &str,
    region: &str,
) -> (r: StorageLocationConfig)
    ensures
        config_from_spec(r, provider@, bucket@, base_path@, cdn_base_url@, region@),
{
    config_from(provider, bucket, base_path, cdn_base_url, region)
}

/// `base` without surrounding white space and slashes.
pub open spec fn clean_base(base: Seq<char>) -> Seq<char> {
    trim_char_end_seq(trim_char_start_seq(trim_seq(base), '/'), '/')
}

/// `suffix` under `base`: `base/suffix`, or `suffix` when the base is empty.
pub open spec fn join_spec(base: Seq<char>, suffix: Seq<char>) -> Seq<char> {
    let b = clean_base(base);
    if b.len() == 0 {
        suffix
    } else {
        b + "/"@ + suffix
    }
}

/// `suffix` under `base`.
pub fn join_path(base: &str, suffix: &str) -> (r: String)
    ensures
        r@ == join_spec(base@, suffix@),
{
    let t = trim(base);
    let b = trim_char(t.as_str(), '/');
    if b.as_str().is_empty() {
        return suffix.to_owned();
    }
    let with_slash = concat(b.as_str(), "/");
    concat(with_slash.as_str(), suffix)
}

/// The key prefix of one store: `tenant/store` under the base path.
pub open spec fn store_prefix_spec(base: Seq<char>, tenant: Seq<char>, store: Seq<char>) -> Seq<
    char,
> {
    join_spec(base, trim_seq(tenant) + "/"@ + trim_seq(store))
}

/// The key prefix of one store.
pub fn store_prefix(base_path: &str, tenant_id: &str, store_id: &str) -> (r: String)
    ensures
        r@ == store_prefix_spec(base_path@, tenant_id@, store_id@),
{
    let t = trim(tenant_id);
    let s = trim(store_id);
    let a = concat(t.as_str(), "/");
    let scoped = concat(a.as_str(), s.as_str());
    join_path(base_path, scoped.as_str())
}

/// The key of an object named `name` in one store.
pub open spec fn object_key_spec(
    base: Seq<char>,
    tenant: Seq<char>,
    store: Seq<char>,
    name: Seq<char>,
) -> Seq<char> {
    join_spec(store_prefix_spec(base, tenant, store), trim_seq(name))
}

/// The key of an object named `name` in one store.
pub fn build_object_key(base_path: &str, tenant_id: &str, store_id: &str, name: &str) -> (r:
    String)
    ensures
        r@ == object_key_spec(base_path@, tenant_id@, store_id@, name@),
{
    let prefix = store_prefix(base_path, tenant_id, store_id);
    let n = trim(name);
    join_path(prefix.as_str(), n.as_str())
}

/// The URL objects of a location are served from: the CDN base without
/// trailing slashes, or for S3 without a CDN the bucket's own host, else
/// nothing.
pub open spec fn public_base_spec(c: StorageLocationConfig) -> Seq<char> {
    if c.cdn_base_url@.len() == 0 {
        if c.provider@ == "s3"@ {
            "https://"@ + c.bucket@ + ".s3.amazonaws.com"@
        } else {
            Seq::empty()
        }
    } else {
        trim_char_end_seq(c.cdn_base_url@, '/')
    }
}

/// The URL objects of a location are served from.
pub fn public_base_url(config: &StorageLocationConfig) -> (r: String)
    ensures
        r@ == public_base_spec(*config),
{
    if config.cdn_base_url.as_str().is_empty() {
        if str_eq(config.provider.as_str(), "s3") {
            let a = concat("https://", config.bucket.as_str());
            concat(a.as_str(), ".s3.amazonaws.com")
        } else {
            String::new()
        }
    } else {
        trim_end_char(config.cdn_base_url.as_str(), '/')
    }
}

/// The public URL of the object `object_key` of a location.
pub fn public_object_url(config: &StorageLocationConfig, object_key: &str) -> (r: String)
    ensures
        r@ == public_base_spec(*config) + "/"@ + object_key@,
{
    let base = public_base_url(config);
    let a = concat(base.as_str(), "/");
    concat(a.as_str(), object_key)
}

/// Refuses an unconfigured location: 400 `failed_precondition` with
/// `message`.
pub fn require_configured(config: &StorageLocationConfig, message: &str) -> (r: Result<
    (),
    RpcError,
>)
    ensures
        r is Ok <==> config.configured(),
        r matches Err(e) ==> e.status == STATUS_BAD_REQUEST && e.error.code
            == ErrorCode::FailedPrecondition && e.error.message@ == message@,
{
    if config.is_configured() {
        Ok(())
    } else {
        Err(RpcError::new(STATUS_BAD_REQUEST, ErrorCode::FailedPrecondition, message))
    }
}

/// Whether a provider can serve a signed or direct transfer: S3 can; GCS
/// is refused with `gcs_message` (400 `failed_precondition`); anything else
/// is 400 `invalid_argument` "unsupported storage provider".
pub fn check_provider(provider: &str, gcs_message: &str) -> (r: Result<(), RpcError>)
    ensures
        r is Ok <==> provider@ == "s3"@,
        r matches Err(e) ==> e.status == STATUS_BAD_REQUEST && if provider@ == "gcs"@ {
            e.error.code == ErrorCode::FailedPrecondition && e.error.message@ == gcs_message@
        } else {
            e.error.code == ErrorCode::InvalidArgument && e.error.message@
                == "unsupported storage provider"@
        },
{
    if str_eq(provider, "s3") {
        Ok(())
    } else if str_eq(provider, "gcs") {
        Err(RpcError::new(STATUS_BAD_REQUEST, ErrorCode::FailedPrecondition, gcs_message))
    } else {
        Err(RpcError::invalid_argument("unsupported storage provider"))
    }
}

} // verus!
