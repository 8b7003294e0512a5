//! Digital goods: the checks around uploading, recording and downloading
//! the private files that a digital SKU delivers.
use vstd::prelude::*;
use crate::errors::{ErrorCode, RpcError, STATUS_BAD_REQUEST};
use crate::media::{sanitize_with_fallback, sanitized_spec};
use crate::text::{is_blank, trim_seq};

verus! {

/// The stored form of a digital file's name (`download` when blank).
pub fn sanitize_filename(name: &str) -> (r: String)
    ensures
        r@ == sanitized_spec(name@, "download"@),
{
    sanitize_with_fallback(name, "download")
}

/// An upload names its file.
pub fn require_filename(filename: &str) -> (r: Result<(), RpcError>)
    ensures
        r is Ok <==> trim_seq(filename@).len() > 0,
        r matches Err(e) ==> e.status == STATUS_BAD_REQUEST && e.error.code
            == ErrorCode::InvalidArgument && e.error.message@ == "filename is required"@,
{
    if is_blank(filename) {
        Err(RpcError::invalid_argument("filename is required"))
    } else {
        Ok(())
    }
}

/// A digital file belongs to a SKU of the store that is fulfilled
/// digitally: `found` is whether that SKU is digital, when the store has it.
pub fn check_digital_sku(found: Option<bool>) -> (r: Result<(), RpcError>)
    ensures
        r is Ok <==> found == Some(true),
        r matches Err(e) ==> e.status == STATUS_BAD_REQUEST && match found {
            None => e.error.code == ErrorCode::InvalidArgument && e.error.message@
                == "sku_id not found"@,
            Some(_) => e.error.code == ErrorCode::FailedPrecondition && e.error.message@
                == "sku is not digital fulfillment"@,
        },
{
    match found {
        None => Err(RpcError::invalid_argument("sku_id not found")),
        Some(digital) => if digital {
            Ok(())
        } else {
            Err(
                RpcError::new(
                    STATUS_BAD_REQUEST,
                    ErrorCode::FailedPrecondition,
                    "sku is not digital fulfillment",
                ),
            )
        },
    }
}

/// A recorded digital file names its object and bucket.
pub fn check_digital_asset_input(object_key: &str, bucket: &str) -> (r: Result<(), RpcError>)
    ensures
        r is Ok <==> object_key@.len() > 0 && bucket@.len() > 0,
        r matches Err(e) ==> e.status == STATUS_BAD_REQUEST && e.error.code
            == ErrorCode::InvalidArgument && e.error.message@
            == "asset.object_key and bucket are required"@,
{
    if object_key.is_empty() || bucket.is_empty() {
        Err(RpcError::invalid_argument("asset.object_key and bucket are required"))
    } else {
        Ok(())
    }
}

/// A download names a file of the store.
pub fn require_asset(found: bool) -> (r: Result<(), RpcError>)
    ensures
        r is Ok <==> found,
        r matches Err(e) ==> e.status == STATUS_BAD_REQUEST && e.error.code
            == ErrorCode::InvalidArgument && e.error.message@ == "asset_id not found"@,
{
    if found {
        Ok(())
    } else {
        Err(RpcError::invalid_argument("asset_id not found"))
    }
}

} // verus!
