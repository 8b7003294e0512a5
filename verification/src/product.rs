//! Products and variants: SKU codes, sale windows, variant axes, and the
//! axis values a new variant must give.
use vstd::prelude::*;
use crate::context::TenantContext;
use crate::errors::{ErrorCode, RpcError, STATUS_BAD_REQUEST};
use crate::text::{
    concat, contains_whitespace, is_blank, is_ws, pair_views, str_eq, string_views, to_lowercase, to_owned,
    trim, trim_seq, unicode_lowercase,
};
use crate::time::{Instant, is_later, later};
use vstd::hash_map::StringHashMap;

verus! {

/// A product of the catalog.
#[derive(Debug, Clone, PartialEq, Eq)]
pub struct Product {
    pub id: String,
    pub vendor_id: String,
    pub title: String,
    pub description: String,
    pub status: String,
}

/// A variant (SKU) of a product.
#[derive(Debug, Clone, PartialEq, Eq)]
pub struct Variant {
    pub id: String,
    pub product_id: String,
    pub sku: String,
    pub status: String,
}

/// A SKU code is non-empty, at most 64 bytes in UTF-8, and holds no white
/// space.
pub open spec fn valid_sku(s: Seq<char>) -> bool {
    &&& s.len() > 0
    &&& vstd::utf8::encode_utf8(s).len() <= 64
    &&& forall|k: int| 0 <= k < s.len() ==> !is_ws(#[trigger] s[k])
}

/// Why a SKU code is refused, if it is: checked on the trimmed text, first
/// for emptiness, then for length in bytes, then for white space.
pub open spec fn sku_rejection(value: Seq<char>) -> Option<Seq<char>> {
    let t = trim_seq(value);
    if t.len() == 0 {
        Some("sku is required"@)
    } else if vstd::utf8::encode_utf8(t).len() > 64 {
        Some("sku must be 64 chars or less"@)
    } else if exists|k: int| 0 <= k < t.len() && is_ws(#[trigger] t[k]) {
        Some("sku must not contain whitespace"@)
    } else {
        None
    }
}

/// A checked SKU code.
#[derive(Debug, Clone, PartialEq, Eq)]
pub struct SkuCode(String);

impl SkuCode {
    /// The code's text.
    pub closed spec fn value(self) -> Seq<char> {
        self.0@
    }

    /// Checks a SKU code; the code kept is the trimmed text. A refusal is
    /// 400 `invalid_argument` with the reason.
    pub fn parse(value: &str) -> (r: Result<SkuCode, RpcError>)
        ensures
            match sku_rejection(value@) {
                None => r matches Ok(c) && c.value() == trim_seq(value@) && valid_sku(c.value()),
                Some(m) => r matches Err(e) && e.status == STATUS_BAD_REQUEST && e.error.code
                    == ErrorCode::InvalidArgument && e.error.message@ == m,
            },
    {
        let normalized = trim(value);
        if normalized.as_str().is_empty() {
            return Err(RpcError::invalid_argument("sku is required"));
        }
        if normalized.as_str().as_bytes().len() > 64 {
            return Err(RpcError::invalid_argument("sku must be 64 chars or less"));
        }
        if contains_whitespace(normalized.as_str()) {
            return Err(RpcError::invalid_argument("sku must not contain whitespace"));
        }
        Ok(SkuCode(normalized))
    }

    /// The code's text.
    pub fn as_str(&self) -> (r: &str)
        ensures
            r@ == self.value(),
    {
        self.0.as_str()
    }
}

/// A checked SKU code is accepted again as it stands: it is its own trim,
/// and nothing in it is refused.
pub proof fn lemma_sku_parse_idempotent(value: Seq<char>)
    requires
        sku_rejection(value) is None,
    ensures
        trim_seq(trim_seq(value)) == trim_seq(value),
        sku_rejection(trim_seq(value)) is None,
{
    let t = trim_seq(value);
    assert(t.len() > 0);
    assert(!is_ws(t[0]));
    assert(!is_ws(t.last()));
    assert(crate::text::trim_start_seq(t) == t);
    assert(crate::text::trim_end_seq(t) == t);
}

/// A sale may not end before it starts.
pub fn check_sale_window(start: Option<Instant>, end: Option<Instant>) -> (r: Result<(), RpcError>)
    ensures
        r is Ok <==> !(start is Some && end is Some && later(start.unwrap(), end.unwrap())),
        r matches Err(e) ==> e.status == STATUS_BAD_REQUEST && e.error.code
            == ErrorCode::InvalidArgument && e.error.message@
            == "sale_end_at must be later than sale_start_at"@,
{
    match (start, end) {
        (Some(s), Some(e)) => if is_later(s, e) {
            Err(RpcError::invalid_argument("sale_end_at must be later than sale_start_at"))
        } else {
            Ok(())
        },
        _ => Ok(()),
    }
}

/// The position a variant axis is stored at: its own when positive, else
/// its place in the list counting from one.
pub open spec fn axis_position(position: i32, idx: int) -> int {
    if position > 0 {
        position as int
    } else {
        idx + 1
    }
}

/// The axes of a new product, each with its trimmed name and its position;
/// an axis with a blank name refuses the whole list with 400
/// "variant_axes.name is required".
pub fn axis_positions(axes: &Vec<(String, i32)>) -> (r: Result<Vec<(String, i32)>, RpcError>)
    requires
        axes@.len() < i32::MAX,
    ensures
        r is Ok <==> forall|i: int| 0 <= i < axes@.len() ==> trim_seq(#[trigger] axes@[i].0@).len()
            > 0,
        r matches Ok(v) ==> v@.len() == axes@.len() && forall|i: int|
            0 <= i < v@.len() ==> (#[trigger] v@[i]).0@ == trim_seq(axes@[i].0@) && v@[i].1
                == axis_position(axes@[i].1, i),
        r matches Err(e) ==> e.status == STATUS_BAD_REQUEST && e.error.code
            == ErrorCode::InvalidArgument && e.error.message@ == "variant_axes.name is required"@,
{
    let mut out: Vec<(String, i32)> = Vec::new();
    let mut k: usize = 0;
    while k < axes.len()
        invariant
            k <= axes.len(),
            axes@.len() < i32::MAX,
            out@.len() == k,
            forall|i: int| 0 <= i < k ==> trim_seq(#[trigger] axes@[i].0@).len() > 0,
            forall|i: int|
                0 <= i < k ==> (#[trigger] out@[i]).0@ == trim_seq(axes@[i].0@) && out@[i].1
                    == axis_position(axes@[i].1, i),
        decreases axes.len() - k,
    {
        let name = trim(axes[k].0.as_str());
        if name.as_str().is_empty() {
            return Err(RpcError::invalid_argument("variant_axes.name is required"));
        }
        let position: i32 = if axes[k].1 > 0 {
            axes[k].1
        } else {
            (k + 1) as i32
        };
        out.push((name, position));
        k = k + 1;
    }
    Ok(out)
}

/// The variant a product without axes is created with.
#[derive(Debug, Clone, PartialEq, Eq)]
pub struct VariantInput {
    pub sku: String,
    pub fulfillment_type: String,
    pub status: String,
}

/// Why a product without axes is refused for its default variant, if it is.
pub open spec fn default_variant_rejection(v: Option<VariantInput>) -> Option<Seq<char>> {
    match v {
        None => Some("default_variant is required when variant_axes is empty"@),
        Some(d) => match sku_rejection(d.sku@) {
            Some(m) => Some(m),
            None => if trim_seq(d.fulfillment_type@).len() == 0 {
                Some("default_variant.fulfillment_type is required"@)
            } else if trim_seq(d.status@).len() == 0 {
                Some("default_variant.status is required"@)
            } else {
                None
            },
        },
    }
}

/// A product without axes needs a default variant with a valid SKU, a
/// fulfillment type and a status; gives the checked SKU.
pub fn check_default_variant(v: Option<&VariantInput>) -> (r: Result<SkuCode, RpcError>)
    ensures
        match default_variant_rejection(
            match v {
                Some(d) => Some(*d),
                None => None,
            },
        ) {
            None => r matches Ok(c) && c.value() == trim_seq(v.unwrap().sku@),
            Some(m) => r matches Err(e) && e.status == STATUS_BAD_REQUEST && e.error.code
                == ErrorCode::InvalidArgument && e.error.message@ == m,
        },
{
    match v {
        None => Err(
            RpcError::invalid_argument("default_variant is required when variant_axes is empty"),
        ),
        Some(d) => {
            let sku = SkuCode::parse(d.sku.as_str())?;
            if is_blank(d.fulfillment_type.as_str()) {
                return Err(RpcError::invalid_argument("default_variant.fulfillment_type is required"));
            }
            if is_blank(d.status.as_str()) {
                return Err(RpcError::invalid_argument("default_variant.status is required"));
            }
            Ok(sku)
        },
    }
}

/// A tenant named in the request, if it names a non-empty one, must be the
/// tenant that owns the product or variant; `message` says which.
pub fn check_request_tenant(tenant: Option<TenantContext>, owner_tenant_id: &str, message: &str) -> (r:
    Result<(), RpcError>)
    ensures
        r is Ok <==> match tenant {
            Some(t) => t.tenant_id@.len() == 0 || t.tenant_id@ == owner_tenant_id@,
            None => true,
        },
        r matches Err(e) ==> e.status == STATUS_BAD_REQUEST && e.error.code
            == ErrorCode::InvalidArgument && e.error.message@ == message@,
{
    match tenant {
        Some(t) => if !t.tenant_id.as_str().is_empty() && !str_eq(
            t.tenant_id.as_str(),
            owner_tenant_id,
        ) {
            Err(RpcError::invalid_argument(message))
        } else {
            Ok(())
        },
        None => Ok(()),
    }
}

/// Setting inventory names a location.
pub fn require_location_id(location_id: &str) -> (r: Result<(), RpcError>)
    ensures
        r is Ok <==> location_id@.len() > 0,
        r matches Err(e) ==> e.status == STATUS_BAD_REQUEST && e.error.code
            == ErrorCode::InvalidArgument && e.error.message@ == "location_id is required"@,
{
    if location_id.is_empty() {
        Err(RpcError::invalid_argument("location_id is required"))
    } else {
        Ok(())
    }
}

/// The key an axis is matched by: its trimmed name, lower-cased.
pub open spec fn axis_key(name: Seq<char>) -> Seq<char> {
    unicode_lowercase(trim_seq(name))
}

/// The value of key `k` in `m`, or empty.
pub open spec fn lookup(m: Map<Seq<char>, Seq<char>>, k: Seq<char>) -> Seq<char> {
    if m.contains_key(k) {
        m[k]
    } else {
        Seq::empty()
    }
}

/// A map of texts by the characters of each value.
pub open spec fn text_map(m: Map<Seq<char>, String>) -> Map<Seq<char>, Seq<char>> {
    m.map_values(|s: String| s@)
}

/// The axis values a request gives, as a map from axis key to trimmed value;
/// refused at the first value with a blank key or value, or with a key given
/// before.
pub open spec fn axis_map_spec(raw: Seq<(Seq<char>, Seq<char>)>) -> Result<
    Map<Seq<char>, Seq<char>>,
    Seq<char>,
>
    decreases raw.len(),
{
    if raw.len() == 0 {
        Ok(Map::empty())
    } else {
        match axis_map_spec(raw.drop_last()) {
            Err(e) => Err(e),
            Ok(m) => {
                let n = axis_key(raw.last().0);
                let v = trim_seq(raw.last().1);
                if n.len() == 0 || v.len() == 0 {
                    Err("axis_values.name and axis_values.value are required"@)
                } else if m.contains_key(n) {
                    Err("axis_values contains duplicate axis names"@)
                } else {
                    Ok(m.insert(n, v))
                }
            },
        }
    }
}

/// Each of the product's axes, in order, with its value from the map;
/// refused at the first axis without one.
pub open spec fn axis_resolve_spec(m: Map<Seq<char>, Seq<char>>, axes: Seq<Seq<char>>) -> Result<
    Seq<(Seq<char>, Seq<char>)>,
    Seq<char>,
>
    decreases axes.len(),
{
    if axes.len() == 0 {
        Ok(Seq::empty())
    } else {
        match axis_resolve_spec(m, axes.drop_last()) {
            Err(e) => Err(e),
            Ok(out) => {
                let name = axes.last();
                let v = lookup(m, axis_key(name));
                if v.len() == 0 {
                    Err("axis value is required for "@ + name)
                } else {
                    Ok(out.push((name, v)))
                }
            },
        }
    }
}

/// The axis values of a new variant, one per axis of its product in order,
/// or the reason the request is refused.
pub open spec fn variant_axis_values_spec(
    raw: Seq<(Seq<char>, Seq<char>)>,
    axes: Seq<Seq<char>>,
) -> Result<Seq<(Seq<char>, Seq<char>)>, Seq<char>> {
    match axis_map_spec(raw) {
        Err(e) => Err(e),
        Ok(m) => if axes.len() == 0 && raw.len() > 0 {
            Err("axis_values cannot be set when variant axes are not defined"@)
        } else {
            axis_resolve_spec(m, axes)
        },
    }
}

fn axis_map(raw: &Vec<(String, String)>) -> (r: Result<StringHashMap<String>, RpcError>)
    ensures
        match axis_map_spec(pair_views(raw@)) {
            Ok(m) => r matches Ok(v) && text_map(v@) == m,
            Err(msg) => r matches Err(e) && e.status == STATUS_BAD_REQUEST && e.error.code
                == ErrorCode::InvalidArgument && e.error.message@ == msg,
        },
{
    let ghost rv = pair_views(raw@);
    let mut out: StringHashMap<String> = StringHashMap::new();
    let mut k: usize = 0;
    assert(rv.take(0) =~= Seq::<(Seq<char>, Seq<char>)>::empty());
    assert(text_map(out@) =~= Map::<Seq<char>, Seq<char>>::empty());
    while k < raw.len()
        invariant
            k <= raw@.len(),
            rv == pair_views(raw@),
            axis_map_spec(rv.take(k as int)) == Ok::<Map<Seq<char>, Seq<char>>, Seq<char>>(
                text_map(out@),
            ),
        decreases raw.len() - k,
    {
        assert(rv.take(k + 1).drop_last() =~= rv.take(k as int));
        assert(rv.take(k + 1).last() == (raw@[k as int].0@, raw@[k as int].1@));
        let trimmed = trim(raw[k].0.as_str());
        let name = to_lowercase(trimmed.as_str());
        let value = trim(raw[k].1.as_str());
        if name.as_str().is_empty() || value.as_str().is_empty() {
            proof {
                assert(axis_map_spec(rv.take(k + 1)) is Err);
                lemma_axis_map_err_stays(rv, k + 1);
            }
            return Err(
                RpcError::invalid_argument("axis_values.name and axis_values.value are required"),
            );
        }
        if out.contains_key(name.as_str()) {
            proof {
                assert(text_map(out@).contains_key(name@));
                lemma_axis_map_err_stays(rv, k + 1);
            }
            return Err(RpcError::invalid_argument("axis_values contains duplicate axis names"));
        }
        let ghost before = out@;
        let ghost n = name@;
        let ghost v = value@;
        out.insert(name, value);
        assert(text_map(out@) =~= text_map(before).insert(n, v));
        k = k + 1;
    }
    assert(rv.take(raw.len() as int) =~= rv);
    Ok(out)
}

/// Once the map is refused at some prefix, it is refused with the same
/// reason on the whole list.
proof fn lemma_axis_map_err_stays(raw: Seq<(Seq<char>, Seq<char>)>, n: int)
    requires
        0 <= n <= raw.len(),
        axis_map_spec(raw.take(n)) is Err,
    ensures
        axis_map_spec(raw) == axis_map_spec(raw.take(n)),
    decreases raw.len() - n,
{
    if n < raw.len() {
        assert(raw.take(n + 1).drop_last() =~= raw.take(n));
        lemma_axis_map_err_stays(raw, n + 1);
    } else {
        assert(raw.take(n) =~= raw);
    }
}

/// Once the axes are refused at some prefix, they are refused with the
/// same reason on the whole list.
proof fn lemma_axis_resolve_err_stays(
    m: Map<Seq<char>, Seq<char>>,
    axes: Seq<Seq<char>>,
    n: int,
)
    requires
        0 <= n <= axes.len(),
        axis_resolve_spec(m, axes.take(n)) is Err,
    ensures
        axis_resolve_spec(m, axes) == axis_resolve_spec(m, axes.take(n)),
    decreases axes.len() - n,
{
    if n < axes.len() {
        assert(axes.take(n + 1).drop_last() =~= axes.take(n));
        lemma_axis_resolve_err_stays(m, axes, n + 1);
    } else {
        assert(axes.take(n) =~= axes);
    }
}

/// The axis values of a new variant: the request's `(name, value)` pairs
/// are keyed by trimmed, lower-cased name and must be non-blank and
/// distinct; they may be given only when the product has axes (`axes`, its
/// axis names in position order), and each axis must get a value. Gives
/// each axis name with its value, in axis order.
pub fn variant_axis_values(raw: &Vec<(String, String)>, axes: &Vec<String>) -> (r: Result<
    Vec<(String, String)>,
    RpcError,
>)
    ensures
        match variant_axis_values_spec(pair_views(raw@), string_views(axes@)) {
            Ok(s) => r matches Ok(v) && pair_views(v@) == s,
            Err(msg) => r matches Err(e) && e.status == STATUS_BAD_REQUEST && e.error.code
                == ErrorCode::InvalidArgument && e.error.message@ == msg,
        },
{
    let map = axis_map(raw)?;
    if axes.len() == 0 && raw.len() > 0 {
        return Err(
            RpcError::invalid_argument("axis_values cannot be set when variant axes are not defined"),
        );
    }
    let ghost m = text_map(map@);
    let ghost av = string_views(axes@);
    assert(axis_map_spec(pair_views(raw@)) == Ok::<Map<Seq<char>, Seq<char>>, Seq<char>>(m));
    let mut out: Vec<(String, String)> = Vec::new();
    let mut k: usize = 0;
    assert(av.take(0) =~= Seq::<Seq<char>>::empty());
    assert(pair_views(out@) =~= Seq::<(Seq<char>, Seq<char>)>::empty());
    while k < axes.len()
        invariant
            k <= axes@.len(),
            av == string_views(axes@),
            m == text_map(map@),
            axis_map_spec(pair_views(raw@)) == Ok::<Map<Seq<char>, Seq<char>>, Seq<char>>(m),
            axes@.len() == 0 ==> raw@.len() == 0,
            axis_resolve_spec(m, av.take(k as int)) == Ok::<
                Seq<(Seq<char>, Seq<char>)>,
                Seq<char>,
            >(pair_views(out@)),
        decreases axes.len() - k,
    {
        assert(av.take(k + 1).drop_last() =~= av.take(k as int));
        assert(av.take(k + 1).last() == axes@[k as int]@);
        let trimmed = trim(axes[k].as_str());
        let key = to_lowercase(trimmed.as_str());
        let value = match map.get(key.as_str()) {
            Some(v) => to_owned(v.as_str()),
            None => String::new(),
        };
        assert(value@ == lookup(m, axis_key(av[k as int])));
        if value.as_str().is_empty() {
            let message = concat("axis value is required for ", axes[k].as_str());
            proof {
                assert(axis_resolve_spec(m, av.take(k + 1)) == Err::<
                    Seq<(Seq<char>, Seq<char>)>,
                    Seq<char>,
                >("axis value is required for "@ + av[k as int]));
                lemma_axis_resolve_err_stays(m, av, k + 1);
                assert(message@ == "axis value is required for "@ + av[k as int]);
                assert(variant_axis_values_spec(pair_views(raw@), av) == Err::<
                    Seq<(Seq<char>, Seq<char>)>,
                    Seq<char>,
                >("axis value is required for "@ + av[k as int]));
            }
            return Err(RpcError::invalid_argument(message.as_str()));
        }
        let ghost before = out@;
        out.push((to_owned(axes[k].as_str()), value));
        assert(pair_views(out@) =~= pair_views(before).push((av[k as int], lookup(m, axis_key(av[k as int])))));
        k = k + 1;
    }
    assert(av.take(axes.len() as int) =~= av);
    Ok(out)
}

} // verus!
