//! Which permission guards each RPC route: storefront, setup and sign-in
//! routes are open; the back office, customer and settings routes need the
//! read key of their area to list or get and its write key to change; staff
//! routes need the staff key and audit routes the audit key.
use vstd::prelude::*;
use crate::text::{
    before_char, chars_of, find_char, find_char_in, lemma_find_char_bounds, starts_with,
    starts_with_seq, str_eq, string_from_range, strip_prefix,
};

verus! {

/// A permission a staff member's role may hold.
#[derive(Debug, Clone, Copy, PartialEq, Eq)]
pub enum PermissionKey {
    CatalogRead,
    CatalogWrite,
    OrdersRead,
    OrdersWrite,
    PromotionsWrite,
    CustomersRead,
    CustomersWrite,
    SettingsRead,
    SettingsWrite,
    StaffManage,
    AuditRead,
}

/// The area a route belongs to, which decides its permission.
#[derive(Debug, Clone, Copy, PartialEq, Eq)]
pub enum RouteArea {
    Public,
    Catalog,
    Orders,
    Promotions,
    Customers,
    Settings,
    Staff,
    Audit,
}

/// The start of every RPC route's path; the service, `/` and the method
/// follow.
pub open spec fn route_prefix() -> Seq<char> {
    "/rpc/ecommerce.v1."@
}

/// The service and method a path names, when it is an RPC route's path.
pub open spec fn route_parts(path: Seq<char>) -> Option<(Seq<char>, Seq<char>)> {
    if starts_with_seq(path, route_prefix()) {
        let rest = path.subrange(route_prefix().len() as int, path.len() as int);
        let i = find_char(rest, '/');
        if i < rest.len() {
            Some((before_char(rest, '/'), rest.subrange(i + 1, rest.len() as int)))
        } else {
            None
        }
    } else {
        None
    }
}

/// A method that reads: its name starts with `List` or `Get`.
pub open spec fn read_verb(method: Seq<char>) -> bool {
    starts_with_seq(method, "List"@) || starts_with_seq(method, "Get"@)
}

/// A method that changes: its name starts with `Create`, `Update`, `Set`,
/// `Upsert`, `Delete` or `Initialize`.
pub open spec fn write_verb(method: Seq<char>) -> bool {
    ||| starts_with_seq(method, "Create"@)
    ||| starts_with_seq(method, "Update"@)
    ||| starts_with_seq(method, "Set"@)
    ||| starts_with_seq(method, "Upsert"@)
    ||| starts_with_seq(method, "Delete"@)
    ||| starts_with_seq(method, "Initialize"@)
}

/// The permission a method of an area needs: none for open routes, the
/// staff or audit key for those areas, else the area's read key to read and
/// its write key to change.
pub open spec fn permission_for(area: RouteArea, method: Seq<char>) -> Option<PermissionKey> {
    match area {
        RouteArea::Public => None,
        RouteArea::Staff => Some(PermissionKey::StaffManage),
        RouteArea::Audit => Some(PermissionKey::AuditRead),
        RouteArea::Catalog => if read_verb(method) {
            Some(PermissionKey::CatalogRead)
        } else if write_verb(method) {
            Some(PermissionKey::CatalogWrite)
        } else {
            None
        },
        RouteArea::Orders => if read_verb(method) {
            Some(PermissionKey::OrdersRead)
        } else if write_verb(method) {
            Some(PermissionKey::OrdersWrite)
        } else {
            None
        },
        RouteArea::Promotions => if write_verb(method) {
            Some(PermissionKey::PromotionsWrite)
        } else {
            None
        },
        RouteArea::Customers => if read_verb(method) {
            Some(PermissionKey::CustomersRead)
        } else if write_verb(method) {
            Some(PermissionKey::CustomersWrite)
        } else {
            None
        },
        RouteArea::Settings => if read_verb(method) {
            Some(PermissionKey::SettingsRead)
        } else if write_verb(method) {
            Some(PermissionKey::SettingsWrite)
        } else {
            None
        },
    }
}

/// The area of each route the server has, by service and method; none for
/// a path the server does not serve.
pub open spec fn route_area_spec(service: Seq<char>, method: Seq<char>) -> Option<RouteArea> {
    if service == "StorefrontService"@ {
        if method == "ListProducts"@ {
            Some(RouteArea::Public)
        } else if method == "GetProduct"@ {
            Some(RouteArea::Public)
        } else if method == "SearchProducts"@ {
            Some(RouteArea::Public)
        } else if method == "CreateCart"@ {
            Some(RouteArea::Public)
        } else if method == "AddCartItem"@ {
            Some(RouteArea::Public)
        } else if method == "UpdateCartItem"@ {
            Some(RouteArea::Public)
        } else if method == "RemoveCartItem"@ {
            Some(RouteArea::Public)
        } else if method == "GetCart"@ {
            Some(RouteArea::Public)
        } else if method == "Checkout"@ {
            Some(RouteArea::Public)
        } else if method == "GetOrder"@ {
            Some(RouteArea::Public)
        } else {
            None
        }
    } else if service == "BackofficeService"@ {
        if method == "ListProducts"@ {
            Some(RouteArea::Catalog)
        } else if method == "CreateProduct"@ {
            Some(RouteArea::Catalog)
        } else if method == "UpdateProduct"@ {
            Some(RouteArea::Catalog)
        } else if method == "ListVariants"@ {
            Some(RouteArea::Catalog)
        } else if method == "CreateVariant"@ {
            Some(RouteArea::Catalog)
        } else if method == "UpdateVariant"@ {
            Some(RouteArea::Catalog)
        } else if method == "SetInventory"@ {
            Some(RouteArea::Catalog)
        } else if method == "ListOrders"@ {
            Some(RouteArea::Orders)
        } else if method == "UpdateOrderStatus"@ {
            Some(RouteArea::Orders)
        } else if method == "CreateShipment"@ {
            Some(RouteArea::Orders)
        } else if method == "UpdateShipmentStatus"@ {
            Some(RouteArea::Orders)
        } else if method == "CreatePromotion"@ {
            Some(RouteArea::Promotions)
        } else if method == "UpdatePromotion"@ {
            Some(RouteArea::Promotions)
        } else {
            None
        }
    } else if service == "CustomerService"@ {
        if method == "ListCustomers"@ {
            Some(RouteArea::Customers)
        } else if method == "GetCustomer"@ {
            Some(RouteArea::Customers)
        } else if method == "CreateCustomer"@ {
            Some(RouteArea::Customers)
        } else if method == "UpdateCustomer"@ {
            Some(RouteArea::Customers)
        } else if method == "UpsertCustomerIdentity"@ {
            Some(RouteArea::Customers)
        } else if method == "UpsertCustomerAddress"@ {
            Some(RouteArea::Customers)
        } else {
            None
        }
    } else if service == "StoreSettingsService"@ {
        if method == "GetStoreSettings"@ {
            Some(RouteArea::Settings)
        } else if method == "UpdateStoreSettings"@ {
            Some(RouteArea::Settings)
        } else if method == "InitializeStoreSettings"@ {
            Some(RouteArea::Settings)
        } else if method == "GetMallSettings"@ {
            Some(RouteArea::Settings)
        } else if method == "UpdateMallSettings"@ {
            Some(RouteArea::Settings)
        } else if method == "ListStoreLocations"@ {
            Some(RouteArea::Settings)
        } else if method == "UpsertStoreLocation"@ {
            Some(RouteArea::Settings)
        } else if method == "DeleteStoreLocation"@ {
            Some(RouteArea::Settings)
        } else if method == "ListShippingZones"@ {
            Some(RouteArea::Settings)
        } else if method == "UpsertShippingZone"@ {
            Some(RouteArea::Settings)
        } else if method == "DeleteShippingZone"@ {
            Some(RouteArea::Settings)
        } else if method == "ListShippingRates"@ {
            Some(RouteArea::Settings)
        } else if method == "UpsertShippingRate"@ {
            Some(RouteArea::Settings)
        } else if method == "DeleteShippingRate"@ {
            Some(RouteArea::Settings)
        } else if method == "ListTaxRules"@ {
            Some(RouteArea::Settings)
        } else if method == "UpsertTaxRule"@ {
            Some(RouteArea::Settings)
        } else if method == "DeleteTaxRule"@ {
            Some(RouteArea::Settings)
        } else {
            None
        }
    } else if service == "SetupService"@ {
        if method == "InitializeStore"@ {
            Some(RouteArea::Public)
        } else if method == "ValidateStoreCode"@ {
            Some(RouteArea::Public)
        } else {
            None
        }
    } else if service == "IdentityService"@ {
        if method == "SignIn"@ {
            Some(RouteArea::Public)
        } else if method == "SignOut"@ {
            Some(RouteArea::Public)
        } else if method == "CreateStaff"@ {
            Some(RouteArea::Staff)
        } else if method == "CreateRole"@ {
            Some(RouteArea::Staff)
        } else if method == "AssignRoleToStaff"@ {
            Some(RouteArea::Staff)
        } else if method == "ListRoles"@ {
            Some(RouteArea::Staff)
        } else if method == "ListRolesWithPermissions"@ {
            Some(RouteArea::Staff)
        } else if method == "UpdateRole"@ {
            Some(RouteArea::Staff)
        } else if method == "DeleteRole"@ {
            Some(RouteArea::Staff)
        } else if method == "ListStaff"@ {
            Some(RouteArea::Staff)
        } else if method == "UpdateStaff"@ {
            Some(RouteArea::Staff)
        } else if method == "InviteStaff"@ {
            Some(RouteArea::Staff)
        } else if method == "TransferOwner"@ {
            Some(RouteArea::Staff)
        } else {
            None
        }
    } else if service == "AuditService"@ {
        if method == "ListAuditLogs"@ {
            Some(RouteArea::Audit)
        } else if method == "ListAuditActions"@ {
            Some(RouteArea::Audit)
        } else {
            None
        }
    } else {
        None
    }
}

/// The permission a request to `path` needs; none for open routes and for
/// paths the server does not serve.
pub open spec fn route_permission_spec(path: Seq<char>) -> Option<PermissionKey> {
    match route_parts(path) {
        Some((service, method)) => match route_area_spec(service, method) {
            Some(area) => permission_for(area, method),
            None => None,
        },
        None => None,
    }
}

/// The area of a route, by service and method.
pub fn route_area(service: &str, method: &str) -> (r: Option<RouteArea>)
    ensures
        r == route_area_spec(service@, method@),
{
    if str_eq(service, "StorefrontService") {
        if str_eq(method, "ListProducts") {
            Some(RouteArea::Public)
        } else if str_eq(method, "GetProduct") {
            Some(RouteArea::Public)
        } else if str_eq(method, "SearchProducts") {
            Some(RouteArea::Public)
        } else if str_eq(method, "CreateCart") {
            Some(RouteArea::Public)
        } else if str_eq(method, "AddCartItem") {
            Some(RouteArea::Public)
        } else if str_eq(method, "UpdateCartItem") {
            Some(RouteArea::Public)
        } else if str_eq(method, "RemoveCartItem") {
            Some(RouteArea::Public)
        } else if str_eq(method, "GetCart") {
            Some(RouteArea::Public)
        } else if str_eq(method, "Checkout") {
            Some(RouteArea::Public)
        } else if str_eq(method, "GetOrder") {
            Some(RouteArea::Public)
        } else {
            None
        }
    } else if str_eq(service, "BackofficeService") {
        if str_eq(method, "ListProducts") {
            Some(RouteArea::Catalog)
        } else if str_eq(method, "CreateProduct") {
            Some(RouteArea::Catalog)
        } else if str_eq(method, "UpdateProduct") {
            Some(RouteArea::Catalog)
        } else if str_eq(method, "ListVariants") {
            Some(RouteArea::Catalog)
        } else if str_eq(method, "CreateVariant") {
            Some(RouteArea::Catalog)
        } else if str_eq(method, "UpdateVariant") {
            Some(RouteArea::Catalog)
        } else if str_eq(method, "SetInventory") {
            Some(RouteArea::Catalog)
        } else if str_eq(method, "ListOrders") {
            Some(RouteArea::Orders)
        } else if str_eq(method, "UpdateOrderStatus") {
            Some(RouteArea::Orders)
        } else if str_eq(method, "CreateShipment") {
            Some(RouteArea::Orders)
        } else if str_eq(method, "UpdateShipmentStatus") {
            Some(RouteArea::Orders)
        } else if str_eq(method, "CreatePromotion") {
            Some(RouteArea::Promotions)
        } else if str_eq(method, "UpdatePromotion") {
            Some(RouteArea::Promotions)
        } else {
            None
        }
    } else if str_eq(service, "CustomerService") {
        if str_eq(method, "ListCustomers") {
            Some(RouteArea::Customers)
        } else if str_eq(method, "GetCustomer") {
            Some(RouteArea::Customers)
        } else if str_eq(method, "CreateCustomer") {
            Some(RouteArea::Customers)
        } else if str_eq(method, "UpdateCustomer") {
            Some(RouteArea::Customers)
        } else if str_eq(method, "UpsertCustomerIdentity") {
            Some(RouteArea::Customers)
        } else if str_eq(method, "UpsertCustomerAddress") {
            Some(RouteArea::Customers)
        } else {
            None
        }
    } else if str_eq(service, "StoreSettingsService") {
        if str_eq(method, "GetStoreSettings") {
            Some(RouteArea::Settings)
        } else if str_eq(method, "UpdateStoreSettings") {
            Some(RouteArea::Settings)
        } else if str_eq(method, "InitializeStoreSettings") {
            Some(RouteArea::Settings)
        } else if str_eq(method, "GetMallSettings") {
            Some(RouteArea::Settings)
        } else if str_eq(method, "UpdateMallSettings") {
            Some(RouteArea::Settings)
        } else if str_eq(method, "ListStoreLocations") {
            Some(RouteArea::Settings)
        } else if str_eq(method, "UpsertStoreLocation") {
            Some(RouteArea::Settings)
        } else if str_eq(method, "DeleteStoreLocation") {
            Some(RouteArea::Settings)
        } else if str_eq(method, "ListShippingZones") {
            Some(RouteArea::Settings)
        } else if str_eq(method, "UpsertShippingZone") {
            Some(RouteArea::Settings)
        } else if str_eq(method, "DeleteShippingZone") {
            Some(RouteArea::Settings)
        } else if str_eq(method, "ListShippingRates") {
            Some(RouteArea::Settings)
        } else if str_eq(method, "UpsertShippingRate") {
            Some(RouteArea::Settings)
        } else if str_eq(method, "DeleteShippingRate") {
            Some(RouteArea::Settings)
        } else if str_eq(method, "ListTaxRules") {
            Some(RouteArea::Settings)
        } else if str_eq(method, "UpsertTaxRule") {
            Some(RouteArea::Settings)
        } else if str_eq(method, "DeleteTaxRule") {
            Some(RouteArea::Settings)
        } else {
            None
        }
    } else if str_eq(service, "SetupService") {
        if str_eq(method, "InitializeStore") {
            Some(RouteArea::Public)
        } else if str_eq(method, "ValidateStoreCode") {
            Some(RouteArea::Public)
        } else {
            None
        }
    } else if str_eq(service, "IdentityService") {
        if str_eq(method, "SignIn") {
            Some(RouteArea::Public)
        } else if str_eq(method, "SignOut") {
            Some(RouteArea::Public)
        } else if str_eq(method, "CreateStaff") {
            Some(RouteArea::Staff)
        } else if str_eq(method, "CreateRole") {
            Some(RouteArea::Staff)
        } else if str_eq(method, "AssignRoleToStaff") {
            Some(RouteArea::Staff)
        } else if str_eq(method, "ListRoles") {
            Some(RouteArea::Staff)
        } else if str_eq(method, "ListRolesWithPermissions") {
            Some(RouteArea::Staff)
        } else if str_eq(method, "UpdateRole") {
            Some(RouteArea::Staff)
        } else if str_eq(method, "DeleteRole") {
            Some(RouteArea::Staff)
        } else if str_eq(method, "ListStaff") {
            Some(RouteArea::Staff)
        } else if str_eq(method, "UpdateStaff") {
            Some(RouteArea::Staff)
        } else if str_eq(method, "InviteStaff") {
            Some(RouteArea::Staff)
        } else if str_eq(method, "TransferOwner") {
            Some(RouteArea::Staff)
        } else {
            None
        }
    } else if str_eq(service, "AuditService") {
        if str_eq(method, "ListAuditLogs") {
            Some(RouteArea::Audit)
        } else if str_eq(method, "ListAuditActions") {
            Some(RouteArea::Audit)
        } else {
            None
        }
    } else {
        None
    }
}

fn is_read_verb(method: &str) -> (r: bool)
    ensures
        r == read_verb(method@),
{
    starts_with(method, "List") || starts_with(method, "Get")
}

fn is_write_verb(method: &str) -> (r: bool)
    ensures
        r == write_verb(method@),
{
    starts_with(method, "Create") || starts_with(method, "Update") || starts_with(method, "Set")
        || starts_with(method, "Upsert") || starts_with(method, "Delete") || starts_with(
        method,
        "Initialize",
    )
}

fn permission_of(area: RouteArea, method: &str) -> (r: Option<PermissionKey>)
    ensures
        r == permission_for(area, method@),
{
    let read = is_read_verb(method);
    let write = is_write_verb(method);
    match area {
        RouteArea::Public => None,
        RouteArea::Staff => Some(PermissionKey::StaffManage),
        RouteArea::Audit => Some(PermissionKey::AuditRead),
        RouteArea::Catalog => if read {
            Some(PermissionKey::CatalogRead)
        } else if write {
            Some(PermissionKey::CatalogWrite)
        } else {
            None
        },
        RouteArea::Orders => if read {
            Some(PermissionKey::OrdersRead)
        } else if write {
            Some(PermissionKey::OrdersWrite)
        } else {
            None
        },
        RouteArea::Promotions => if write {
            Some(PermissionKey::PromotionsWrite)
        } else {
            None
        },
        RouteArea::Customers => if read {
            Some(PermissionKey::CustomersRead)
        } else if write {
            Some(PermissionKey::CustomersWrite)
        } else {
            None
        },
        RouteArea::Settings => if read {
            Some(PermissionKey::SettingsRead)
        } else if write {
            Some(PermissionKey::SettingsWrite)
        } else {
            None
        },
    }
}

/// The service and method a path names, when it is an RPC route's path.
pub fn split_route(path: &str) -> (r: Option<(String, String)>)
    ensures
        match route_parts(path@) {
            Some((s, m)) => r matches Some(p) && p.0@ == s && p.1@ == m,
            None => r is None,
        },
{
    let rest = match strip_prefix(path, "/rpc/ecommerce.v1.") {
        Some(t) => t,
        None => return None,
    };
    let v = chars_of(rest.as_str());
    proof {
        lemma_find_char_bounds(v@, '/');
    }
    let i = find_char_in(&v, '/');
    if i >= v.len() {
        return None;
    }
    let service = string_from_range(&v, 0, i);
    let method = string_from_range(&v, i + 1, v.len());
    Some((service, method))
}

/// The permission a request to `path` needs; none for open routes and for
/// paths the server does not serve.
pub fn route_permission(path: &str) -> (r: Option<PermissionKey>)
    ensures
        r == route_permission_spec(path@),
{
    match split_route(path) {
        Some((service, method)) => match route_area(service.as_str(), method.as_str()) {
            Some(area) => permission_of(area, method.as_str()),
            None => None,
        },
        None => None,
    }
}

/// The route policy: storefront and setup routes, sign-in and sign-out are
/// open; every other identity route needs `StaffManage` and every audit
/// route `AuditRead`; a read key is only ever needed by a method that
/// starts with `List` or `Get`, and a write key only by one that starts with
/// `Create`, `Update`, `Set`, `Upsert`, `Delete` or `Initialize`.
pub proof fn lemma_route_policy(path: Seq<char>)
    ensures
        route_parts(path) is None ==> route_permission_spec(path) is None,
        route_parts(path) matches Some((s, m)) ==> {
            &&& (s == "StorefrontService"@ || s == "SetupService"@ || (s == "IdentityService"@ && (m
                == "SignIn"@ || m == "SignOut"@))) ==> route_permission_spec(path) is None
            &&& (s == "IdentityService"@ && m != "SignIn"@ && m != "SignOut"@
                && route_area_spec(s, m) is Some) ==> route_permission_spec(path) == Some(
                PermissionKey::StaffManage,
            )
            &&& (s == "AuditService"@ && route_area_spec(s, m) is Some) ==> route_permission_spec(
                path,
            ) == Some(PermissionKey::AuditRead)
            &&& (route_permission_spec(path) == Some(PermissionKey::CatalogRead)
                || route_permission_spec(path) == Some(PermissionKey::OrdersRead)
                || route_permission_spec(path) == Some(PermissionKey::CustomersRead)
                || route_permission_spec(path) == Some(PermissionKey::SettingsRead)) ==> read_verb(m)
            &&& (route_permission_spec(path) == Some(PermissionKey::CatalogWrite)
                || route_permission_spec(path) == Some(PermissionKey::OrdersWrite)
                || route_permission_spec(path) == Some(PermissionKey::PromotionsWrite)
                || route_permission_spec(path) == Some(PermissionKey::CustomersWrite)
                || route_permission_spec(path) == Some(PermissionKey::SettingsWrite)) ==> write_verb(
                m,
            )
        },
{
    reveal_strlit("StorefrontService");
    reveal_strlit("BackofficeService");
    reveal_strlit("CustomerService");
    reveal_strlit("StoreSettingsService");
    reveal_strlit("SetupService");
    reveal_strlit("IdentityService");
    reveal_strlit("AuditService");
    assert("StorefrontService"@.len() == 17);
    assert("BackofficeService"@.len() == 17);
    assert("CustomerService"@.len() == 15);
    assert("StoreSettingsService"@.len() == 20);
    assert("SetupService"@.len() == 12);
    assert("IdentityService"@.len() == 15);
    assert("AuditService"@.len() == 12);
    assert("StorefrontService"@[1] != "BackofficeService"@[1]);
    assert("CustomerService"@[0] != "IdentityService"@[0]);
    assert("SetupService"@[0] != "AuditService"@[0]);
    if let Some((s, m)) = route_parts(path) {
        let a = route_area_spec(s, m);
        assert(s == "SetupService"@ ==> a is None || a == Some(RouteArea::Public));
        assert(s == "StorefrontService"@ ==> a is None || a == Some(RouteArea::Public));
        assert(s == "IdentityService"@ && (m == "SignIn"@ || m == "SignOut"@) ==> a == Some(
            RouteArea::Public,
        ));
        assert(s == "IdentityService"@ && m != "SignIn"@ && m != "SignOut"@ && a is Some ==> a
            == Some(RouteArea::Staff));
        assert(s == "AuditService"@ && a is Some ==> a == Some(RouteArea::Audit));
    }
}

} // verus!
