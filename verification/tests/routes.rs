use rs_ecommerce::routes::{route_permission, split_route, PermissionKey};

#[test]
fn every_route_has_its_permission() {
    let table: Vec<(&str, Option<PermissionKey>)> = vec![
        ("/rpc/ecommerce.v1.StorefrontService/ListProducts", None),
        ("/rpc/ecommerce.v1.StorefrontService/GetProduct", None),
        ("/rpc/ecommerce.v1.StorefrontService/SearchProducts", None),
        ("/rpc/ecommerce.v1.StorefrontService/CreateCart", None),
        ("/rpc/ecommerce.v1.StorefrontService/AddCartItem", None),
        ("/rpc/ecommerce.v1.StorefrontService/UpdateCartItem", None),
        ("/rpc/ecommerce.v1.StorefrontService/RemoveCartItem", None),
        ("/rpc/ecommerce.v1.StorefrontService/GetCart", None),
        ("/rpc/ecommerce.v1.StorefrontService/Checkout", None),
        ("/rpc/ecommerce.v1.StorefrontService/GetOrder", None),
        ("/rpc/ecommerce.v1.BackofficeService/ListProducts", Some(PermissionKey::CatalogRead)),
        ("/rpc/ecommerce.v1.BackofficeService/CreateProduct", Some(PermissionKey::CatalogWrite)),
        ("/rpc/ecommerce.v1.BackofficeService/UpdateProduct", Some(PermissionKey::CatalogWrite)),
        ("/rpc/ecommerce.v1.BackofficeService/ListVariants", Some(PermissionKey::CatalogRead)),
        ("/rpc/ecommerce.v1.BackofficeService/CreateVariant", Some(PermissionKey::CatalogWrite)),
        ("/rpc/ecommerce.v1.BackofficeService/UpdateVariant", Some(PermissionKey::CatalogWrite)),
        ("/rpc/ecommerce.v1.BackofficeService/SetInventory", Some(PermissionKey::CatalogWrite)),
        ("/rpc/ecommerce.v1.BackofficeService/ListOrders", Some(PermissionKey::OrdersRead)),
        ("/rpc/ecommerce.v1.BackofficeService/UpdateOrderStatus", Some(PermissionKey::OrdersWrite)),
        ("/rpc/ecommerce.v1.BackofficeService/CreateShipment", Some(PermissionKey::OrdersWrite)),
        ("/rpc/ecommerce.v1.BackofficeService/UpdateShipmentStatus", Some(PermissionKey::OrdersWrite)),
        ("/rpc/ecommerce.v1.BackofficeService/CreatePromotion", Some(PermissionKey::PromotionsWrite)),
        ("/rpc/ecommerce.v1.BackofficeService/UpdatePromotion", Some(PermissionKey::PromotionsWrite)),
        ("/rpc/ecommerce.v1.CustomerService/ListCustomers", Some(PermissionKey::CustomersRead)),
        ("/rpc/ecommerce.v1.CustomerService/GetCustomer", Some(PermissionKey::CustomersRead)),
        ("/rpc/ecommerce.v1.CustomerService/CreateCustomer", Some(PermissionKey::CustomersWrite)),
        ("/rpc/ecommerce.v1.CustomerService/UpdateCustomer", Some(PermissionKey::CustomersWrite)),
        ("/rpc/ecommerce.v1.CustomerService/UpsertCustomerIdentity", Some(PermissionKey::CustomersWrite)),
        ("/rpc/ecommerce.v1.CustomerService/UpsertCustomerAddress", Some(PermissionKey::CustomersWrite)),
        ("/rpc/ecommerce.v1.StoreSettingsService/GetStoreSettings", Some(PermissionKey::SettingsRead)),
        ("/rpc/ecommerce.v1.StoreSettingsService/UpdateStoreSettings", Some(PermissionKey::SettingsWrite)),
        ("/rpc/ecommerce.v1.StoreSettingsService/InitializeStoreSettings", Some(PermissionKey::SettingsWrite)),
        ("/rpc/ecommerce.v1.StoreSettingsService/GetMallSettings", Some(PermissionKey::SettingsRead)),
        ("/rpc/ecommerce.v1.StoreSettingsService/UpdateMallSettings", Some(PermissionKey::SettingsWrite)),
        ("/rpc/ecommerce.v1.StoreSettingsService/ListStoreLocations", Some(PermissionKey::SettingsRead)),
        ("/rpc/ecommerce.v1.StoreSettingsService/UpsertStoreLocation", Some(PermissionKey::SettingsWrite)),
        ("/rpc/ecommerce.v1.StoreSettingsService/DeleteStoreLocation", Some(PermissionKey::SettingsWrite)),
        ("/rpc/ecommerce.v1.StoreSettingsService/ListShippingZones", Some(PermissionKey::SettingsRead)),
        ("/rpc/ecommerce.v1.StoreSettingsService/UpsertShippingZone", Some(PermissionKey::SettingsWrite)),
        ("/rpc/ecommerce.v1.StoreSettingsService/DeleteShippingZone", Some(PermissionKey::SettingsWrite)),
        ("/rpc/ecommerce.v1.StoreSettingsService/ListShippingRates", Some(PermissionKey::SettingsRead)),
        ("/rpc/ecommerce.v1.StoreSettingsService/UpsertShippingRate", Some(PermissionKey::SettingsWrite)),
        ("/rpc/ecommerce.v1.StoreSettingsService/DeleteShippingRate", Some(PermissionKey::SettingsWrite)),
        ("/rpc/ecommerce.v1.StoreSettingsService/ListTaxRules", Some(PermissionKey::SettingsRead)),
        ("/rpc/ecommerce.v1.StoreSettingsService/UpsertTaxRule", Some(PermissionKey::SettingsWrite)),
        ("/rpc/ecommerce.v1.StoreSettingsService/DeleteTaxRule", Some(PermissionKey::SettingsWrite)),
        ("/rpc/ecommerce.v1.SetupService/InitializeStore", None),
        ("/rpc/ecommerce.v1.SetupService/ValidateStoreCode", None),
        ("/rpc/ecommerce.v1.IdentityService/SignIn", None),
        ("/rpc/ecommerce.v1.IdentityService/SignOut", None),
        ("/rpc/ecommerce.v1.IdentityService/CreateStaff", Some(PermissionKey::StaffManage)),
        ("/rpc/ecommerce.v1.IdentityService/CreateRole", Some(PermissionKey::StaffManage)),
        ("/rpc/ecommerce.v1.IdentityService/AssignRoleToStaff", Some(PermissionKey::StaffManage)),
        ("/rpc/ecommerce.v1.IdentityService/ListRoles", Some(PermissionKey::StaffManage)),
        ("/rpc/ecommerce.v1.IdentityService/ListRolesWithPermissions", Some(PermissionKey::StaffManage)),
        ("/rpc/ecommerce.v1.IdentityService/UpdateRole", Some(PermissionKey::StaffManage)),
        ("/rpc/ecommerce.v1.IdentityService/DeleteRole", Some(PermissionKey::StaffManage)),
        ("/rpc/ecommerce.v1.IdentityService/ListStaff", Some(PermissionKey::StaffManage)),
        ("/rpc/ecommerce.v1.IdentityService/UpdateStaff", Some(PermissionKey::StaffManage)),
        ("/rpc/ecommerce.v1.IdentityService/InviteStaff", Some(PermissionKey::StaffManage)),
        ("/rpc/ecommerce.v1.IdentityService/TransferOwner", Some(PermissionKey::StaffManage)),
        ("/rpc/ecommerce.v1.AuditService/ListAuditLogs", Some(PermissionKey::AuditRead)),
        ("/rpc/ecommerce.v1.AuditService/ListAuditActions", Some(PermissionKey::AuditRead)),
    ];
    assert_eq!(table.len(), 63);
    for (path, key) in table {
        assert_eq!(route_permission(path), key, "{path}");
    }
}

#[test]
fn unknown_paths_need_nothing() {
    assert_eq!(route_permission("/rpc/ecommerce.v1.BackofficeService/DropEverything"), None);
    assert_eq!(route_permission("/health"), None);
    assert_eq!(route_permission("/rpc/ecommerce.v1.AuditService"), None);
    assert_eq!(
        split_route("/rpc/ecommerce.v1.AuditService/ListAuditLogs"),
        Some(("AuditService".to_string(), "ListAuditLogs".to_string()))
    );
}
