//! The audit log's actions and the action types they are reported with.
use vstd::prelude::*;

verus! {

/// Something a staff member or the system did that the audit log records.
#[derive(Debug, Clone, Copy, PartialEq, Eq)]
pub enum AuditAction {
    ProductCreate,
    ProductUpdate,
    VariantCreate,
    VariantUpdate,
    InventorySet,
    StoreSettingsUpdate,
    StoreSettingsInitialize,
    MallSettingsInitialize,
    MallSettingsUpdate,
    StoreLocationUpsert,
    StoreLocationDelete,
    ShippingZoneUpsert,
    ShippingZoneDelete,
    ShippingRateUpsert,
    ShippingRateDelete,
    TaxRuleUpsert,
    TaxRuleDelete,
    PromotionCreate,
    PromotionUpdate,
    OrderUpdateStatus,
    ShipmentCreate,
    ShipmentUpdateStatus,
    IdentitySignIn,
    IdentitySignOut,
    IdentityStaffCreate,
    IdentityStaffUpdate,
    IdentityStaffInvite,
    IdentityRoleCreate,
    IdentityRoleAssign,
    IdentityRoleUpdate,
    IdentityRoleDelete,
    IdentityOwnerTransfer,
    CustomerCreate,
    CustomerUpdate,
    CustomerIdentityUpsert,
    CustomerAddressUpsert,
}

/// The action type an audit entry is reported with.
#[derive(Debug, Clone, Copy, PartialEq, Eq)]
pub enum AuditActionType {
    AuditActionProductCreate,
    AuditActionProductUpdate,
    AuditActionVariantCreate,
    AuditActionVariantUpdate,
    AuditActionInventorySet,
    AuditActionStoreSettingsUpdate,
    AuditActionStoreSettingsInitialize,
    AuditActionMallSettingsInitialize,
    AuditActionMallSettingsUpdate,
    AuditActionStoreLocationUpsert,
    AuditActionStoreLocationDelete,
    AuditActionShippingZoneUpsert,
    AuditActionShippingZoneDelete,
    AuditActionShippingRateUpsert,
    AuditActionShippingRateDelete,
    AuditActionTaxRuleUpsert,
    AuditActionTaxRuleDelete,
    AuditActionPromotionCreate,
    AuditActionPromotionUpdate,
    AuditActionOrderUpdateStatus,
    AuditActionShipmentCreate,
    AuditActionShipmentUpdateStatus,
    AuditActionIdentitySignIn,
    AuditActionIdentitySignOut,
    AuditActionIdentityStaffCreate,
    AuditActionIdentityStaffUpdate,
    AuditActionIdentityStaffInvite,
    AuditActionIdentityRoleCreate,
    AuditActionIdentityRoleAssign,
    AuditActionIdentityRoleUpdate,
    AuditActionIdentityRoleDelete,
    AuditActionIdentityOwnerTransfer,
    AuditActionCustomerCreate,
    AuditActionCustomerUpdate,
    AuditActionCustomerIdentityUpsert,
    AuditActionCustomerAddressUpsert,
}

/// The type each action is reported with.
pub open spec fn action_type_spec(action: AuditAction) -> AuditActionType {
    match action {
        AuditAction::ProductCreate => AuditActionType::AuditActionProductCreate,
        AuditAction::ProductUpdate => AuditActionType::AuditActionProductUpdate,
        AuditAction::VariantCreate => AuditActionType::AuditActionVariantCreate,
        AuditAction::VariantUpdate => AuditActionType::AuditActionVariantUpdate,
        AuditAction::InventorySet => AuditActionType::AuditActionInventorySet,
        AuditAction::StoreSettingsUpdate => AuditActionType::AuditActionStoreSettingsUpdate,
        AuditAction::StoreSettingsInitialize => AuditActionType::AuditActionStoreSettingsInitialize,
        AuditAction::MallSettingsInitialize => AuditActionType::AuditActionMallSettingsInitialize,
        AuditAction::MallSettingsUpdate => AuditActionType::AuditActionMallSettingsUpdate,
        AuditAction::StoreLocationUpsert => AuditActionType::AuditActionStoreLocationUpsert,
        AuditAction::StoreLocationDelete => AuditActionType::AuditActionStoreLocationDelete,
        AuditAction::ShippingZoneUpsert => AuditActionType::AuditActionShippingZoneUpsert,
        AuditAction::ShippingZoneDelete => AuditActionType::AuditActionShippingZoneDelete,
        AuditAction::ShippingRateUpsert => AuditActionType::AuditActionShippingRateUpsert,
        AuditAction::ShippingRateDelete => AuditActionType::AuditActionShippingRateDelete,
        AuditAction::TaxRuleUpsert => AuditActionType::AuditActionTaxRuleUpsert,
        AuditAction::TaxRuleDelete => AuditActionType::AuditActionTaxRuleDelete,
        AuditAction::PromotionCreate => AuditActionType::AuditActionPromotionCreate,
        AuditAction::PromotionUpdate => AuditActionType::AuditActionPromotionUpdate,
        AuditAction::OrderUpdateStatus => AuditActionType::AuditActionOrderUpdateStatus,
        AuditAction::ShipmentCreate => AuditActionType::AuditActionShipmentCreate,
        AuditAction::ShipmentUpdateStatus => AuditActionType::AuditActionShipmentUpdateStatus,
        AuditAction::IdentitySignIn => AuditActionType::AuditActionIdentitySignIn,
        AuditAction::IdentitySignOut => AuditActionType::AuditActionIdentitySignOut,
        AuditAction::IdentityStaffCreate => AuditActionType::AuditActionIdentityStaffCreate,
        AuditAction::IdentityStaffUpdate => AuditActionType::AuditActionIdentityStaffUpdate,
        AuditAction::IdentityStaffInvite => AuditActionType::AuditActionIdentityStaffInvite,
        AuditAction::IdentityRoleCreate => AuditActionType::AuditActionIdentityRoleCreate,
        AuditAction::IdentityRoleAssign => AuditActionType::AuditActionIdentityRoleAssign,
        AuditAction::IdentityRoleUpdate => AuditActionType::AuditActionIdentityRoleUpdate,
        AuditAction::IdentityRoleDelete => AuditActionType::AuditActionIdentityRoleDelete,
        AuditAction::IdentityOwnerTransfer => AuditActionType::AuditActionIdentityOwnerTransfer,
        AuditAction::CustomerCreate => AuditActionType::AuditActionCustomerCreate,
        AuditAction::CustomerUpdate => AuditActionType::AuditActionCustomerUpdate,
        AuditAction::CustomerIdentityUpsert => AuditActionType::AuditActionCustomerIdentityUpsert,
        AuditAction::CustomerAddressUpsert => AuditActionType::AuditActionCustomerAddressUpsert,
    }
}

/// The type an action is reported with.
pub fn audit_action_type(action: AuditAction) -> (r: AuditActionType)
    ensures
        r == action_type_spec(action),
{
    match action {
        AuditAction::ProductCreate => AuditActionType::AuditActionProductCreate,
        AuditAction::ProductUpdate => AuditActionType::AuditActionProductUpdate,
        AuditAction::VariantCreate => AuditActionType::AuditActionVariantCreate,
        AuditAction::VariantUpdate => AuditActionType::AuditActionVariantUpdate,
        AuditAction::InventorySet => AuditActionType::AuditActionInventorySet,
        AuditAction::StoreSettingsUpdate => AuditActionType::AuditActionStoreSettingsUpdate,
        AuditAction::StoreSettingsInitialize => AuditActionType::AuditActionStoreSettingsInitialize,
        AuditAction::MallSettingsInitialize => AuditActionType::AuditActionMallSettingsInitialize,
        AuditAction::MallSettingsUpdate => AuditActionType::AuditActionMallSettingsUpdate,
        AuditAction::StoreLocationUpsert => AuditActionType::AuditActionStoreLocationUpsert,
        AuditAction::StoreLocationDelete => AuditActionType::AuditActionStoreLocationDelete,
        AuditAction::ShippingZoneUpsert => AuditActionType::AuditActionShippingZoneUpsert,
        AuditAction::ShippingZoneDelete => AuditActionType::AuditActionShippingZoneDelete,
        AuditAction::ShippingRateUpsert => AuditActionType::AuditActionShippingRateUpsert,
        AuditAction::ShippingRateDelete => AuditActionType::AuditActionShippingRateDelete,
        AuditAction::TaxRuleUpsert => AuditActionType::AuditActionTaxRuleUpsert,
        AuditAction::TaxRuleDelete => AuditActionType::AuditActionTaxRuleDelete,
        AuditAction::PromotionCreate => AuditActionType::AuditActionPromotionCreate,
        AuditAction::PromotionUpdate => AuditActionType::AuditActionPromotionUpdate,
        AuditAction::OrderUpdateStatus => AuditActionType::AuditActionOrderUpdateStatus,
        AuditAction::ShipmentCreate => AuditActionType::AuditActionShipmentCreate,
        AuditAction::ShipmentUpdateStatus => AuditActionType::AuditActionShipmentUpdateStatus,
        AuditAction::IdentitySignIn => AuditActionType::AuditActionIdentitySignIn,
        AuditAction::IdentitySignOut => AuditActionType::AuditActionIdentitySignOut,
        AuditAction::IdentityStaffCreate => AuditActionType::AuditActionIdentityStaffCreate,
        AuditAction::IdentityStaffUpdate => AuditActionType::AuditActionIdentityStaffUpdate,
        AuditAction::IdentityStaffInvite => AuditActionType::AuditActionIdentityStaffInvite,
        AuditAction::IdentityRoleCreate => AuditActionType::AuditActionIdentityRoleCreate,
        AuditAction::IdentityRoleAssign => AuditActionType::AuditActionIdentityRoleAssign,
        AuditAction::IdentityRoleUpdate => AuditActionType::AuditActionIdentityRoleUpdate,
        AuditAction::IdentityRoleDelete => AuditActionType::AuditActionIdentityRoleDelete,
        AuditAction::IdentityOwnerTransfer => AuditActionType::AuditActionIdentityOwnerTransfer,
        AuditAction::CustomerCreate => AuditActionType::AuditActionCustomerCreate,
        AuditAction::CustomerUpdate => AuditActionType::AuditActionCustomerUpdate,
        AuditAction::CustomerIdentityUpsert => AuditActionType::AuditActionCustomerIdentityUpsert,
        AuditAction::CustomerAddressUpsert => AuditActionType::AuditActionCustomerAddressUpsert,
    }
}

/// No two actions are reported with the same type.
pub proof fn lemma_action_types_distinct(a: AuditAction, b: AuditAction)
    ensures
        action_type_spec(a) == action_type_spec(b) ==> a == b,
{
}

} // verus!
