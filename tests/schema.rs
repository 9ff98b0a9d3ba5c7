use nldl::ctrl::ControllerAttribute;
use nldl::ctrl::ControllerAttributeMulticastGroup;
use nldl::ctrl::ControllerAttributeOperation;
use nldl::attr::Nested;
use nldl::family::Family;
use nldl::family::FamilyMulticastGroup;
use nldl::family::FamilyOperation;
use nldl::family::MissingFamilyAttributeError;
use nldl::family::MissingFamilyMulticastGroupError;
use nldl::family::MissingFamilyOperationAttributeError;
use nldl::schema::check_schema;
use nldl::schema::NetlinkAttributeKindFromVariantError;
use nldl::schema::NlaType;
use nldl::schema::PartitionedAttributeKinds;
use nldl::schema::Schema;
use nldl::schema::SchemaError;
use nldl::schema::VariantDecl;

fn id(ty: u16, num_fields: usize) -> VariantDecl {
    VariantDecl { nla_type: Some(NlaType::Id(ty)), num_fields }
}

fn wildcard() -> VariantDecl {
    VariantDecl { nla_type: Some(NlaType::Wildcard), num_fields: 1 }
}

#[test]
fn controller_schemas_pass_the_checks() {
    assert!(check_schema(&ControllerAttribute::variants(), true).is_ok());
    assert!(check_schema(&ControllerAttributeOperation::variants(), true).is_ok());
    assert!(check_schema(&ControllerAttributeMulticastGroup::variants(), true).is_ok());
}

#[test]
fn duplicate_type_id_is_refused() {
    let variants = vec![id(0, 0), id(1, 1), id(1, 1), wildcard()];
    assert_eq!(
        check_schema(&variants, true).unwrap_err(),
        SchemaError::DuplicateTypeId { ty: 1 }
    );
    assert_eq!(
        check_schema(&variants, false).unwrap_err(),
        SchemaError::DuplicateTypeId { ty: 1 }
    );
}

#[test]
fn missing_wildcard_is_refused_only_for_decoding() {
    let variants = vec![id(0, 0), id(1, 1)];
    assert_eq!(check_schema(&variants, true).unwrap_err(), SchemaError::MissingWildcard);
    assert!(check_schema(&variants, false).is_ok());
}

#[test]
fn two_wildcards_are_refused() {
    let variants = vec![id(0, 0), wildcard(), wildcard()];
    assert_eq!(
        check_schema(&variants, false).unwrap_err(),
        SchemaError::MultipleWildcards { count: 2 }
    );
}

#[test]
fn unannotated_variant_is_refused() {
    let variants = vec![id(0, 0), VariantDecl { nla_type: None, num_fields: 1 }, wildcard()];
    assert_eq!(check_schema(&variants, true).unwrap_err(), SchemaError::Unmarked { index: 1 });
}

#[test]
fn variant_with_two_values_is_refused() {
    let variants = vec![id(0, 0), id(1, 2), wildcard()];
    assert_eq!(
        check_schema(&variants, true).unwrap_err(),
        SchemaError::Variant(NetlinkAttributeKindFromVariantError::MultipleAssociatedValues {
            index: 1
        })
    );
}

#[test]
fn partition_sorts_by_kind() {
    let variants = vec![id(0, 0), id(1, 1), VariantDecl { nla_type: None, num_fields: 0 }, wildcard()];
    let p = PartitionedAttributeKinds::from(&variants).unwrap();
    assert_eq!(p.none.len(), 1);
    assert_eq!(p.some.len(), 1);
    assert_eq!(p.some[0].ty, 1);
    assert_eq!(p.unmarked[0].index, 2);
    assert_eq!(p.unknown[0].index, 3);
}

fn family_attrs() -> Vec<ControllerAttribute> {
    vec![
        ControllerAttribute::FamilyName("acpi_event".to_string()),
        ControllerAttribute::FamilyId(24),
        ControllerAttribute::Version(1),
        ControllerAttribute::HeaderSize(0),
        ControllerAttribute::MaxAttr(1),
        ControllerAttribute::MulticastGroups(vec![Nested(vec![
            ControllerAttributeMulticastGroup::Id(3),
            ControllerAttributeMulticastGroup::Name("acpi_mc_group".to_string()),
        ])]),
    ]
}

#[test]
fn family_from_attributes() {
    let family = Family::try_from(family_attrs()).unwrap();
    assert_eq!(
        family,
        Family {
            family_id: 24,
            family_name: "acpi_event".to_string(),
            version: 1,
            header_size: 0,
            max_attr: 1,
            operations: vec![],
            multicast_groups: vec![FamilyMulticastGroup { name: "acpi_mc_group".to_string(), id: 3 }],
        }
    );
}

#[test]
fn family_takes_the_last_of_repeated_attributes() {
    let mut attrs = family_attrs();
    attrs.push(ControllerAttribute::FamilyId(25));
    assert_eq!(Family::try_from(attrs).unwrap().family_id, 25);
}

#[test]
fn family_without_id_is_refused() {
    let mut attrs = family_attrs();
    attrs.remove(1);
    assert_eq!(
        Family::try_from(attrs).unwrap_err(),
        MissingFamilyAttributeError::MissingFamilyAttribute
    );
}

#[test]
fn family_with_incomplete_operation_is_refused() {
    let mut attrs = family_attrs();
    attrs.push(ControllerAttribute::Operations(vec![Nested(vec![
        ControllerAttributeOperation::Id(1),
    ])]));
    assert_eq!(
        Family::try_from(attrs).unwrap_err(),
        MissingFamilyAttributeError::MissingOperationAttribute(MissingFamilyOperationAttributeError)
    );
}

#[test]
fn family_with_incomplete_group_is_refused() {
    let mut attrs = family_attrs();
    attrs.push(ControllerAttribute::MulticastGroups(vec![Nested(vec![
        ControllerAttributeMulticastGroup::Id(1),
    ])]));
    assert_eq!(
        Family::try_from(attrs).unwrap_err(),
        MissingFamilyAttributeError::MissingMulticastGroupAttribute(MissingFamilyMulticastGroupError)
    );
}

#[test]
fn operation_from_attributes() {
    let op = FamilyOperation::try_from(vec![
        ControllerAttributeOperation::Flags(11),
        ControllerAttributeOperation::Unspec,
        ControllerAttributeOperation::Id(4),
    ])
    .unwrap();
    assert_eq!(op, FamilyOperation { id: 4, flags: 11 });
    assert_eq!(
        MissingFamilyOperationAttributeError.to_string(),
        "Missing family operation attribute"
    );
}
