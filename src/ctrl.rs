//! The attribute schemas of the Generic Netlink controller ("nlctrl").
use crate::attr::AttributeCodec;
use crate::attr::DeserializeError;
use crate::attr::DeserializeErrorSource;
use crate::attr::Deserialize;
use crate::attr::Nested;
use crate::attr::Serialize;
use crate::attr::UnknownAttribute;
use crate::payload::Modeled;
use crate::payload::NetlinkPayloadRequest;
use crate::payload::NetlinkPayloadResponse;
use crate::payload::PayloadCodec;
use crate::schema::declared_in;
use crate::schema::NlaType;
use crate::schema::Schema;
use crate::schema::VariantDecl;
use crate::utils::LengthOverflow;
use vstd::prelude::*;
use vstd::slice::slice_to_vec;

verus! {

/// Controller command: look up one family, or dump all of them.
pub const CTRL_CMD_GETFAMILY: u8 = 3;

pub const CTRL_ATTR_UNSPEC: u16 = 0;

pub const CTRL_ATTR_FAMILY_ID: u16 = 1;

pub const CTRL_ATTR_FAMILY_NAME: u16 = 2;

pub const CTRL_ATTR_VERSION: u16 = 3;

pub const CTRL_ATTR_HDRSIZE: u16 = 4;

pub const CTRL_ATTR_MAXATTR: u16 = 5;

pub const CTRL_ATTR_OPS: u16 = 6;

pub const CTRL_ATTR_MCAST_GROUPS: u16 = 7;

pub const CTRL_ATTR_OP_UNSPEC: u16 = 0;

pub const CTRL_ATTR_OP_ID: u16 = 1;

pub const CTRL_ATTR_OP_FLAGS: u16 = 2;

pub const CTRL_ATTR_MCAST_GRP_UNSPEC: u16 = 0;

pub const CTRL_ATTR_MCAST_GRP_NAME: u16 = 1;

pub const CTRL_ATTR_MCAST_GRP_ID: u16 = 2;

/// The causes a controller attribute can fail with; the shared shape.
pub type ControllerAttributeDeserializeError = DeserializeErrorSource;

/// The causes an operation attribute can fail with; the shared shape.
pub type ControllerAttributeOperationDeserializeError = DeserializeErrorSource;

/// The causes a multicast group attribute can fail with; the shared shape.
pub type ControllerAttributeMulticastGroupDeserializeError = DeserializeErrorSource;

fn attribute_error(name: &'static str, ty: u16, source: DeserializeErrorSource) -> (r:
    DeserializeError)
    ensures
        r.attribute_struct_name == name,
        r.nla_type_id == ty,
        *r.source == source,
{
    DeserializeError { attribute_struct_name: name, nla_type_id: ty, source: Box::new(source) }
}

/// The type ids `ControllerAttributeOperation` declares.
pub open spec fn operation_declares(ty: u16) -> bool {
    ty == CTRL_ATTR_OP_UNSPEC || ty == CTRL_ATTR_OP_ID || ty == CTRL_ATTR_OP_FLAGS
}

/// Attributes of one operation a family supports.
#[derive(Debug, PartialEq, Eq)]
pub enum ControllerAttributeOperation {
    Unspec,
    Id(u32),
    Flags(u32),
    Unknown(UnknownAttribute),
}

/// What a `ControllerAttributeOperation` stands for.
pub enum ControllerAttributeOperationModel {
    Unspec,
    Id(u32),
    Flags(u32),
    Unknown((u16, Seq<u8>)),
}

impl Modeled for ControllerAttributeOperation {
    type Model = ControllerAttributeOperationModel;

    open spec fn model(&self) -> ControllerAttributeOperationModel {
        match self {
            ControllerAttributeOperation::Unspec => ControllerAttributeOperationModel::Unspec,
            ControllerAttributeOperation::Id(v) => ControllerAttributeOperationModel::Id(*v),
            ControllerAttributeOperation::Flags(v) => ControllerAttributeOperationModel::Flags(*v),
            ControllerAttributeOperation::Unknown(u) => ControllerAttributeOperationModel::Unknown(
                u.model(),
            ),
        }
    }
}

impl Serialize for ControllerAttributeOperation {
    open spec fn spec_type_id(&self) -> u16 {
        match self {
            ControllerAttributeOperation::Unspec => CTRL_ATTR_OP_UNSPEC,
            ControllerAttributeOperation::Id(_) => CTRL_ATTR_OP_ID,
            ControllerAttributeOperation::Flags(_) => CTRL_ATTR_OP_FLAGS,
            ControllerAttributeOperation::Unknown(u) => u.ty,
        }
    }

    open spec fn spec_payload(&self) -> Option<Seq<u8>> {
        match self {
            ControllerAttributeOperation::Unspec => Some(seq![]),
            ControllerAttributeOperation::Id(v) => v.spec_serialize(),
            ControllerAttributeOperation::Flags(v) => v.spec_serialize(),
            ControllerAttributeOperation::Unknown(u) => u.spec_payload(),
        }
    }

    fn get_type(&self) -> (r: u16) {
        match self {
            ControllerAttributeOperation::Unspec => CTRL_ATTR_OP_UNSPEC,
            ControllerAttributeOperation::Id(_) => CTRL_ATTR_OP_ID,
            ControllerAttributeOperation::Flags(_) => CTRL_ATTR_OP_FLAGS,
            ControllerAttributeOperation::Unknown(u) => u.get_type(),
        }
    }

    fn serialize_payload(&self, buf: &mut Vec<u8>) -> (r: Result<(), LengthOverflow>) {
        match self {
            ControllerAttributeOperation::Unspec => {
                assert(buf@ =~= buf@ + seq![]);
                Ok(())
            },
            ControllerAttributeOperation::Id(v) => v.serialize(buf),
            ControllerAttributeOperation::Flags(v) => v.serialize(buf),
            ControllerAttributeOperation::Unknown(u) => u.serialize_payload(buf),
        }
    }
}

impl Deserialize for ControllerAttributeOperation {
    open spec fn spec_deserialize(ty: u16, payload: Seq<u8>) -> Option<
        ControllerAttributeOperationModel,
    > {
        if ty == CTRL_ATTR_OP_UNSPEC {
            Some(ControllerAttributeOperationModel::Unspec)
        } else if ty == CTRL_ATTR_OP_ID {
            match <u32 as NetlinkPayloadResponse>::spec_deserialize(payload) {
                Some(v) => Some(ControllerAttributeOperationModel::Id(v)),
                None => None,
            }
        } else if ty == CTRL_ATTR_OP_FLAGS {
            match <u32 as NetlinkPayloadResponse>::spec_deserialize(payload) {
                Some(v) => Some(ControllerAttributeOperationModel::Flags(v)),
                None => None,
            }
        } else {
            Some(ControllerAttributeOperationModel::Unknown((ty, payload)))
        }
    }

    open spec fn spec_deserialize_error(ty: u16, payload: Seq<u8>, e: DeserializeError) -> bool {
        &&& e.attribute_struct_name == "ControllerAttributeOperation"
        &&& e.nla_type_id == ty
        &&& (ty == CTRL_ATTR_OP_ID || ty == CTRL_ATTR_OP_FLAGS)
        &&& *e.source matches DeserializeErrorSource::ParseNlaIntError(ie)
            && <u32 as NetlinkPayloadResponse>::spec_deserialize_error(payload, ie)
    }

    fn deserialize(ty: u16, payload: &[u8]) -> (r: Result<
        ControllerAttributeOperation,
        DeserializeError,
    >) {
        let name = "ControllerAttributeOperation";
        if ty == CTRL_ATTR_OP_UNSPEC {
            Ok(ControllerAttributeOperation::Unspec)
        } else if ty == CTRL_ATTR_OP_ID {
            match <u32 as NetlinkPayloadResponse>::deserialize(payload) {
                Ok(v) => Ok(ControllerAttributeOperation::Id(v)),
                Err(e) => Err(attribute_error(name, ty, DeserializeErrorSource::ParseNlaIntError(e))),
            }
        } else if ty == CTRL_ATTR_OP_FLAGS {
            match <u32 as NetlinkPayloadResponse>::deserialize(payload) {
                Ok(v) => Ok(ControllerAttributeOperation::Flags(v)),
                Err(e) => Err(attribute_error(name, ty, DeserializeErrorSource::ParseNlaIntError(e))),
            }
        } else {
            Ok(
                ControllerAttributeOperation::Unknown(
                    UnknownAttribute { ty, payload: slice_to_vec(payload) },
                ),
            )
        }
    }
}

impl AttributeCodec for ControllerAttributeOperation {
    open spec fn spec_round_trips(&self) -> bool {
        match self {
            ControllerAttributeOperation::Unknown(u) => !operation_declares(u.ty),
            _ => true,
        }
    }

    proof fn lemma_round_trip(v: &Self) {
        match v {
            ControllerAttributeOperation::Id(x) => <u32 as PayloadCodec>::lemma_payload_round_trip(x),
            ControllerAttributeOperation::Flags(x) => <u32 as PayloadCodec>::lemma_payload_round_trip(
                x,
            ),
            _ => {},
        }
    }
}

impl Schema for ControllerAttributeOperation {
    open spec fn spec_declares(ty: u16) -> bool {
        operation_declares(ty)
    }

    open spec fn spec_wildcard(ty: u16, payload: Seq<u8>) -> ControllerAttributeOperationModel {
        ControllerAttributeOperationModel::Unknown((ty, payload))
    }

    proof fn lemma_catch_all(ty: u16, payload: Seq<u8>) {
    }

    fn variants() -> (r: Vec<VariantDecl>) {
        let r = vec![
            VariantDecl { nla_type: Some(NlaType::Id(CTRL_ATTR_OP_UNSPEC)), num_fields: 0 },
            VariantDecl { nla_type: Some(NlaType::Id(CTRL_ATTR_OP_ID)), num_fields: 1 },
            VariantDecl { nla_type: Some(NlaType::Id(CTRL_ATTR_OP_FLAGS)), num_fields: 1 },
            VariantDecl { nla_type: Some(NlaType::Wildcard), num_fields: 1 },
        ];
        assert forall|ty: u16| #[trigger] Self::spec_declares(ty) <==> declared_in(r@, ty) by {
            if Self::spec_declares(ty) {
                if ty == CTRL_ATTR_OP_UNSPEC {
                    assert(r@[0].nla_type == Some(NlaType::Id(ty)));
                } else if ty == CTRL_ATTR_OP_ID {
                    assert(r@[1].nla_type == Some(NlaType::Id(ty)));
                } else {
                    assert(r@[2].nla_type == Some(NlaType::Id(ty)));
                }
            }
        }
        r
    }
}

/// The type ids `ControllerAttributeMulticastGroup` declares.
pub open spec fn multicast_group_declares(ty: u16) -> bool {
    ty == CTRL_ATTR_MCAST_GRP_UNSPEC || ty == CTRL_ATTR_MCAST_GRP_NAME || ty
        == CTRL_ATTR_MCAST_GRP_ID
}

/// Attributes of one multicast group of a family.
#[derive(Debug, PartialEq, Eq)]
pub enum ControllerAttributeMulticastGroup {
    Unspec,
    Name(String),
    Id(u32),
    Unknown(UnknownAttribute),
}

/// What a `ControllerAttributeMulticastGroup` stands for.
pub enum ControllerAttributeMulticastGroupModel {
    Unspec,
    Name(Seq<char>),
    Id(u32),
    Unknown((u16, Seq<u8>)),
}

impl Modeled for ControllerAttributeMulticastGroup {
    type Model = ControllerAttributeMulticastGroupModel;

    open spec fn model(&self) -> ControllerAttributeMulticastGroupModel {
        match self {
            ControllerAttributeMulticastGroup::Unspec => ControllerAttributeMulticastGroupModel::Unspec,
            ControllerAttributeMulticastGroup::Name(v) => ControllerAttributeMulticastGroupModel::Name(
                v@,
            ),
            ControllerAttributeMulticastGroup::Id(v) => ControllerAttributeMulticastGroupModel::Id(*v),
            ControllerAttributeMulticastGroup::Unknown(u) => ControllerAttributeMulticastGroupModel::Unknown(
                u.model(),
            ),
        }
    }
}

impl Serialize for ControllerAttributeMulticastGroup {
    open spec fn spec_type_id(&self) -> u16 {
        match self {
            ControllerAttributeMulticastGroup::Unspec => CTRL_ATTR_MCAST_GRP_UNSPEC,
            ControllerAttributeMulticastGroup::Name(_) => CTRL_ATTR_MCAST_GRP_NAME,
            ControllerAttributeMulticastGroup::Id(_) => CTRL_ATTR_MCAST_GRP_ID,
            ControllerAttributeMulticastGroup::Unknown(u) => u.ty,
        }
    }

    open spec fn spec_payload(&self) -> Option<Seq<u8>> {
        match self {
            ControllerAttributeMulticastGroup::Unspec => Some(seq![]),
            ControllerAttributeMulticastGroup::Name(v) => v.spec_serialize(),
            ControllerAttributeMulticastGroup::Id(v) => v.spec_serialize(),
            ControllerAttributeMulticastGroup::Unknown(u) => u.spec_payload(),
        }
    }

    fn get_type(&self) -> (r: u16) {
        match self {
            ControllerAttributeMulticastGroup::Unspec => CTRL_ATTR_MCAST_GRP_UNSPEC,
            ControllerAttributeMulticastGroup::Name(_) => CTRL_ATTR_MCAST_GRP_NAME,
            ControllerAttributeMulticastGroup::Id(_) => CTRL_ATTR_MCAST_GRP_ID,
            ControllerAttributeMulticastGroup::Unknown(u) => u.get_type(),
        }
    }

    fn serialize_payload(&self, buf: &mut Vec<u8>) -> (r: Result<(), LengthOverflow>) {
        match self {
            ControllerAttributeMulticastGroup::Unspec => {
                assert(buf@ =~= buf@ + seq![]);
                Ok(())
            },
            ControllerAttributeMulticastGroup::Name(v) => v.serialize(buf),
            ControllerAttributeMulticastGroup::Id(v) => v.serialize(buf),
            ControllerAttributeMulticastGroup::Unknown(u) => u.serialize_payload(buf),
        }
    }
}

impl Deserialize for ControllerAttributeMulticastGroup {
    open spec fn spec_deserialize(ty: u16, payload: Seq<u8>) -> Option<
        ControllerAttributeMulticastGroupModel,
    > {
        if ty == CTRL_ATTR_MCAST_GRP_UNSPEC {
            Some(ControllerAttributeMulticastGroupModel::Unspec)
        } else if ty == CTRL_ATTR_MCAST_GRP_NAME {
            match <String as NetlinkPayloadResponse>::spec_deserialize(payload) {
                Some(v) => Some(ControllerAttributeMulticastGroupModel::Name(v)),
                None => None,
            }
        } else if ty == CTRL_ATTR_MCAST_GRP_ID {
            match <u32 as NetlinkPayloadResponse>::spec_deserialize(payload) {
                Some(v) => Some(ControllerAttributeMulticastGroupModel::Id(v)),
                None => None,
            }
        } else {
            Some(ControllerAttributeMulticastGroupModel::Unknown((ty, payload)))
        }
    }

    open spec fn spec_deserialize_error(ty: u16, payload: Seq<u8>, e: DeserializeError) -> bool {
        &&& e.attribute_struct_name == "ControllerAttributeMulticastGroup"
        &&& e.nla_type_id == ty
        &&& if ty == CTRL_ATTR_MCAST_GRP_NAME {
            *e.source matches DeserializeErrorSource::NlaGetStringError(se)
                && <String as NetlinkPayloadResponse>::spec_deserialize_error(payload, se)
        } else {
            ty == CTRL_ATTR_MCAST_GRP_ID && (*e.source matches DeserializeErrorSource::ParseNlaIntError(ie)
                && <u32 as NetlinkPayloadResponse>::spec_deserialize_error(payload, ie))
        }
    }

    fn deserialize(ty: u16, payload: &[u8]) -> (r: Result<
        ControllerAttributeMulticastGroup,
        DeserializeError,
    >) {
        let name = "ControllerAttributeMulticastGroup";
        if ty == CTRL_ATTR_MCAST_GRP_UNSPEC {
            Ok(ControllerAttributeMulticastGroup::Unspec)
        } else if ty == CTRL_ATTR_MCAST_GRP_NAME {
            match <String as NetlinkPayloadResponse>::deserialize(payload) {
                Ok(v) => Ok(ControllerAttributeMulticastGroup::Name(v)),
                Err(e) => Err(attribute_error(name, ty, DeserializeErrorSource::NlaGetStringError(e))),
            }
        } else if ty == CTRL_ATTR_MCAST_GRP_ID {
            match <u32 as NetlinkPayloadResponse>::deserialize(payload) {
                Ok(v) => Ok(ControllerAttributeMulticastGroup::Id(v)),
                Err(e) => Err(attribute_error(name, ty, DeserializeErrorSource::ParseNlaIntError(e))),
            }
        } else {
            Ok(
                ControllerAttributeMulticastGroup::Unknown(
                    UnknownAttribute { ty, payload: slice_to_vec(payload) },
                ),
            )
        }
    }
}

impl AttributeCodec for ControllerAttributeMulticastGroup {
    open spec fn spec_round_trips(&self) -> bool {
        match self {
            ControllerAttributeMulticastGroup::Name(v) => <String as PayloadCodec>::spec_round_trips(v),
            ControllerAttributeMulticastGroup::Unknown(u) => !multicast_group_declares(u.ty),
            _ => true,
        }
    }

    proof fn lemma_round_trip(v: &Self) {
        match v {
            ControllerAttributeMulticastGroup::Name(x) => <String as PayloadCodec>::lemma_payload_round_trip(
                x,
            ),
            ControllerAttributeMulticastGroup::Id(x) => <u32 as PayloadCodec>::lemma_payload_round_trip(
                x,
            ),
            _ => {},
        }
    }
}

impl Schema for ControllerAttributeMulticastGroup {
    open spec fn spec_declares(ty: u16) -> bool {
        multicast_group_declares(ty)
    }

    open spec fn spec_wildcard(ty: u16, payload: Seq<u8>) -> ControllerAttributeMulticastGroupModel {
        ControllerAttributeMulticastGroupModel::Unknown((ty, payload))
    }

    proof fn lemma_catch_all(ty: u16, payload: Seq<u8>) {
    }

    fn variants() -> (r: Vec<VariantDecl>) {
        let r = vec![
            VariantDecl { nla_type: Some(NlaType::Id(CTRL_ATTR_MCAST_GRP_UNSPEC)), num_fields: 0 },
            VariantDecl { nla_type: Some(NlaType::Id(CTRL_ATTR_MCAST_GRP_NAME)), num_fields: 1 },
            VariantDecl { nla_type: Some(NlaType::Id(CTRL_ATTR_MCAST_GRP_ID)), num_fields: 1 },
            VariantDecl { nla_type: Some(NlaType::Wildcard), num_fields: 1 },
        ];
        assert forall|ty: u16| #[trigger] Self::spec_declares(ty) <==> declared_in(r@, ty) by {
            if Self::spec_declares(ty) {
                if ty == CTRL_ATTR_MCAST_GRP_UNSPEC {
                    assert(r@[0].nla_type == Some(NlaType::Id(ty)));
                } else if ty == CTRL_ATTR_MCAST_GRP_NAME {
                    assert(r@[1].nla_type == Some(NlaType::Id(ty)));
                } else {
                    assert(r@[2].nla_type == Some(NlaType::Id(ty)));
                }
            }
        }
        r
    }
}

/// The type ids `ControllerAttribute` declares.
pub open spec fn controller_declares(ty: u16) -> bool {
    ty <= CTRL_ATTR_MCAST_GROUPS
}

/// Attributes of a Generic Netlink family, as the controller reports them.
#[derive(Debug, PartialEq, Eq)]
pub enum ControllerAttribute {
    Unspec,
    FamilyId(u16),
    FamilyName(String),
    Version(u32),
    HeaderSize(u32),
    MaxAttr(u32),
    Operations(Vec<Nested<ControllerAttributeOperation>>),
    MulticastGroups(Vec<Nested<ControllerAttributeMulticastGroup>>),
    Unknown(UnknownAttribute),
}

/// What a `ControllerAttribute` stands for.
pub enum ControllerAttributeModel {
    Unspec,
    FamilyId(u16),
    FamilyName(Seq<char>),
    Version(u32),
    HeaderSize(u32),
    MaxAttr(u32),
    Operations(Seq<Seq<ControllerAttributeOperationModel>>),
    MulticastGroups(Seq<Seq<ControllerAttributeMulticastGroupModel>>),
    Unknown((u16, Seq<u8>)),
}

impl Modeled for ControllerAttribute {
    type Model = ControllerAttributeModel;

    open spec fn model(&self) -> ControllerAttributeModel {
        match self {
            ControllerAttribute::Unspec => ControllerAttributeModel::Unspec,
            ControllerAttribute::FamilyId(v) => ControllerAttributeModel::FamilyId(*v),
            ControllerAttribute::FamilyName(v) => ControllerAttributeModel::FamilyName(v@),
            ControllerAttribute::Version(v) => ControllerAttributeModel::Version(*v),
            ControllerAttribute::HeaderSize(v) => ControllerAttributeModel::HeaderSize(*v),
            ControllerAttribute::MaxAttr(v) => ControllerAttributeModel::MaxAttr(*v),
            ControllerAttribute::Operations(v) => ControllerAttributeModel::Operations(v.model()),
            ControllerAttribute::MulticastGroups(v) => ControllerAttributeModel::MulticastGroups(
                v.model(),
            ),
            ControllerAttribute::Unknown(u) => ControllerAttributeModel::Unknown(u.model()),
        }
    }
}

impl Serialize for ControllerAttribute {
    open spec fn spec_type_id(&self) -> u16 {
        match self {
            ControllerAttribute::Unspec => CTRL_ATTR_UNSPEC,
            ControllerAttribute::FamilyId(_) => CTRL_ATTR_FAMILY_ID,
            ControllerAttribute::FamilyName(_) => CTRL_ATTR_FAMILY_NAME,
            ControllerAttribute::Version(_) => CTRL_ATTR_VERSION,
            ControllerAttribute::HeaderSize(_) => CTRL_ATTR_HDRSIZE,
            ControllerAttribute::MaxAttr(_) => CTRL_ATTR_MAXATTR,
            ControllerAttribute::Operations(_) => CTRL_ATTR_OPS,
            ControllerAttribute::MulticastGroups(_) => CTRL_ATTR_MCAST_GROUPS,
            ControllerAttribute::Unknown(u) => u.ty,
        }
    }

    open spec fn spec_payload(&self) -> Option<Seq<u8>> {
        match self {
            ControllerAttribute::Unspec => Some(seq![]),
            ControllerAttribute::FamilyId(v) => v.spec_serialize(),
            ControllerAttribute::FamilyName(v) => v.spec_serialize(),
            ControllerAttribute::Version(v) => v.spec_serialize(),
            ControllerAttribute::HeaderSize(v) => v.spec_serialize(),
            ControllerAttribute::MaxAttr(v) => v.spec_serialize(),
            ControllerAttribute::Operations(v) => v.spec_serialize(),
            ControllerAttribute::MulticastGroups(v) => v.spec_serialize(),
            ControllerAttribute::Unknown(u) => u.spec_payload(),
        }
    }

    fn get_type(&self) -> (r: u16) {
        match self {
            ControllerAttribute::Unspec => CTRL_ATTR_UNSPEC,
            ControllerAttribute::FamilyId(_) => CTRL_ATTR_FAMILY_ID,
            ControllerAttribute::FamilyName(_) => CTRL_ATTR_FAMILY_NAME,
            ControllerAttribute::Version(_) => CTRL_ATTR_VERSION,
            ControllerAttribute::HeaderSize(_) => CTRL_ATTR_HDRSIZE,
            ControllerAttribute::MaxAttr(_) => CTRL_ATTR_MAXATTR,
            ControllerAttribute::Operations(_) => CTRL_ATTR_OPS,
            ControllerAttribute::MulticastGroups(_) => CTRL_ATTR_MCAST_GROUPS,
            ControllerAttribute::Unknown(u) => u.get_type(),
        }
    }

    fn serialize_payload(&self, buf: &mut Vec<u8>) -> (r: Result<(), LengthOverflow>) {
        match self {
            ControllerAttribute::Unspec => {
                assert(buf@ =~= buf@ + seq![]);
                Ok(())
            },
            ControllerAttribute::FamilyId(v) => v.serialize(buf),
            ControllerAttribute::FamilyName(v) => v.serialize(buf),
            ControllerAttribute::Version(v) => v.serialize(buf),
            ControllerAttribute::HeaderSize(v) => v.serialize(buf),
            ControllerAttribute::MaxAttr(v) => v.serialize(buf),
            ControllerAttribute::Operations(v) => v.serialize(buf),
            ControllerAttribute::MulticastGroups(v) => v.serialize(buf),
            ControllerAttribute::Unknown(u) => u.serialize_payload(buf),
        }
    }
}

impl Deserialize for ControllerAttribute {
    open spec fn spec_deserialize(ty: u16, payload: Seq<u8>) -> Option<ControllerAttributeModel> {
        if ty == CTRL_ATTR_UNSPEC {
            Some(ControllerAttributeModel::Unspec)
        } else if ty == CTRL_ATTR_FAMILY_ID {
            match <u16 as NetlinkPayloadResponse>::spec_deserialize(payload) {
                Some(v) => Some(ControllerAttributeModel::FamilyId(v)),
                None => None,
            }
        } else if ty == CTRL_ATTR_FAMILY_NAME {
            match <String as NetlinkPayloadResponse>::spec_deserialize(payload) {
                Some(v) => Some(ControllerAttributeModel::FamilyName(v)),
                None => None,
            }
        } else if ty == CTRL_ATTR_VERSION {
            match <u32 as NetlinkPayloadResponse>::spec_deserialize(payload) {
                Some(v) => Some(ControllerAttributeModel::Version(v)),
                None => None,
            }
        } else if ty == CTRL_ATTR_HDRSIZE {
            match <u32 as NetlinkPayloadResponse>::spec_deserialize(payload) {
                Some(v) => Some(ControllerAttributeModel::HeaderSize(v)),
                None => None,
            }
        } else if ty == CTRL_ATTR_MAXATTR {
            match <u32 as NetlinkPayloadResponse>::spec_deserialize(payload) {
                Some(v) => Some(ControllerAttributeModel::MaxAttr(v)),
                None => None,
            }
        } else if ty == CTRL_ATTR_OPS {
            match <Vec<Nested<ControllerAttributeOperation>> as NetlinkPayloadResponse>::spec_deserialize(payload) {
                Some(v) => Some(ControllerAttributeModel::Operations(v)),
                None => None,
            }
        } else if ty == CTRL_ATTR_MCAST_GROUPS {
            match <Vec<Nested<ControllerAttributeMulticastGroup>> as NetlinkPayloadResponse>::spec_deserialize(payload) {
                Some(v) => Some(ControllerAttributeModel::MulticastGroups(v)),
                None => None,
            }
        } else {
            Some(ControllerAttributeModel::Unknown((ty, payload)))
        }
    }

    open spec fn spec_deserialize_error(ty: u16, payload: Seq<u8>, e: DeserializeError) -> bool {
        &&& e.attribute_struct_name == "ControllerAttribute"
        &&& e.nla_type_id == ty
        &&& if ty == CTRL_ATTR_FAMILY_ID {
            *e.source matches DeserializeErrorSource::ParseNlaIntError(ie)
                && <u16 as NetlinkPayloadResponse>::spec_deserialize_error(payload, ie)
        } else if ty == CTRL_ATTR_FAMILY_NAME {
            *e.source matches DeserializeErrorSource::NlaGetStringError(se)
                && <String as NetlinkPayloadResponse>::spec_deserialize_error(payload, se)
        } else if ty == CTRL_ATTR_VERSION || ty == CTRL_ATTR_HDRSIZE || ty == CTRL_ATTR_MAXATTR {
            *e.source matches DeserializeErrorSource::ParseNlaIntError(ie)
                && <u32 as NetlinkPayloadResponse>::spec_deserialize_error(payload, ie)
        } else if ty == CTRL_ATTR_OPS {
            *e.source matches DeserializeErrorSource::DeserializeBufferError(be)
                && <Vec<Nested<ControllerAttributeOperation>> as NetlinkPayloadResponse>::spec_deserialize_error(payload, be)
        } else {
            ty == CTRL_ATTR_MCAST_GROUPS && (*e.source matches DeserializeErrorSource::DeserializeBufferError(be)
                && <Vec<Nested<ControllerAttributeMulticastGroup>> as NetlinkPayloadResponse>::spec_deserialize_error(payload, be))
        }
    }

    fn deserialize(ty: u16, payload: &[u8]) -> (r: Result<ControllerAttribute, DeserializeError>) {
        let name = "ControllerAttribute";
        if ty == CTRL_ATTR_UNSPEC {
            Ok(ControllerAttribute::Unspec)
        } else if ty == CTRL_ATTR_FAMILY_ID {
            match <u16 as NetlinkPayloadResponse>::deserialize(payload) {
                Ok(v) => Ok(ControllerAttribute::FamilyId(v)),
                Err(e) => Err(attribute_error(name, ty, DeserializeErrorSource::ParseNlaIntError(e))),
            }
        } else if ty == CTRL_ATTR_FAMILY_NAME {
            match <String as NetlinkPayloadResponse>::deserialize(payload) {
                Ok(v) => Ok(ControllerAttribute::FamilyName(v)),
                Err(e) => Err(attribute_error(name, ty, DeserializeErrorSource::NlaGetStringError(e))),
            }
        } else if ty == CTRL_ATTR_VERSION {
            match <u32 as NetlinkPayloadResponse>::deserialize(payload) {
                Ok(v) => Ok(ControllerAttribute::Version(v)),
                Err(e) => Err(attribute_error(name, ty, DeserializeErrorSource::ParseNlaIntError(e))),
            }
        } else if ty == CTRL_ATTR_HDRSIZE {
            match <u32 as NetlinkPayloadResponse>::deserialize(payload) {
                Ok(v) => Ok(ControllerAttribute::HeaderSize(v)),
                Err(e) => Err(attribute_error(name, ty, DeserializeErrorSource::ParseNlaIntError(e))),
            }
        } else if ty == CTRL_ATTR_MAXATTR {
            match <u32 as NetlinkPayloadResponse>::deserialize(payload) {
                Ok(v) => Ok(ControllerAttribute::MaxAttr(v)),
                Err(e) => Err(attribute_error(name, ty, DeserializeErrorSource::ParseNlaIntError(e))),
            }
        } else if ty == CTRL_ATTR_OPS {
            match <Vec<Nested<ControllerAttributeOperation>> as NetlinkPayloadResponse>::deserialize(payload) {
                Ok(v) => Ok(ControllerAttribute::Operations(v)),
                Err(e) => Err(attribute_error(name, ty, DeserializeErrorSource::DeserializeBufferError(e))),
            }
        } else if ty == CTRL_ATTR_MCAST_GROUPS {
            match <Vec<Nested<ControllerAttributeMulticastGroup>> as NetlinkPayloadResponse>::deserialize(payload) {
                Ok(v) => Ok(ControllerAttribute::MulticastGroups(v)),
                Err(e) => Err(attribute_error(name, ty, DeserializeErrorSource::DeserializeBufferError(e))),
            }
        } else {
            Ok(ControllerAttribute::Unknown(UnknownAttribute { ty, payload: slice_to_vec(payload) }))
        }
    }
}

impl AttributeCodec for ControllerAttribute {
    open spec fn spec_round_trips(&self) -> bool {
        match self {
            ControllerAttribute::FamilyName(v) => <String as PayloadCodec>::spec_round_trips(v),
            ControllerAttribute::Operations(v) => <Vec<Nested<ControllerAttributeOperation>> as PayloadCodec>::spec_round_trips(v),
            ControllerAttribute::MulticastGroups(v) => <Vec<Nested<ControllerAttributeMulticastGroup>> as PayloadCodec>::spec_round_trips(v),
            ControllerAttribute::Unknown(u) => !controller_declares(u.ty),
            _ => true,
        }
    }

    proof fn lemma_round_trip(v: &Self) {
        match v {
            ControllerAttribute::FamilyId(x) => <u16 as PayloadCodec>::lemma_payload_round_trip(x),
            ControllerAttribute::FamilyName(x) => <String as PayloadCodec>::lemma_payload_round_trip(x),
            ControllerAttribute::Version(x) => <u32 as PayloadCodec>::lemma_payload_round_trip(x),
            ControllerAttribute::HeaderSize(x) => <u32 as PayloadCodec>::lemma_payload_round_trip(x),
            ControllerAttribute::MaxAttr(x) => <u32 as PayloadCodec>::lemma_payload_round_trip(x),
            ControllerAttribute::Operations(x) => <Vec<Nested<ControllerAttributeOperation>> as PayloadCodec>::lemma_payload_round_trip(x),
            ControllerAttribute::MulticastGroups(x) => <Vec<Nested<ControllerAttributeMulticastGroup>> as PayloadCodec>::lemma_payload_round_trip(x),
            _ => {},
        }
    }
}

impl Schema for ControllerAttribute {
    open spec fn spec_declares(ty: u16) -> bool {
        controller_declares(ty)
    }

    open spec fn spec_wildcard(ty: u16, payload: Seq<u8>) -> ControllerAttributeModel {
        ControllerAttributeModel::Unknown((ty, payload))
    }

    proof fn lemma_catch_all(ty: u16, payload: Seq<u8>) {
    }

    fn variants() -> (r: Vec<VariantDecl>) {
        let r = vec![
            VariantDecl { nla_type: Some(NlaType::Id(CTRL_ATTR_UNSPEC)), num_fields: 0 },
            VariantDecl { nla_type: Some(NlaType::Id(CTRL_ATTR_FAMILY_ID)), num_fields: 1 },
            VariantDecl { nla_type: Some(NlaType::Id(CTRL_ATTR_FAMILY_NAME)), num_fields: 1 },
            VariantDecl { nla_type: Some(NlaType::Id(CTRL_ATTR_VERSION)), num_fields: 1 },
            VariantDecl { nla_type: Some(NlaType::Id(CTRL_ATTR_HDRSIZE)), num_fields: 1 },
            VariantDecl { nla_type: Some(NlaType::Id(CTRL_ATTR_MAXATTR)), num_fields: 1 },
            VariantDecl { nla_type: Some(NlaType::Id(CTRL_ATTR_OPS)), num_fields: 1 },
            VariantDecl { nla_type: Some(NlaType::Id(CTRL_ATTR_MCAST_GROUPS)), num_fields: 1 },
            VariantDecl { nla_type: Some(NlaType::Wildcard), num_fields: 1 },
        ];
        assert forall|ty: u16| #[trigger] Self::spec_declares(ty) <==> declared_in(r@, ty) by {
            if Self::spec_declares(ty) {
                let i = ty as int;
                assert(r@[i].nla_type == Some(NlaType::Id(ty)));
            }
        }
        r
    }
}

} // verus!
