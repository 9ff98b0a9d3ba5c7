//! Turning the controller's attributes into family records.
use crate::ctrl::ControllerAttribute;
use crate::ctrl::ControllerAttributeModel;
use crate::ctrl::ControllerAttributeMulticastGroup;
use crate::ctrl::ControllerAttributeMulticastGroupModel;
use crate::ctrl::ControllerAttributeOperation;
use crate::ctrl::ControllerAttributeOperationModel;
use crate::attr::Nested;
use crate::payload::Modeled;
use vstd::prelude::*;

verus! {

/// A Generic Netlink family as the controller describes it.
#[derive(Debug, PartialEq, Eq)]
pub struct Family {
    pub family_id: u16,
    pub family_name: String,
    pub version: u32,
    pub header_size: u32,
    pub max_attr: u32,
    pub operations: Vec<FamilyOperation>,
    pub multicast_groups: Vec<FamilyMulticastGroup>,
}

/// An operation a family supports.
#[derive(Debug, PartialEq, Eq, Clone, Copy)]
pub struct FamilyOperation {
    pub id: u32,
    pub flags: u32,
}

/// A multicast group of a family.
#[derive(Debug, PartialEq, Eq)]
pub struct FamilyMulticastGroup {
    pub name: String,
    pub id: u32,
}

/// What a `Family` stands for.
pub struct FamilyModel {
    pub family_id: u16,
    pub family_name: Seq<char>,
    pub version: u32,
    pub header_size: u32,
    pub max_attr: u32,
    pub operations: Seq<FamilyOperation>,
    pub multicast_groups: Seq<(Seq<char>, u32)>,
}

impl Modeled for FamilyOperation {
    type Model = FamilyOperation;

    open spec fn model(&self) -> FamilyOperation {
        *self
    }
}

impl Modeled for FamilyMulticastGroup {
    type Model = (Seq<char>, u32);

    open spec fn model(&self) -> (Seq<char>, u32) {
        (self.name@, self.id)
    }
}

impl Modeled for Family {
    type Model = FamilyModel;

    open spec fn model(&self) -> FamilyModel {
        FamilyModel {
            family_id: self.family_id,
            family_name: self.family_name@,
            version: self.version,
            header_size: self.header_size,
            max_attr: self.max_attr,
            operations: self.operations.model(),
            multicast_groups: self.multicast_groups.model(),
        }
    }
}

/// A required family attribute is missing.
#[derive(Debug, PartialEq, Eq, Clone, Copy)]
pub enum MissingFamilyAttributeError {
    MissingFamilyAttribute,
    MissingOperationAttribute(MissingFamilyOperationAttributeError),
    MissingMulticastGroupAttribute(MissingFamilyMulticastGroupError),
}

/// An operation lacks its id or its flags.
#[derive(Debug, PartialEq, Eq, Clone, Copy)]
pub struct MissingFamilyOperationAttributeError;

/// A multicast group lacks its name or its id.
#[derive(Debug, PartialEq, Eq, Clone, Copy)]
pub struct MissingFamilyMulticastGroupError;

impl MissingFamilyOperationAttributeError {
    /// The error's message.
    pub fn to_string(&self) -> (r: String)
        ensures
            r@ == "Missing family operation attribute"@,
    {
        String::from_str("Missing family operation attribute")
    }
}

impl MissingFamilyMulticastGroupError {
    /// The error's message.
    pub fn to_string(&self) -> (r: String)
        ensures
            r@ == "Missing family multicast group attribute"@,
    {
        String::from_str("Missing family multicast group attribute")
    }
}

/// The value of the last `Id` attribute of an operation.
pub open spec fn last_op_id(a: Seq<ControllerAttributeOperationModel>) -> Option<u32>
    decreases a.len(),
{
    if a.len() == 0 {
        None
    } else {
        match a.last() {
            ControllerAttributeOperationModel::Id(v) => Some(v),
            _ => last_op_id(a.drop_last()),
        }
    }
}

/// The value of the last `Flags` attribute of an operation.
pub open spec fn last_op_flags(a: Seq<ControllerAttributeOperationModel>) -> Option<u32>
    decreases a.len(),
{
    if a.len() == 0 {
        None
    } else {
        match a.last() {
            ControllerAttributeOperationModel::Flags(v) => Some(v),
            _ => last_op_flags(a.drop_last()),
        }
    }
}

/// The operation the attributes `a` describe: the last id and the last
/// flags, both required.
pub open spec fn spec_family_operation(a: Seq<ControllerAttributeOperationModel>) -> Option<
    FamilyOperation,
> {
    match (last_op_id(a), last_op_flags(a)) {
        (Some(id), Some(flags)) => Some(FamilyOperation { id, flags }),
        _ => None,
    }
}

/// The value of the last `Name` attribute of a multicast group.
pub open spec fn last_group_name(a: Seq<ControllerAttributeMulticastGroupModel>) -> Option<
    Seq<char>,
>
    decreases a.len(),
{
    if a.len() == 0 {
        None
    } else {
        match a.last() {
            ControllerAttributeMulticastGroupModel::Name(v) => Some(v),
            _ => last_group_name(a.drop_last()),
        }
    }
}

/// The value of the last `Id` attribute of a multicast group.
pub open spec fn last_group_id(a: Seq<ControllerAttributeMulticastGroupModel>) -> Option<u32>
    decreases a.len(),
{
    if a.len() == 0 {
        None
    } else {
        match a.last() {
            ControllerAttributeMulticastGroupModel::Id(v) => Some(v),
            _ => last_group_id(a.drop_last()),
        }
    }
}

/// The multicast group the attributes `a` describe: the last name and the
/// last id, both required.
pub open spec fn spec_family_multicast_group(a: Seq<ControllerAttributeMulticastGroupModel>) -> Option<
    (Seq<char>, u32),
> {
    match (last_group_name(a), last_group_id(a)) {
        (Some(name), Some(id)) => Some((name, id)),
        _ => None,
    }
}

/// The value of the last `FamilyId` attribute of `a`.
pub open spec fn last_family_id(a: Seq<ControllerAttributeModel>) -> Option<u16>
    decreases a.len(),
{
    if a.len() == 0 {
        None
    } else {
        match a.last() {
            ControllerAttributeModel::FamilyId(v) => Some(v),
            _ => last_family_id(a.drop_last()),
        }
    }
}

/// The value of the last `Version` attribute of `a`.
pub open spec fn last_version(a: Seq<ControllerAttributeModel>) -> Option<u32>
    decreases a.len(),
{
    if a.len() == 0 {
        None
    } else {
        match a.last() {
            ControllerAttributeModel::Version(v) => Some(v),
            _ => last_version(a.drop_last()),
        }
    }
}

/// The value of the last `HeaderSize` attribute of `a`.
pub open spec fn last_header_size(a: Seq<ControllerAttributeModel>) -> Option<u32>
    decreases a.len(),
{
    if a.len() == 0 {
        None
    } else {
        match a.last() {
            ControllerAttributeModel::HeaderSize(v) => Some(v),
            _ => last_header_size(a.drop_last()),
        }
    }
}

/// The value of the last `MaxAttr` attribute of `a`.
pub open spec fn last_max_attr(a: Seq<ControllerAttributeModel>) -> Option<u32>
    decreases a.len(),
{
    if a.len() == 0 {
        None
    } else {
        match a.last() {
            ControllerAttributeModel::MaxAttr(v) => Some(v),
            _ => last_max_attr(a.drop_last()),
        }
    }
}

/// The value of the last `FamilyName` attribute of `a`.
pub open spec fn last_family_name(a: Seq<ControllerAttributeModel>) -> Option<Seq<char>>
    decreases a.len(),
{
    if a.len() == 0 {
        None
    } else {
        match a.last() {
            ControllerAttributeModel::FamilyName(v) => Some(v),
            _ => last_family_name(a.drop_last()),
        }
    }
}

/// The value of the last `Operations` attribute of `a`.
pub open spec fn last_operations(a: Seq<ControllerAttributeModel>) -> Option<Seq<Seq<ControllerAttributeOperationModel>>>
    decreases a.len(),
{
    if a.len() == 0 {
        None
    } else {
        match a.last() {
            ControllerAttributeModel::Operations(v) => Some(v),
            _ => last_operations(a.drop_last()),
        }
    }
}

/// The value of the last `MulticastGroups` attribute of `a`.
pub open spec fn last_multicast_groups(a: Seq<ControllerAttributeModel>) -> Option<Seq<Seq<ControllerAttributeMulticastGroupModel>>>
    decreases a.len(),
{
    if a.len() == 0 {
        None
    } else {
        match a.last() {
            ControllerAttributeModel::MulticastGroups(v) => Some(v),
            _ => last_multicast_groups(a.drop_last()),
        }
    }
}

/// The operations the attribute lists `s` describe, or `None` when one of
/// them lacks a required attribute.
pub open spec fn spec_family_operations(s: Seq<Seq<ControllerAttributeOperationModel>>) -> Option<
    Seq<FamilyOperation>,
> {
    if forall|i: int| 0 <= i < s.len() ==> (#[trigger] spec_family_operation(s[i])) is Some {
        Some(Seq::new(s.len(), |i: int| spec_family_operation(s[i]).unwrap()))
    } else {
        None
    }
}

/// The multicast groups the attribute lists `s` describe, or `None` when
/// one of them lacks a required attribute.
pub open spec fn spec_family_multicast_groups(
    s: Seq<Seq<ControllerAttributeMulticastGroupModel>>,
) -> Option<Seq<(Seq<char>, u32)>> {
    if forall|i: int| 0 <= i < s.len() ==> (#[trigger] spec_family_multicast_group(s[i])) is Some {
        Some(Seq::new(s.len(), |i: int| spec_family_multicast_group(s[i]).unwrap()))
    } else {
        None
    }
}

/// The family the attributes `a` describe. Of each attribute the last one
/// counts; id, name, version, header size and maximum attribute are
/// required, operations and multicast groups default to none.
pub open spec fn spec_family(a: Seq<ControllerAttributeModel>) -> Result<
    FamilyModel,
    MissingFamilyAttributeError,
> {
    if last_family_id(a) is None || last_family_name(a) is None || last_version(a) is None
        || last_header_size(a) is None || last_max_attr(a) is None {
        Err(MissingFamilyAttributeError::MissingFamilyAttribute)
    } else {
        let ops = match last_operations(a) {
            Some(o) => o,
            None => seq![],
        };
        let groups = match last_multicast_groups(a) {
            Some(g) => g,
            None => seq![],
        };
        match spec_family_operations(ops) {
            None => Err(
                MissingFamilyAttributeError::MissingOperationAttribute(
                    MissingFamilyOperationAttributeError,
                ),
            ),
            Some(o) => match spec_family_multicast_groups(groups) {
                None => Err(
                    MissingFamilyAttributeError::MissingMulticastGroupAttribute(
                        MissingFamilyMulticastGroupError,
                    ),
                ),
                Some(g) => Ok(
                    FamilyModel {
                        family_id: last_family_id(a).unwrap(),
                        family_name: last_family_name(a).unwrap(),
                        version: last_version(a).unwrap(),
                        header_size: last_header_size(a).unwrap(),
                        max_attr: last_max_attr(a).unwrap(),
                        operations: o,
                        multicast_groups: g,
                    },
                ),
            },
        }
    }
}

impl FamilyOperation {
    /// The operation the attributes describe: the last id and the last
    /// flags, both required.
    pub fn from_attrs(attrs: &Vec<ControllerAttributeOperation>) -> (r: Result<
        FamilyOperation,
        MissingFamilyOperationAttributeError,
    >)
        ensures
            match spec_family_operation(attrs.model()) {
                Some(o) => r == Ok::<FamilyOperation, MissingFamilyOperationAttributeError>(o),
                None => r is Err,
            },
    {
        let ghost am = attrs.model();
        let mut id: Option<u32> = None;
        let mut flags: Option<u32> = None;
        let mut i: usize = 0;
        assert(am.take(0) =~= Seq::<ControllerAttributeOperationModel>::empty());
        while i < attrs.len()
            invariant
                am == attrs.model(),
                0 <= i <= attrs@.len(),
                id == last_op_id(am.take(i as int)),
                flags == last_op_flags(am.take(i as int)),
            decreases attrs@.len() - i,
        {
            assert(am.take(i + 1).drop_last() =~= am.take(i as int));
            assert(am.take(i + 1).last() == attrs@[i as int].model());
            match &attrs[i] {
                ControllerAttributeOperation::Id(v) => id = Some(*v),
                ControllerAttributeOperation::Flags(v) => flags = Some(*v),
                _ => {},
            }
            i = i + 1;
        }
        assert(am.take(i as int) =~= am);
        match (id, flags) {
            (Some(id), Some(flags)) => Ok(FamilyOperation { id, flags }),
            _ => Err(MissingFamilyOperationAttributeError),
        }
    }

    pub fn try_from(attrs: Vec<ControllerAttributeOperation>) -> (r: Result<
        FamilyOperation,
        MissingFamilyOperationAttributeError,
    >)
        ensures
            match spec_family_operation(attrs.model()) {
                Some(o) => r == Ok::<FamilyOperation, MissingFamilyOperationAttributeError>(o),
                None => r is Err,
            },
    {
        FamilyOperation::from_attrs(&attrs)
    }
}

impl FamilyMulticastGroup {
    /// The multicast group the attributes describe: the last name and the
    /// last id, both required.
    pub fn from_attrs(attrs: &Vec<ControllerAttributeMulticastGroup>) -> (r: Result<
        FamilyMulticastGroup,
        MissingFamilyMulticastGroupError,
    >)
        ensures
            match spec_family_multicast_group(attrs.model()) {
                Some(g) => r matches Ok(x) && x.model() == g,
                None => r is Err,
            },
    {
        let ghost am = attrs.model();
        let mut name_idx: Option<usize> = None;
        let mut id: Option<u32> = None;
        let mut i: usize = 0;
        assert(am.take(0) =~= Seq::<ControllerAttributeMulticastGroupModel>::empty());
        while i < attrs.len()
            invariant
                am == attrs.model(),
                0 <= i <= attrs@.len(),
                id == last_group_id(am.take(i as int)),
                match name_idx {
                    Some(j) => j < i && attrs@[j as int] is Name && last_group_name(am.take(i as int))
                        == Some(attrs@[j as int]->Name_0@),
                    None => last_group_name(am.take(i as int)) is None,
                },
            decreases attrs@.len() - i,
        {
            assert(am.take(i + 1).drop_last() =~= am.take(i as int));
            assert(am.take(i + 1).last() == attrs@[i as int].model());
            match &attrs[i] {
                ControllerAttributeMulticastGroup::Name(_) => name_idx = Some(i),
                ControllerAttributeMulticastGroup::Id(v) => id = Some(*v),
                _ => {},
            }
            i = i + 1;
        }
        assert(am.take(i as int) =~= am);
        match (name_idx, id) {
            (Some(j), Some(id)) => match &attrs[j] {
                ControllerAttributeMulticastGroup::Name(name) => Ok(
                    FamilyMulticastGroup { name: name.clone(), id },
                ),
                _ => Err(MissingFamilyMulticastGroupError),
            },
            _ => Err(MissingFamilyMulticastGroupError),
        }
    }

    pub fn try_from(attrs: Vec<ControllerAttributeMulticastGroup>) -> (r: Result<
        FamilyMulticastGroup,
        MissingFamilyMulticastGroupError,
    >)
        ensures
            match spec_family_multicast_group(attrs.model()) {
                Some(g) => r matches Ok(x) && x.model() == g,
                None => r is Err,
            },
    {
        FamilyMulticastGroup::from_attrs(&attrs)
    }
}

fn family_operations(nested: &Vec<Nested<ControllerAttributeOperation>>) -> (r: Result<
    Vec<FamilyOperation>,
    MissingFamilyOperationAttributeError,
>)
    ensures
        match spec_family_operations(nested.model()) {
            Some(o) => r matches Ok(v) && v.model() == o,
            None => r is Err,
        },
{
    let ghost nm = nested.model();
    let mut out: Vec<FamilyOperation> = Vec::new();
    let mut i: usize = 0;
    while i < nested.len()
        invariant
            nm == nested.model(),
            0 <= i <= nested@.len(),
            forall|j: int| 0 <= j < i ==> (#[trigger] spec_family_operation(nm[j])) is Some,
            out.model() =~= Seq::new(i as nat, |j: int| spec_family_operation(nm[j]).unwrap()),
        decreases nested@.len() - i,
    {
        assert(nested@[i as int].model() == nm[i as int]);
        match FamilyOperation::from_attrs(&nested[i].0) {
            Ok(o) => {
                let ghost before = out@;
                let ghost old_model = out.model();
                assert(before.len() == out.model().len());
                out.push(o);
                assert(spec_family_operation(nm[i as int]) == Some(o));
                assert(out@ == before.push(o));
                assert(out@.len() == i + 1);
                assert(out@[i as int] == o);
                assert(out.model()[i as int] == o);
                assert forall|j: int| 0 <= j < i + 1 implies out.model()[j]
                    == spec_family_operation(nm[j]).unwrap() by {
                    if j < i {
                        assert(out@[j] == before[j]);
                        assert(old_model[j] == spec_family_operation(nm[j]).unwrap());
                    }
                }
                assert(out.model() =~= Seq::new(
                    (i + 1) as nat,
                    |j: int| spec_family_operation(nm[j]).unwrap(),
                ));
            },
            Err(e) => {
                assert(spec_family_operation(nm[i as int]) is None);
                return Err(e);
            },
        }
        i = i + 1;
    }
    Ok(out)
}

fn family_multicast_groups(nested: &Vec<Nested<ControllerAttributeMulticastGroup>>) -> (r: Result<
    Vec<FamilyMulticastGroup>,
    MissingFamilyMulticastGroupError,
>)
    ensures
        match spec_family_multicast_groups(nested.model()) {
            Some(g) => r matches Ok(v) && v.model() == g,
            None => r is Err,
        },
{
    let ghost nm = nested.model();
    let mut out: Vec<FamilyMulticastGroup> = Vec::new();
    let mut i: usize = 0;
    while i < nested.len()
        invariant
            nm == nested.model(),
            0 <= i <= nested@.len(),
            forall|j: int| 0 <= j < i ==> (#[trigger] spec_family_multicast_group(nm[j])) is Some,
            out.model() =~= Seq::new(i as nat, |j: int| spec_family_multicast_group(nm[j]).unwrap()),
        decreases nested@.len() - i,
    {
        assert(nested@[i as int].model() == nm[i as int]);
        match FamilyMulticastGroup::from_attrs(&nested[i].0) {
            Ok(g) => {
                let ghost gm = g.model();
                let ghost before = out@;
                let ghost old_model = out.model();
                assert(before.len() == out.model().len());
                out.push(g);
                assert(spec_family_multicast_group(nm[i as int]) == Some(gm));
                assert(out@ == before.push(g));
                assert(out@.len() == i + 1);
                assert(out@[i as int] == g);
                assert(out.model()[i as int] == gm);
                assert forall|j: int| 0 <= j < i + 1 implies out.model()[j]
                    == spec_family_multicast_group(nm[j]).unwrap() by {
                    if j < i {
                        assert(out@[j] == before[j]);
                        assert(old_model[j] == spec_family_multicast_group(nm[j]).unwrap());
                    }
                }
                assert(out.model() =~= Seq::new(
                    (i + 1) as nat,
                    |j: int| spec_family_multicast_group(nm[j]).unwrap(),
                ));
            },
            Err(e) => {
                assert(spec_family_multicast_group(nm[i as int]) is None);
                return Err(e);
            },
        }
        i = i + 1;
    }
    Ok(out)
}

impl Family {
    /// The family the controller's attributes describe, as `spec_family`
    /// states: the last of each attribute counts, the five scalar
    /// attributes are required, nested operations and groups are converted
    /// in order.
    pub fn try_from(attrs: Vec<ControllerAttribute>) -> (r: Result<
        Family,
        MissingFamilyAttributeError,
    >)
        ensures
            match spec_family(attrs.model()) {
                Ok(f) => r matches Ok(x) && x.model() == f,
                Err(e) => r == Err::<Family, MissingFamilyAttributeError>(e),
            },
    {
        let ghost am = attrs.model();
        let mut family_id: Option<u16> = None;
        let mut version: Option<u32> = None;
        let mut header_size: Option<u32> = None;
        let mut max_attr: Option<u32> = None;
        let mut name_idx: Option<usize> = None;
        let mut ops_idx: Option<usize> = None;
        let mut groups_idx: Option<usize> = None;
        let mut i: usize = 0;
        assert(am.take(0) =~= Seq::<ControllerAttributeModel>::empty());
        while i < attrs.len()
            invariant
                am == attrs.model(),
                0 <= i <= attrs@.len(),
                family_id == last_family_id(am.take(i as int)),
                version == last_version(am.take(i as int)),
                header_size == last_header_size(am.take(i as int)),
                max_attr == last_max_attr(am.take(i as int)),
                match name_idx {
                    Some(j) => j < i && attrs@[j as int] is FamilyName && last_family_name(
                        am.take(i as int),
                    ) == Some(attrs@[j as int]->FamilyName_0@),
                    None => last_family_name(am.take(i as int)) is None,
                },
                match ops_idx {
                    Some(j) => j < i && attrs@[j as int] is Operations && last_operations(
                        am.take(i as int),
                    ) == Some(attrs@[j as int]->Operations_0.model()),
                    None => last_operations(am.take(i as int)) is None,
                },
                match groups_idx {
                    Some(j) => j < i && attrs@[j as int] is MulticastGroups && last_multicast_groups(
                        am.take(i as int),
                    ) == Some(attrs@[j as int]->MulticastGroups_0.model()),
                    None => last_multicast_groups(am.take(i as int)) is None,
                },
            decreases attrs@.len() - i,
        {
            assert(am.take(i + 1).drop_last() =~= am.take(i as int));
            assert(am.take(i + 1).last() == attrs@[i as int].model());
            match &attrs[i] {
                ControllerAttribute::FamilyId(v) => family_id = Some(*v),
                ControllerAttribute::FamilyName(_) => name_idx = Some(i),
                ControllerAttribute::Version(v) => version = Some(*v),
                ControllerAttribute::HeaderSize(v) => header_size = Some(*v),
                ControllerAttribute::MaxAttr(v) => max_attr = Some(*v),
                ControllerAttribute::Operations(_) => ops_idx = Some(i),
                ControllerAttribute::MulticastGroups(_) => groups_idx = Some(i),
                _ => {},
            }
            i = i + 1;
        }
        assert(am.take(i as int) =~= am);
        let family_id = match family_id {
            Some(v) => v,
            None => return Err(MissingFamilyAttributeError::MissingFamilyAttribute),
        };
        let family_name = match name_idx {
            Some(j) => match &attrs[j] {
                ControllerAttribute::FamilyName(name) => name.clone(),
                _ => return Err(MissingFamilyAttributeError::MissingFamilyAttribute),
            },
            None => return Err(MissingFamilyAttributeError::MissingFamilyAttribute),
        };
        let version = match version {
            Some(v) => v,
            None => return Err(MissingFamilyAttributeError::MissingFamilyAttribute),
        };
        let header_size = match header_size {
            Some(v) => v,
            None => return Err(MissingFamilyAttributeError::MissingFamilyAttribute),
        };
        let max_attr = match max_attr {
            Some(v) => v,
            None => return Err(MissingFamilyAttributeError::MissingFamilyAttribute),
        };
        let operations = match ops_idx {
            Some(j) => match &attrs[j] {
                ControllerAttribute::Operations(nested) => family_operations(nested),
                _ => Ok(Vec::new()),
            },
            None => {
                let v: Vec<FamilyOperation> = Vec::new();
                assert(v.model() =~= Seq::<FamilyOperation>::empty());
                assert(spec_family_operations(Seq::empty()) matches Some(s) && s =~= v.model());
                Ok(v)
            },
        };
        let operations = match operations {
            Ok(v) => v,
            Err(e) => return Err(MissingFamilyAttributeError::MissingOperationAttribute(e)),
        };
        let multicast_groups = match groups_idx {
            Some(j) => match &attrs[j] {
                ControllerAttribute::MulticastGroups(nested) => family_multicast_groups(nested),
                _ => Ok(Vec::new()),
            },
            None => {
                let v: Vec<FamilyMulticastGroup> = Vec::new();
                assert(v.model() =~= Seq::<(Seq<char>, u32)>::empty());
                assert(spec_family_multicast_groups(Seq::empty()) matches Some(s) && s =~= v.model());
                Ok(v)
            },
        };
        let multicast_groups = match multicast_groups {
            Ok(v) => v,
            Err(e) => return Err(MissingFamilyAttributeError::MissingMulticastGroupAttribute(e)),
        };
        let f = Family {
            family_id,
            family_name,
            version,
            header_size,
            max_attr,
            operations,
            multicast_groups,
        };
        assert(spec_family(am) matches Ok(m) && m == f.model());
        Ok(f)
    }
}

} // verus!
