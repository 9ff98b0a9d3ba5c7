//! Attribute schemas: sum types whose variants carry declared type ids, and
//! the checks a schema declaration must pass.
use crate::attr::AttributeCodec;
use crate::attr::spec_parse_attr;
use crate::payload::Modeled;
use crate::utils::lemma_ne_u16_round_trip;
use crate::utils::ne_u16;
use crate::utils::spec_prefixed_u16;
use vstd::prelude::*;

verus! {

/// The annotation of one schema variant: a declared type id, or the
/// wildcard that takes every undeclared id.
#[derive(Debug, PartialEq, Eq, Clone, Copy)]
pub enum NlaType {
    Id(u16),
    Wildcard,
}

/// One variant of a schema as declared: its annotation, if any, and how
/// many values it carries.
#[derive(Debug, PartialEq, Eq, Clone, Copy)]
pub struct VariantDecl {
    pub nla_type: Option<NlaType>,
    pub num_fields: usize,
}

/// Some variant of `vs` declares type id `ty`.
pub open spec fn declared_in(vs: Seq<VariantDecl>, ty: u16) -> bool {
    exists|i: int| 0 <= i < vs.len() && (#[trigger] vs[i]).nla_type == Some(NlaType::Id(ty))
}

/// A schema with a wildcard: ids it declares go to their variants, every
/// other id to the wildcard, which keeps the id and the payload.
pub trait Schema: AttributeCodec {
    spec fn spec_declares(ty: u16) -> bool;

    /// The model of the wildcard variant holding `ty` and `payload`.
    spec fn spec_wildcard(ty: u16, payload: Seq<u8>) -> Self::Model;

    proof fn lemma_catch_all(ty: u16, payload: Seq<u8>)
        requires
            !Self::spec_declares(ty),
        ensures
            Self::spec_deserialize(ty, payload) == Some(Self::spec_wildcard(ty, payload)),
    ;

    /// The schema's variants in declaration order.
    fn variants() -> (r: Vec<VariantDecl>)
        ensures
            forall|ty: u16| #[trigger] Self::spec_declares(ty) <==> declared_in(r@, ty),
    ;
}

/// A variant annotated with `Id(ty)` and no value: the whole attribute has
/// an empty payload.
#[derive(Debug, PartialEq, Eq, Clone, Copy)]
pub struct NetlinkAttributeKindNone {
    pub index: usize,
    pub ty: u16,
}

/// A variant annotated with `Id(ty)` and one value, which is the payload.
#[derive(Debug, PartialEq, Eq, Clone, Copy)]
pub struct NetlinkAttributeKindSome {
    pub index: usize,
    pub ty: u16,
}

/// The wildcard variant, which keeps unknown attributes.
#[derive(Debug, PartialEq, Eq, Clone, Copy)]
pub struct NetlinkAttributeKindUnknown {
    pub index: usize,
}

/// A variant without annotation.
#[derive(Debug, PartialEq, Eq, Clone, Copy)]
pub struct NetlinkAttributeKindUnmarked {
    pub index: usize,
}

/// A variant's shape does not fit its annotation.
#[derive(Debug, PartialEq, Eq, Clone, Copy)]
pub enum NetlinkAttributeKindFromVariantError {
    /// A variant with a type id carries more than one value.
    MultipleAssociatedValues { index: usize },
    /// The wildcard variant does not carry exactly one value.
    WildcardShape { index: usize },
}

/// The variants of a schema sorted by kind, each list in declaration order.
#[derive(Debug, PartialEq, Eq)]
pub struct PartitionedAttributeKinds {
    pub none: Vec<NetlinkAttributeKindNone>,
    pub some: Vec<NetlinkAttributeKindSome>,
    pub unknown: Vec<NetlinkAttributeKindUnknown>,
    pub unmarked: Vec<NetlinkAttributeKindUnmarked>,
}

/// The variant's shape fits its annotation.
pub open spec fn shape_ok(v: VariantDecl) -> bool {
    match v.nla_type {
        Some(NlaType::Id(_)) => v.num_fields <= 1,
        Some(NlaType::Wildcard) => v.num_fields == 1,
        None => true,
    }
}

/// The error for a variant whose shape does not fit, at position `i`.
pub open spec fn shape_error(v: VariantDecl, i: usize) -> NetlinkAttributeKindFromVariantError {
    match v.nla_type {
        Some(NlaType::Wildcard) => NetlinkAttributeKindFromVariantError::WildcardShape { index: i },
        _ => NetlinkAttributeKindFromVariantError::MultipleAssociatedValues { index: i },
    }
}

/// `i` is the first variant whose shape does not fit.
pub open spec fn first_bad_shape(vs: Seq<VariantDecl>, i: int) -> bool {
    0 <= i < vs.len() && !shape_ok(vs[i]) && forall|j: int| 0 <= j < i ==> shape_ok(#[trigger] vs[j])
}

/// How one variant takes part in a schema.
#[derive(Debug, PartialEq, Eq, Clone, Copy)]
pub enum NetlinkAttributeKind {
    NoPayload(NetlinkAttributeKindNone),
    Simple(NetlinkAttributeKindSome),
    Wildcard(NetlinkAttributeKindUnknown),
    Unmarked(NetlinkAttributeKindUnmarked),
}

impl NetlinkAttributeKind {
    /// Classifies the variant at position `index` by its annotation and
    /// the number of values it carries.
    pub fn try_from(variant: VariantDecl, index: usize) -> (r: Result<
        NetlinkAttributeKind,
        NetlinkAttributeKindFromVariantError,
    >)
        ensures
            !shape_ok(variant) ==> r == Err::<
                NetlinkAttributeKind,
                NetlinkAttributeKindFromVariantError,
            >(shape_error(variant, index)),
            shape_ok(variant) ==> match variant.nla_type {
                Some(NlaType::Id(ty)) => if variant.num_fields == 0 {
                    r == Ok::<NetlinkAttributeKind, NetlinkAttributeKindFromVariantError>(
                        NetlinkAttributeKind::NoPayload(NetlinkAttributeKindNone { index, ty }),
                    )
                } else {
                    r == Ok::<NetlinkAttributeKind, NetlinkAttributeKindFromVariantError>(
                        NetlinkAttributeKind::Simple(NetlinkAttributeKindSome { index, ty }),
                    )
                },
                Some(NlaType::Wildcard) => r == Ok::<
                    NetlinkAttributeKind,
                    NetlinkAttributeKindFromVariantError,
                >(NetlinkAttributeKind::Wildcard(NetlinkAttributeKindUnknown { index })),
                None => r == Ok::<NetlinkAttributeKind, NetlinkAttributeKindFromVariantError>(
                    NetlinkAttributeKind::Unmarked(NetlinkAttributeKindUnmarked { index }),
                ),
            },
    {
        match variant.nla_type {
            Some(NlaType::Id(ty)) => {
                if variant.num_fields == 0 {
                    Ok(NetlinkAttributeKind::NoPayload(NetlinkAttributeKindNone { index, ty }))
                } else if variant.num_fields == 1 {
                    Ok(NetlinkAttributeKind::Simple(NetlinkAttributeKindSome { index, ty }))
                } else {
                    Err(NetlinkAttributeKindFromVariantError::MultipleAssociatedValues { index })
                }
            },
            Some(NlaType::Wildcard) => {
                if variant.num_fields == 1 {
                    Ok(NetlinkAttributeKind::Wildcard(NetlinkAttributeKindUnknown { index }))
                } else {
                    Err(NetlinkAttributeKindFromVariantError::WildcardShape { index })
                }
            },
            None => Ok(NetlinkAttributeKind::Unmarked(NetlinkAttributeKindUnmarked { index })),
        }
    }
}

/// The four kinds a well-shaped variant can have.
pub enum VariantKindTag {
    NoPayload,
    Simple,
    Wildcard,
    Unmarked,
}

/// The variant has the kind `tag`.
pub open spec fn has_kind(v: VariantDecl, tag: VariantKindTag) -> bool {
    match tag {
        VariantKindTag::NoPayload => v.nla_type matches Some(NlaType::Id(_)) && v.num_fields == 0,
        VariantKindTag::Simple => v.nla_type matches Some(NlaType::Id(_)) && v.num_fields == 1,
        VariantKindTag::Wildcard => v.nla_type == Some(NlaType::Wildcard),
        VariantKindTag::Unmarked => v.nla_type is None,
    }
}

/// `idx` lists, in rising order and each once, exactly the positions below
/// `n` of the variants of kind `tag`.
pub open spec fn lists_kind(idx: Seq<usize>, vs: Seq<VariantDecl>, tag: VariantKindTag, n: int) -> bool {
    &&& forall|k: int| 0 <= k < idx.len() ==> #[trigger] idx[k] < n && has_kind(vs[idx[k] as int], tag)
    &&& forall|k1: int, k2: int| 0 <= k1 < k2 < idx.len() ==> #[trigger] idx[k1] < #[trigger] idx[k2]
    &&& forall|i: int| 0 <= i < n && #[trigger] has_kind(vs[i], tag) ==> exists|k: int|
        0 <= k < idx.len() && idx[k] == i
}

pub open spec fn none_indices(p: PartitionedAttributeKinds) -> Seq<usize> {
    p.none@.map_values(|e: NetlinkAttributeKindNone| e.index)
}

pub open spec fn some_indices(p: PartitionedAttributeKinds) -> Seq<usize> {
    p.some@.map_values(|e: NetlinkAttributeKindSome| e.index)
}

pub open spec fn unknown_indices(p: PartitionedAttributeKinds) -> Seq<usize> {
    p.unknown@.map_values(|e: NetlinkAttributeKindUnknown| e.index)
}

pub open spec fn unmarked_indices(p: PartitionedAttributeKinds) -> Seq<usize> {
    p.unmarked@.map_values(|e: NetlinkAttributeKindUnmarked| e.index)
}

/// `p` sorts the first `n` variants of `vs` by kind: each of them stands,
/// once, in the list of its kind, lists keep declaration order, and the
/// type ids recorded are the declared ones.
pub open spec fn partition_upto(vs: Seq<VariantDecl>, p: PartitionedAttributeKinds, n: int) -> bool {
    &&& lists_kind(none_indices(p), vs, VariantKindTag::NoPayload, n)
    &&& lists_kind(some_indices(p), vs, VariantKindTag::Simple, n)
    &&& lists_kind(unknown_indices(p), vs, VariantKindTag::Wildcard, n)
    &&& lists_kind(unmarked_indices(p), vs, VariantKindTag::Unmarked, n)
    &&& forall|k: int| 0 <= k < p.none@.len() ==> vs[(#[trigger] p.none@[k]).index as int].nla_type
        == Some(NlaType::Id(p.none@[k].ty))
    &&& forall|k: int| 0 <= k < p.some@.len() ==> vs[(#[trigger] p.some@[k]).index as int].nla_type
        == Some(NlaType::Id(p.some@[k].ty))
    &&& p.none@.len() + p.some@.len() + p.unknown@.len() + p.unmarked@.len() == n
}

/// `p` sorts all variants of `vs` by kind.
pub open spec fn is_partition(vs: Seq<VariantDecl>, p: PartitionedAttributeKinds) -> bool {
    partition_upto(vs, p, vs.len() as int)
}

proof fn lemma_lists_kind_next(idx: Seq<usize>, vs: Seq<VariantDecl>, tag: VariantKindTag, i: int)
    requires
        lists_kind(idx, vs, tag, i),
        0 <= i < vs.len(),
        i <= usize::MAX,
    ensures
        has_kind(vs[i], tag) ==> lists_kind(idx.push(i as usize), vs, tag, i + 1),
        !has_kind(vs[i], tag) ==> lists_kind(idx, vs, tag, i + 1),
{
    let idx2 = idx.push(i as usize);
    if has_kind(vs[i], tag) {
        assert forall|j: int| 0 <= j < i + 1 && #[trigger] has_kind(vs[j], tag) implies exists|k: int|
            0 <= k < idx2.len() && idx2[k] == j by {
            if j == i {
                assert(idx2[idx.len() as int] == j);
            } else {
                let k = choose|k: int| 0 <= k < idx.len() && idx[k] == j;
                assert(idx2[k] == j);
            }
        }
        assert forall|k1: int, k2: int| 0 <= k1 < k2 < idx2.len() implies #[trigger] idx2[k1]
            < #[trigger] idx2[k2] by {
            if k2 == idx.len() {
                assert(idx[k1] < i);
            } else {
                assert(idx[k1] < idx[k2]);
            }
        }
        assert forall|k: int| 0 <= k < idx2.len() implies #[trigger] idx2[k] < i + 1 && has_kind(
            vs[idx2[k] as int],
            tag,
        ) by {
            if k < idx.len() {
                assert(idx2[k] == idx[k]);
            }
        }
    }
}

impl PartitionedAttributeKinds {
    /// Sorts the variants by kind. Fails on the first variant whose shape
    /// does not fit its annotation.
    pub fn from(variants: &Vec<VariantDecl>) -> (r: Result<
        PartitionedAttributeKinds,
        NetlinkAttributeKindFromVariantError,
    >)
        ensures
            r is Ok <==> forall|i: int| 0 <= i < variants@.len() ==> shape_ok(#[trigger] variants@[i]),
            r matches Err(e) ==> exists|i: int| #[trigger]
                first_bad_shape(variants@, i) && e == shape_error(variants@[i], i as usize),
            r matches Ok(p) ==> is_partition(variants@, p),
    {
        let mut p = PartitionedAttributeKinds {
            none: Vec::new(),
            some: Vec::new(),
            unknown: Vec::new(),
            unmarked: Vec::new(),
        };
        let mut i: usize = 0;
        assert(none_indices(p) =~= Seq::<usize>::empty());
        assert(some_indices(p) =~= Seq::<usize>::empty());
        assert(unknown_indices(p) =~= Seq::<usize>::empty());
        assert(unmarked_indices(p) =~= Seq::<usize>::empty());
        while i < variants.len()
            invariant
                0 <= i <= variants@.len(),
                forall|j: int| 0 <= j < i ==> shape_ok(#[trigger] variants@[j]),
                partition_upto(variants@, p, i as int),
            decreases variants@.len() - i,
        {
            let ghost vs = variants@;
            let ghost old_p = p;
            proof {
                lemma_lists_kind_next(none_indices(p), vs, VariantKindTag::NoPayload, i as int);
                lemma_lists_kind_next(some_indices(p), vs, VariantKindTag::Simple, i as int);
                lemma_lists_kind_next(unknown_indices(p), vs, VariantKindTag::Wildcard, i as int);
                lemma_lists_kind_next(unmarked_indices(p), vs, VariantKindTag::Unmarked, i as int);
            }
            match NetlinkAttributeKind::try_from(variants[i], i) {
                Ok(NetlinkAttributeKind::NoPayload(k)) => {
                    p.none.push(k);
                    assert(none_indices(p) =~= none_indices(old_p).push(i));
                },
                Ok(NetlinkAttributeKind::Simple(k)) => {
                    p.some.push(k);
                    assert(some_indices(p) =~= some_indices(old_p).push(i));
                },
                Ok(NetlinkAttributeKind::Wildcard(k)) => {
                    p.unknown.push(k);
                    assert(unknown_indices(p) =~= unknown_indices(old_p).push(i));
                },
                Ok(NetlinkAttributeKind::Unmarked(k)) => {
                    p.unmarked.push(k);
                    assert(unmarked_indices(p) =~= unmarked_indices(old_p).push(i));
                },
                Err(e) => {
                    assert(first_bad_shape(variants@, i as int));
                    return Err(e);
                },
            }
            assert(forall|k: int| 0 <= k < old_p.none@.len() ==> p.none@[k] == old_p.none@[k]);
            assert(forall|k: int| 0 <= k < old_p.some@.len() ==> p.some@[k] == old_p.some@[k]);
            i = i + 1;
        }
        Ok(p)
    }
}

/// A schema declaration that cannot stand.
#[derive(Debug, PartialEq, Eq, Clone, Copy)]
pub enum SchemaError {
    /// A variant's shape does not fit its annotation.
    Variant(NetlinkAttributeKindFromVariantError),
    /// A variant carries no annotation.
    Unmarked { index: usize },
    /// More than one variant is the wildcard.
    MultipleWildcards { count: usize },
    /// A decodable schema has no wildcard.
    MissingWildcard,
    /// Two variants declare the same type id.
    DuplicateTypeId { ty: u16 },
}

/// Two different variants of `vs` declare the same type id.
pub open spec fn has_duplicate_ids(vs: Seq<VariantDecl>) -> bool {
    exists|i: int, j: int|
        0 <= i < j < vs.len() && (#[trigger] vs[i]).nla_type is Some && (#[trigger] vs[j]).nla_type
            == vs[i].nla_type && vs[i].nla_type != Some(NlaType::Wildcard)
}

/// Some variant of `vs` is the wildcard.
pub open spec fn has_wildcard(vs: Seq<VariantDecl>) -> bool {
    exists|i: int| 0 <= i < vs.len() && (#[trigger] vs[i]).nla_type == Some(NlaType::Wildcard)
}

/// Two different variants of `vs` are the wildcard.
pub open spec fn has_two_wildcards(vs: Seq<VariantDecl>) -> bool {
    exists|i: int, j: int|
        0 <= i < j < vs.len() && (#[trigger] vs[i]).nla_type == Some(NlaType::Wildcard) && (
        #[trigger] vs[j]).nla_type == Some(NlaType::Wildcard)
}

/// A schema declaration can stand: every variant is annotated and shaped
/// to fit, at most one is the wildcard (exactly one when the schema is to
/// be decoded), and no two declare the same type id.
pub open spec fn schema_valid(vs: Seq<VariantDecl>, deserialize: bool) -> bool {
    &&& forall|i: int| 0 <= i < vs.len() ==> shape_ok(#[trigger] vs[i])
    &&& forall|i: int| 0 <= i < vs.len() ==> (#[trigger] vs[i]).nla_type is Some
    &&& !has_two_wildcards(vs)
    &&& deserialize ==> has_wildcard(vs)
    &&& !has_duplicate_ids(vs)
}

/// Checks a schema declaration: shapes, annotations, the wildcard, and
/// distinct type ids, in that order; on success the variants sorted by
/// kind.
pub fn check_schema(variants: &Vec<VariantDecl>, deserialize: bool) -> (r: Result<
    PartitionedAttributeKinds,
    SchemaError,
>)
    ensures
        r is Ok <==> schema_valid(variants@, deserialize),
        has_duplicate_ids(variants@) ==> r is Err,
        r matches Err(SchemaError::DuplicateTypeId { ty }) ==> has_duplicate_ids(variants@),
        r matches Ok(p) ==> is_partition(variants@, p),
        r matches Err(SchemaError::MultipleWildcards { count }) ==> has_two_wildcards(variants@),
        r matches Err(SchemaError::MissingWildcard) ==> deserialize && !has_wildcard(variants@),
        r matches Err(SchemaError::Variant(e)) ==> exists|i: int| #[trigger]
            first_bad_shape(variants@, i) && e == shape_error(variants@[i], i as usize),
        r matches Err(SchemaError::Unmarked { index }) ==> {
            &&& index < variants@.len()
            &&& variants@[index as int].nla_type is None
            &&& forall|j: int| 0 <= j < index ==> (#[trigger] variants@[j]).nla_type is Some
        },
{
    let p = match PartitionedAttributeKinds::from(variants) {
        Ok(p) => p,
        Err(e) => return Err(SchemaError::Variant(e)),
    };
    let n = variants.len();
    let mut i: usize = 0;
    let mut wildcards: usize = 0;
    let mut first_wildcard: usize = 0;
    while i < n
        invariant
            n == variants@.len(),
            0 <= i <= n,
            forall|j: int| 0 <= j < i ==> (#[trigger] variants@[j]).nla_type is Some,
            wildcards <= i,
            wildcards == 0 <==> forall|j: int| 0 <= j < i ==> (#[trigger] variants@[j]).nla_type
                != Some(NlaType::Wildcard),
            wildcards >= 1 ==> first_wildcard < i && variants@[first_wildcard as int].nla_type
                == Some(NlaType::Wildcard),
            wildcards == 1 ==> forall|j: int| 0 <= j < i && j != first_wildcard ==> (
            #[trigger] variants@[j]).nla_type != Some(NlaType::Wildcard),
            wildcards <= 1,
        decreases n - i,
    {
        match variants[i].nla_type {
            None => return Err(SchemaError::Unmarked { index: i }),
            Some(NlaType::Wildcard) => {
                if wildcards == 1 {
                    assert(has_two_wildcards(variants@)) by {
                        assert(variants@[first_wildcard as int].nla_type == Some(NlaType::Wildcard));
                        assert(variants@[i as int].nla_type == Some(NlaType::Wildcard));
                    }
                    return Err(SchemaError::MultipleWildcards { count: 2 });
                }
                first_wildcard = i;
                wildcards = 1;
            },
            Some(NlaType::Id(_)) => {},
        }
        i = i + 1;
    }
    if deserialize && wildcards == 0 {
        return Err(SchemaError::MissingWildcard);
    }
    let mut a: usize = 0;
    while a < n
        invariant
            n == variants@.len(),
            0 <= a <= n,
            forall|x: int, y: int|
                0 <= x < a && x < y < n ==> !((#[trigger] variants@[x]).nla_type is Some && (
                #[trigger] variants@[y]).nla_type == variants@[x].nla_type && variants@[x].nla_type
                != Some(NlaType::Wildcard)),
        decreases n - a,
    {
        let mut b: usize = a + 1;
        while b < n
            invariant
                n == variants@.len(),
                0 <= a < n,
                a < b <= n,
                forall|x: int, y: int|
                    0 <= x < a && x < y < n ==> !((#[trigger] variants@[x]).nla_type is Some && (
                    #[trigger] variants@[y]).nla_type == variants@[x].nla_type
                    && variants@[x].nla_type != Some(NlaType::Wildcard)),
                forall|y: int|
                    a < y < b ==> !(variants@[a as int].nla_type is Some && (
                    #[trigger] variants@[y]).nla_type == variants@[a as int].nla_type
                    && variants@[a as int].nla_type != Some(NlaType::Wildcard)),
            decreases n - b,
        {
            match (variants[a].nla_type, variants[b].nla_type) {
                (Some(NlaType::Id(x)), Some(NlaType::Id(y))) => {
                    if x == y {
                        assert(has_duplicate_ids(variants@)) by {
                            assert(variants@[b as int].nla_type == variants@[a as int].nla_type);
                        }
                        return Err(SchemaError::DuplicateTypeId { ty: x });
                    }
                },
                _ => {},
            }
            b = b + 1;
        }
        a = a + 1;
    }
    proof {
        assert forall|x: int, y: int| 0 <= x < y < n implies !((#[trigger] variants@[x]).nla_type
            == Some(NlaType::Wildcard) && (#[trigger] variants@[y]).nla_type == Some(
            NlaType::Wildcard,
        )) by {
            if variants@[x].nla_type == Some(NlaType::Wildcard) && variants@[y].nla_type == Some(
                NlaType::Wildcard,
            ) {
                assert(wildcards != 0);
            }
        }
        if deserialize {
            assert(variants@[first_wildcard as int].nla_type == Some(NlaType::Wildcard));
        }
    }
    Ok(p)
}

/// An attribute whose type id a schema does not declare reads as the
/// schema's wildcard, holding that id and the payload verbatim.
pub proof fn lemma_wildcard_catch_all<S: Schema>(ty: u16, payload: Seq<u8>)
    requires
        !S::spec_declares(ty),
        payload.len() + 4 <= u16::MAX,
    ensures
        spec_parse_attr::<S>(spec_prefixed_u16(ne_u16(ty) + payload)) == Some(
            S::spec_wildcard(ty, payload),
        ),
{
    let b = spec_prefixed_u16(ne_u16(ty) + payload);
    let l = (payload.len() + 4) as u16;
    lemma_ne_u16_round_trip(l);
    lemma_ne_u16_round_trip(ty);
    assert(b.subrange(0, 2) =~= ne_u16(l));
    assert(b.subrange(2, 4) =~= ne_u16(ty));
    assert(b.subrange(4, l as int) =~= payload);
    S::lemma_catch_all(ty, payload);
}

} // verus!
