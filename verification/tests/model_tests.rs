use lua_semantics::index::{LuaAttributeUse, LuaPropertyIndex, LuaSemanticDeclId};
use lua_semantics::number::{
    int_token_value, IntegerOrUnsigned, LuaNumberErrorDetail,
};
use lua_semantics::property::{
    DeclFeatureFlag, LuaCommonProperty, LuaDeprecated, LuaExport, LuaExportScope,
    PropertyDeclFeature, VisibilityKind,
};
use lua_semantics::types::{check_type_compact, LuaType, LuaTypeDeclId};

#[test]
fn decl_features_are_monotonic() {
    // adding ReadOnly and then re-adding any other feature preserves
    // ReadOnly
    let mut flags = DeclFeatureFlag::new();
    assert!(!flags.has_feature(PropertyDeclFeature::ReadOnly));
    flags.add_feature(PropertyDeclFeature::ReadOnly);
    assert!(flags.has_feature(PropertyDeclFeature::ReadOnly));
    flags.add_feature(PropertyDeclFeature::NoDiscard);
    flags.add_feature(PropertyDeclFeature::Async);
    flags.add_feature(PropertyDeclFeature::ReadOnly);
    assert!(flags.has_feature(PropertyDeclFeature::ReadOnly));
    assert!(flags.has_feature(PropertyDeclFeature::NoDiscard));
    assert!(flags.has_feature(PropertyDeclFeature::Async));
}

#[test]
fn property_starts_unannotated() {
    let p = LuaCommonProperty::new();
    assert_eq!(p.visibility, VisibilityKind::Public);
    assert!(p.description().is_none());
    assert!(p.source().is_none());
    assert!(p.deprecated().is_none());
    assert!(p.version_conds().is_none());
    assert!(p.tag_content().is_none());
    assert!(p.export().is_none());
}

#[test]
fn property_setters_populate_fields() {
    let mut p = LuaCommonProperty::new();
    p.add_extra_description("the answer".to_string());
    assert_eq!(p.description().unwrap(), "the answer");
    p.add_extra_source("init.lua".to_string());
    assert_eq!(p.source().unwrap(), "init.lua");
    p.add_extra_deprecated(None);
    assert_eq!(p.deprecated().unwrap(), &LuaDeprecated::Deprecated);
    p.add_extra_deprecated(Some("use other".to_string()));
    assert_eq!(
        p.deprecated().unwrap(),
        &LuaDeprecated::DeprecatedWithMessage("use other".to_string())
    );
    p.add_extra_export(LuaExport { scope: LuaExportScope::Global });
    assert_eq!(p.export().unwrap().scope, LuaExportScope::Global);
    p.add_extra_tag("since".to_string(), "1.0".to_string());
    p.add_extra_tag("since".to_string(), "2.0".to_string());
    let tags = p.tag_content().unwrap().get_all_tags();
    assert_eq!(tags.len(), 2);
    assert_eq!(tags[0], ("since".to_string(), "1.0".to_string()));
    assert_eq!(tags[1], ("since".to_string(), "2.0".to_string()));
}

#[test]
fn index_creates_records_lazily() {
    let mut index = LuaPropertyIndex::new();
    let owner = LuaSemanticDeclId::new(5);
    assert!(index.get_property(&owner).is_none());
    index.get_or_create(owner).add_decl_feature(PropertyDeclFeature::ReadOnly);
    let p = index.get_property(&owner).unwrap();
    assert!(p.decl_features.has_feature(PropertyDeclFeature::ReadOnly));
    // a second write lands in the same record
    index.get_or_create(owner).add_extra_description("doc".to_string());
    let p2 = index.get_property(&owner).unwrap();
    assert!(p2.decl_features.has_feature(PropertyDeclFeature::ReadOnly));
    assert_eq!(p2.description().unwrap(), "doc");
}

#[test]
fn index_records_attribute_uses_in_order() {
    let mut index = LuaPropertyIndex::new();
    let owner = LuaSemanticDeclId::new(1);
    assert!(index.get_attribute_uses(&owner).is_none());
    index.add_attribute_use(
        owner,
        LuaAttributeUse::new(LuaTypeDeclId::new("first".to_string()), vec![]),
    );
    index.add_attribute_use(
        owner,
        LuaAttributeUse::new(
            LuaTypeDeclId::new("second".to_string()),
            vec![LuaType::IntegerConst(3)],
        ),
    );
    let uses = index.get_attribute_uses(&owner).unwrap();
    assert_eq!(uses.len(), 2);
    assert_eq!(uses[0].id.get_name(), "first");
    assert_eq!(uses[1].id.get_name(), "second");
    assert!(matches!(uses[1].args[0], LuaType::IntegerConst(3)));
    // other owners are untouched
    assert!(index.get_attribute_uses(&LuaSemanticDeclId::new(2)).is_none());
}

#[test]
fn int_tokens_parse_by_radix() {
    assert_eq!(int_token_value("10").unwrap(), IntegerOrUnsigned::Int(10));
    assert_eq!(int_token_value("0").unwrap(), IntegerOrUnsigned::Int(0));
    assert_eq!(int_token_value("0x10").unwrap(), IntegerOrUnsigned::Int(16));
    assert_eq!(int_token_value("0X1f").unwrap(), IntegerOrUnsigned::Int(31));
    assert_eq!(int_token_value("0b101").unwrap(), IntegerOrUnsigned::Int(5));
    assert_eq!(int_token_value("-5").unwrap(), IntegerOrUnsigned::Int(-5));
    assert_eq!(int_token_value("10l").unwrap(), IntegerOrUnsigned::Int(10));
    assert_eq!(int_token_value("10UL").unwrap(), IntegerOrUnsigned::Int(10));
    assert_eq!(
        int_token_value("9223372036854775807").unwrap(),
        IntegerOrUnsigned::Int(i64::MAX)
    );
    assert_eq!(
        int_token_value("-9223372036854775808").unwrap(),
        IntegerOrUnsigned::Int(i64::MIN)
    );
}

#[test]
fn int_tokens_fall_back_to_unsigned_only_with_suffix() {
    assert_eq!(
        int_token_value("18446744073709551615u").unwrap(),
        IntegerOrUnsigned::Uint(u64::MAX)
    );
    assert_eq!(
        int_token_value("0xffffffffffffffffU").unwrap(),
        IntegerOrUnsigned::Uint(u64::MAX)
    );
    let err = int_token_value("9223372036854775808").unwrap_err();
    assert_eq!(err.detail, LuaNumberErrorDetail::TooLargeSigned);
    let err2 = int_token_value("18446744073709551616u").unwrap_err();
    assert_eq!(err2.detail, LuaNumberErrorDetail::TooLargeUnsigned);
}

#[test]
fn malformed_int_tokens_are_rejected() {
    assert_eq!(
        int_token_value("abc").unwrap_err().detail,
        LuaNumberErrorDetail::Malformed
    );
    assert_eq!(
        int_token_value("").unwrap_err().detail,
        LuaNumberErrorDetail::Malformed
    );
    assert_eq!(
        int_token_value("0x").unwrap_err().detail,
        LuaNumberErrorDetail::Malformed
    );
    assert_eq!(
        int_token_value("12x3").unwrap_err().detail,
        LuaNumberErrorDetail::Malformed
    );
    assert_eq!(
        int_token_value("0b102").unwrap_err().detail,
        LuaNumberErrorDetail::Malformed
    );
}

#[test]
fn integer_or_unsigned_accessors() {
    let i = IntegerOrUnsigned::Int(-3);
    let u = IntegerOrUnsigned::Uint(3);
    assert!(i.is_signed());
    assert!(!i.is_unsigned());
    assert!(u.is_unsigned());
    assert!(!u.is_signed());
    assert_eq!(i.as_integer(), Some(-3));
    assert_eq!(u.as_integer(), None);
}

#[test]
fn type_compatibility_follows_subtyping() {
    // literal constants are subtypes of their base primitives
    assert!(check_type_compact(&LuaType::Str, &LuaType::StringConst("x".to_string())));
    assert!(check_type_compact(&LuaType::Integer, &LuaType::IntegerConst(4)));
    assert!(check_type_compact(&LuaType::Boolean, &LuaType::BooleanConst(true)));
    assert!(check_type_compact(&LuaType::Number, &LuaType::Integer));
    assert!(check_type_compact(&LuaType::Number, &LuaType::IntegerConst(1)));
    // mismatches are rejected
    assert!(!check_type_compact(&LuaType::Integer, &LuaType::Str));
    assert!(!check_type_compact(&LuaType::Nil, &LuaType::Integer));
    // any and unknown accept in both directions
    assert!(check_type_compact(&LuaType::Any, &LuaType::Table));
    assert!(check_type_compact(&LuaType::Table, &LuaType::Any));
    // a union parameter accepts any member's subtype
    let opt_int = LuaType::Union(vec![LuaType::Integer, LuaType::Nil]);
    assert!(check_type_compact(&opt_int, &LuaType::Nil));
    assert!(check_type_compact(&opt_int, &LuaType::IntegerConst(2)));
    assert!(!check_type_compact(&opt_int, &LuaType::Str));
    // a union argument must be accepted member for member
    let int_or_str = LuaType::Union(vec![LuaType::Integer, LuaType::Str]);
    assert!(!check_type_compact(&LuaType::Integer, &int_or_str));
    let wide = LuaType::Union(vec![LuaType::Integer, LuaType::Str, LuaType::Nil]);
    assert!(check_type_compact(&wide, &int_or_str));
}

#[test]
fn nullability_looks_through_unions() {
    assert!(LuaType::Nil.is_nullable());
    assert!(LuaType::Any.is_nullable());
    assert!(!LuaType::Integer.is_nullable());
    assert!(LuaType::Union(vec![LuaType::Str, LuaType::Nil]).is_nullable());
    assert!(!LuaType::Union(vec![LuaType::Str, LuaType::Integer]).is_nullable());
}
