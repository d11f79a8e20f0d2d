use mysten_infra::typed_store_macros::{
    get_opts, table_field_options, AttrMeta, FieldAttribute, FieldError, FieldModel, FieldType,
    NestedOption, OptionValue, OptionsError, TableOptions, DEFAULT_CACHE_CAPACITY,
};

fn nv(name: &str, value: OptionValue) -> NestedOption {
    NestedOption::NameValue { name: Some(name.to_string()), value }
}

#[test]
fn empty_list_gives_defaults() {
    assert_eq!(
        get_opts(&AttrMeta::List(vec![])),
        Ok(TableOptions { point_lookup: false, cache_capacity: DEFAULT_CACHE_CAPACITY })
    );
    assert_eq!(DEFAULT_CACHE_CAPACITY, 300_000);
}

#[test]
fn both_options_in_either_order() {
    let a = || nv("optimization", OptionValue::Str("point_lookup".to_string()));
    let b = || nv("cache_capacity", OptionValue::Int(Some(1_000_000)));
    let expected = Ok(TableOptions { point_lookup: true, cache_capacity: 1_000_000 });
    assert_eq!(get_opts(&AttrMeta::List(vec![a(), b()])), expected);
    assert_eq!(get_opts(&AttrMeta::List(vec![b(), a()])), expected);
    assert_eq!(
        get_opts(&AttrMeta::List(vec![b()])),
        Ok(TableOptions { point_lookup: false, cache_capacity: 1_000_000 })
    );
}

#[test]
fn option_errors() {
    assert_eq!(get_opts(&AttrMeta::Other), Err(OptionsError::ExpectedList));
    let c = || nv("cache_capacity", OptionValue::Int(Some(5)));
    assert_eq!(get_opts(&AttrMeta::List(vec![c(), c(), c()])), Err(OptionsError::TooManyOptions));
    assert_eq!(get_opts(&AttrMeta::List(vec![c(), c()])), Err(OptionsError::DuplicateCacheCapacity(1)));
    assert_eq!(get_opts(&AttrMeta::List(vec![NestedOption::Other])), Err(OptionsError::ExpectedNameValue(0)));
    assert_eq!(
        get_opts(&AttrMeta::List(vec![nv("cache_capacity", OptionValue::Str("1".to_string()))])),
        Err(OptionsError::ExpectedUnsignedInteger(0))
    );
    assert_eq!(
        get_opts(&AttrMeta::List(vec![nv("cache_capacity", OptionValue::Int(None))])),
        Err(OptionsError::InvalidInteger(0))
    );
    assert_eq!(
        get_opts(&AttrMeta::List(vec![c(), nv("optimization", OptionValue::Int(Some(1)))])),
        Err(OptionsError::ExpectedString(1))
    );
    assert_eq!(
        get_opts(&AttrMeta::List(vec![nv("optimization", OptionValue::Str("range".to_string()))])),
        Err(OptionsError::UnsupportedOptimization(0))
    );
    let o = || nv("optimization", OptionValue::Str("point_lookup".to_string()));
    assert_eq!(get_opts(&AttrMeta::List(vec![o(), o()])), Err(OptionsError::DuplicateOptimization(1)));
    assert_eq!(
        get_opts(&AttrMeta::List(vec![nv("compression", OptionValue::Other)])),
        Err(OptionsError::UnknownOption(0))
    );
    assert_eq!(
        get_opts(&AttrMeta::List(vec![NestedOption::NameValue { name: None, value: OptionValue::Other }])),
        Err(OptionsError::UnknownOption(0))
    );
}

fn dbmap_field(attributes: Vec<FieldAttribute>) -> FieldModel {
    FieldModel {
        named: true,
        attributes,
        ty: FieldType::Path { first_segment: "DBMap".to_string(), angle_bracketed: true },
    }
}

#[test]
fn field_checks() {
    assert_eq!(
        table_field_options(&dbmap_field(vec![])),
        Ok(TableOptions { point_lookup: false, cache_capacity: DEFAULT_CACHE_CAPACITY })
    );
    let opts = FieldAttribute {
        is_options: true,
        meta: AttrMeta::List(vec![nv("optimization", OptionValue::Str("point_lookup".to_string()))]),
    };
    assert_eq!(
        table_field_options(&dbmap_field(vec![opts])),
        Ok(TableOptions { point_lookup: true, cache_capacity: DEFAULT_CACHE_CAPACITY })
    );
    let other = || FieldAttribute { is_options: false, meta: AttrMeta::Other };
    assert_eq!(table_field_options(&dbmap_field(vec![other(), other()])), Err(FieldError::TooManyAttributes));
    assert_eq!(table_field_options(&dbmap_field(vec![other()])), Err(FieldError::NotOptionsAttribute));
    let bad = FieldAttribute { is_options: true, meta: AttrMeta::Other };
    assert_eq!(
        table_field_options(&dbmap_field(vec![bad])),
        Err(FieldError::Options(OptionsError::ExpectedList))
    );
    let not_map = FieldModel {
        named: true,
        attributes: vec![],
        ty: FieldType::Path { first_segment: "Vec".to_string(), angle_bracketed: true },
    };
    assert_eq!(table_field_options(&not_map), Err(FieldError::NotDBMap));
    let no_args = FieldModel {
        named: true,
        attributes: vec![],
        ty: FieldType::Path { first_segment: "DBMap".to_string(), angle_bracketed: false },
    };
    assert_eq!(table_field_options(&no_args), Err(FieldError::NotDBMap));
    let tuple = FieldModel { named: false, ..dbmap_field(vec![]) };
    assert_eq!(table_field_options(&tuple), Err(FieldError::Unnamed));
    let other_ty = FieldModel { named: true, attributes: vec![], ty: FieldType::Other };
    assert_eq!(table_field_options(&other_ty), Err(FieldError::NotDBMap));
}
