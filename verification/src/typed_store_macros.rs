//! Reading the per-table storage options of the `DBMapUtils` derive:
//! `#[options(optimization = "point_lookup", cache_capacity = 1000000)]`.
use vstd::prelude::*;

verus! {

/// Row cache capacity used when a table names none.
pub const DEFAULT_CACHE_CAPACITY: usize = 300_000;

/// The literal on the right of `name = literal` in an options attribute.
pub enum OptionValue {
    /// An integer literal, with its value when that fits in a `usize`.
    Int(Option<usize>),
    /// A string literal.
    Str(String),
    /// Any other literal.
    Other,
}

/// One entry of an options list.
pub enum NestedOption {
    /// `name = literal`; `name` is the identifier when the left side is a single identifier.
    NameValue { name: Option<String>, value: OptionValue },
    /// Anything else (a bare path, a nested list, a literal).
    Other,
}

/// The parsed form of an options attribute.
pub enum AttrMeta {
    /// `options(...)` with its entries.
    List(Vec<NestedOption>),
    /// A bare path or `name = value`.
    Other,
}

/// Why an options attribute is rejected, with the index of the offending entry.
#[derive(Clone, Copy, Debug, PartialEq, Eq, Structural)]
pub enum OptionsError {
    ExpectedList,
    TooManyOptions,
    ExpectedNameValue(usize),
    DuplicateCacheCapacity(usize),
    /// The integer does not fit in a `usize`; expansion aborts here.
    InvalidInteger(usize),
    ExpectedUnsignedInteger(usize),
    DuplicateOptimization(usize),
    ExpectedString(usize),
    UnsupportedOptimization(usize),
    UnknownOption(usize),
}

/// The storage options of one table.
#[derive(Clone, Copy, Debug, PartialEq, Eq, Structural)]
pub struct TableOptions {
    pub point_lookup: bool,
    pub cache_capacity: usize,
}

/// The options of a table that names none.
pub open spec fn default_table_options() -> TableOptions {
    TableOptions { point_lookup: false, cache_capacity: DEFAULT_CACHE_CAPACITY }
}

/// `name` is present and equals `expected`.
pub open spec fn names(name: Option<String>, expected: Seq<char>) -> bool {
    match name {
        Some(n) => n@ == expected,
        None => false,
    }
}

/// The result of reading the entries from index `i` on, having seen so far
/// whether an optimization was given and which cache capacity.
pub open spec fn scan_options(
    entries: Seq<NestedOption>,
    i: int,
    point_lookup: bool,
    cache: Option<usize>,
) -> Result<TableOptions, OptionsError>
    decreases entries.len() - i,
{
    if i < 0 || i >= entries.len() {
        Ok(
            TableOptions {
                point_lookup,
                cache_capacity: match cache {
                    Some(c) => c,
                    None => DEFAULT_CACHE_CAPACITY,
                },
            },
        )
    } else {
        match entries[i] {
            NestedOption::NameValue { name, value } => {
                if names(name, "cache_capacity"@) {
                    if cache is Some {
                        Err(OptionsError::DuplicateCacheCapacity(i as usize))
                    } else {
                        match value {
                            OptionValue::Int(Some(n)) => scan_options(entries, i + 1, point_lookup, Some(n)),
                            OptionValue::Int(None) => Err(OptionsError::InvalidInteger(i as usize)),
                            _ => Err(OptionsError::ExpectedUnsignedInteger(i as usize)),
                        }
                    }
                } else if names(name, "optimization"@) {
                    if point_lookup {
                        Err(OptionsError::DuplicateOptimization(i as usize))
                    } else {
                        match value {
                            OptionValue::Str(s) => if s@ == "point_lookup"@ {
                                scan_options(entries, i + 1, true, cache)
                            } else {
                                Err(OptionsError::UnsupportedOptimization(i as usize))
                            },
                            _ => Err(OptionsError::ExpectedString(i as usize)),
                        }
                    }
                } else {
                    Err(OptionsError::UnknownOption(i as usize))
                }
            },
            NestedOption::Other => Err(OptionsError::ExpectedNameValue(i as usize)),
        }
    }
}

/// What an options attribute specifies: an empty list gives the defaults, at
/// most two entries are read, and each option may be given once.
pub open spec fn options_of(attr: AttrMeta) -> Result<TableOptions, OptionsError> {
    match attr {
        AttrMeta::List(entries) => if entries@.len() == 0 {
            Ok(default_table_options())
        } else if entries@.len() > 2 {
            Err(OptionsError::TooManyOptions)
        } else {
            scan_options(entries@, 0, false, None)
        },
        AttrMeta::Other => Err(OptionsError::ExpectedList),
    }
}

fn is_named(name: &Option<String>, expected: &str) -> (r: bool)
    ensures
        r == names(*name, expected@),
{
    match name {
        Some(n) => {
            let e = expected.to_owned();
            *n == e
        },
        None => false,
    }
}

/// Reads the storage options of a table from its options attribute.
pub fn get_opts(attr: &AttrMeta) -> (r: Result<TableOptions, OptionsError>)
    ensures
        r == options_of(*attr),
{
    let entries = match attr {
        AttrMeta::List(entries) => entries,
        AttrMeta::Other => {
            return Err(OptionsError::ExpectedList);
        },
    };
    if entries.len() == 0 {
        return Ok(TableOptions { point_lookup: false, cache_capacity: DEFAULT_CACHE_CAPACITY });
    }
    if entries.len() > 2 {
        return Err(OptionsError::TooManyOptions);
    }
    let mut point_lookup = false;
    let mut cache_capacity: Option<usize> = None;
    let mut i: usize = 0;
    while i < entries.len()
        invariant
            i <= entries@.len() <= 2,
            options_of(*attr) == scan_options(entries@, 0, false, None),
            scan_options(entries@, 0, false, None) == scan_options(entries@, i as int, point_lookup, cache_capacity),
        decreases entries@.len() - i,
    {
        match &entries[i] {
            NestedOption::NameValue { name, value } => {
                if is_named(name, "cache_capacity") {
                    if cache_capacity.is_some() {
                        return Err(OptionsError::DuplicateCacheCapacity(i));
                    }
                    match value {
                        OptionValue::Int(Some(n)) => {
                            cache_capacity = Some(*n);
                        },
                        OptionValue::Int(None) => {
                            return Err(OptionsError::InvalidInteger(i));
                        },
                        _ => {
                            return Err(OptionsError::ExpectedUnsignedInteger(i));
                        },
                    }
                } else if is_named(name, "optimization") {
                    if point_lookup {
                        return Err(OptionsError::DuplicateOptimization(i));
                    }
                    match value {
                        OptionValue::Str(s) => {
                            let expected = "point_lookup".to_owned();
                            if *s != expected {
                                return Err(OptionsError::UnsupportedOptimization(i));
                            }
                            point_lookup = true;
                        },
                        _ => {
                            return Err(OptionsError::ExpectedString(i));
                        },
                    }
                } else {
                    return Err(OptionsError::UnknownOption(i));
                }
            },
            NestedOption::Other => {
                return Err(OptionsError::ExpectedNameValue(i));
            },
        }
        i = i + 1;
    }
    Ok(
        TableOptions {
            point_lookup,
            cache_capacity: match cache_capacity {
                Some(c) => c,
                None => DEFAULT_CACHE_CAPACITY,
            },
        },
    )
}

} // verus!

verus! {

/// An attribute on a table field.
pub struct FieldAttribute {
    /// The attribute's path is the single identifier `options`.
    pub is_options: bool,
    pub meta: AttrMeta,
}

/// The declared type of a table field.
pub enum FieldType {
    /// A path type, by the identifier of its first segment and whether that
    /// segment carries angle-bracketed generic arguments.
    Path { first_segment: String, angle_bracketed: bool },
    /// Any other type.
    Other,
}

/// A field of a struct deriving `DBMapUtils`.
pub struct FieldModel {
    /// The field has a name (it belongs to a struct with named fields).
    pub named: bool,
    pub attributes: Vec<FieldAttribute>,
    pub ty: FieldType,
}

/// Why the derive rejects a field.
#[derive(Clone, Copy, Debug, PartialEq, Eq, Structural)]
pub enum FieldError {
    /// More than one attribute on the field.
    TooManyAttributes,
    /// The one attribute is not `options`.
    NotOptionsAttribute,
    /// The `options` attribute is malformed.
    Options(OptionsError),
    /// The field is not of type `DBMap<K, V>`.
    NotDBMap,
    /// The field has no name.
    Unnamed,
}

/// The table options a field declares, or why the derive rejects it.
pub open spec fn field_options_of(f: FieldModel) -> Result<TableOptions, FieldError> {
    if f.attributes@.len() > 1 {
        Err(FieldError::TooManyAttributes)
    } else {
        let opts = if f.attributes@.len() == 0 {
            Ok(default_table_options())
        } else if !f.attributes@[0].is_options {
            Err(FieldError::NotOptionsAttribute)
        } else {
            match options_of(f.attributes@[0].meta) {
                Ok(o) => Ok(o),
                Err(e) => Err(FieldError::Options(e)),
            }
        };
        match opts {
            Err(e) => Err(e),
            Ok(o) => match f.ty {
                FieldType::Path { first_segment, angle_bracketed } => if !angle_bracketed
                    || first_segment@ != "DBMap"@ {
                    Err(FieldError::NotDBMap)
                } else if !f.named {
                    Err(FieldError::Unnamed)
                } else {
                    Ok(o)
                },
                FieldType::Other => Err(FieldError::NotDBMap),
            },
        }
    }
}

/// Checks one field of a struct deriving `DBMapUtils` and reads its table options.
pub fn table_field_options(field: &FieldModel) -> (r: Result<TableOptions, FieldError>)
    ensures
        r == field_options_of(*field),
{
    if field.attributes.len() > 1 {
        return Err(FieldError::TooManyAttributes);
    }
    let opts = if field.attributes.len() == 0 {
        TableOptions { point_lookup: false, cache_capacity: DEFAULT_CACHE_CAPACITY }
    } else if !field.attributes[0].is_options {
        return Err(FieldError::NotOptionsAttribute);
    } else {
        match get_opts(&field.attributes[0].meta) {
            Ok(o) => o,
            Err(e) => {
                return Err(FieldError::Options(e));
            },
        }
    };
    match &field.ty {
        FieldType::Path { first_segment, angle_bracketed } => {
            if !*angle_bracketed {
                return Err(FieldError::NotDBMap);
            }
            let expected = "DBMap".to_owned();
            if *first_segment != expected {
                return Err(FieldError::NotDBMap);
            }
            if !field.named {
                return Err(FieldError::Unnamed);
            }
            Ok(opts)
        },
        FieldType::Other => Err(FieldError::NotDBMap),
    }
}

} // verus!

verus! {

/// The two options may be given in either order: when a two-entry list is
/// accepted, the same entries in the other order are accepted with the same
/// result.
pub proof fn lemma_option_order_irrelevant(x: NestedOption, y: NestedOption)
    requires
        scan_options(seq![x, y], 0, false, None) is Ok,
    ensures
        scan_options(seq![y, x], 0, false, None) == scan_options(seq![x, y], 0, false, None),
{
    reveal_with_fuel(scan_options, 3);
}

/// `entry` is `cache_capacity = <anything>`.
pub open spec fn names_cache_capacity(entry: NestedOption) -> bool {
    entry matches NestedOption::NameValue { name, .. } && names(name, "cache_capacity"@)
}

/// `entry` is `cache_capacity = n`, with `n` a `usize` integer literal.
pub open spec fn is_cache_capacity_entry(entry: NestedOption, n: usize) -> bool {
    entry matches NestedOption::NameValue { name, value: OptionValue::Int(Some(m)) } && names(
        name,
        "cache_capacity"@,
    ) && m == n
}

/// Once a cache capacity has been read, an accepted rest of the list names no
/// cache capacity again and keeps the one read.
proof fn lemma_scan_keeps_read_capacity(
    entries: Seq<NestedOption>,
    i: int,
    point_lookup: bool,
    c: usize,
)
    requires
        0 <= i,
        scan_options(entries, i, point_lookup, Some(c)) is Ok,
    ensures
        scan_options(entries, i, point_lookup, Some(c))->Ok_0.cache_capacity == c,
        forall|k: int| i <= k < entries.len() ==> !names_cache_capacity(#[trigger] entries[k]),
    decreases entries.len() - i,
{
    if i < entries.len() {
        match entries[i] {
            NestedOption::NameValue { name, value } => {
                if !names(name, "cache_capacity"@) && names(name, "optimization"@) && !point_lookup {
                    match value {
                        OptionValue::Str(st) => {
                            if st@ == "point_lookup"@ {
                                lemma_scan_keeps_read_capacity(entries, i + 1, true, c);
                            }
                        },
                        _ => {},
                    }
                }
            },
            NestedOption::Other => {},
        }
    }
}

/// Before any cache capacity is read: an accepted list whose entry `k` (at or
/// after `i`) is `cache_capacity = n` gives capacity `n`.
proof fn lemma_scan_reads_capacity(
    entries: Seq<NestedOption>,
    i: int,
    k: int,
    n: usize,
    point_lookup: bool,
)
    requires
        0 <= i <= k < entries.len(),
        is_cache_capacity_entry(entries[k], n),
        scan_options(entries, i, point_lookup, None) is Ok,
    ensures
        scan_options(entries, i, point_lookup, None)->Ok_0.cache_capacity == n,
    decreases entries.len() - i,
{
    match entries[i] {
        NestedOption::NameValue { name, value } => {
            if names(name, "cache_capacity"@) {
                match value {
                    OptionValue::Int(Some(m)) => {
                        lemma_scan_keeps_read_capacity(entries, i + 1, point_lookup, m);
                        if k != i {
                            assert(names_cache_capacity(entries[k]));
                        }
                    },
                    _ => {},
                }
            } else if names(name, "optimization"@) && !point_lookup {
                match value {
                    OptionValue::Str(st) => {
                        if st@ == "point_lookup"@ {
                            lemma_scan_reads_capacity(entries, i + 1, k, n, true);
                        }
                    },
                    _ => {},
                }
            }
        },
        NestedOption::Other => {},
    }
}

/// An accepted list that names no cache capacity from `i` on, with none read
/// before, gives the default capacity.
proof fn lemma_scan_default_capacity(entries: Seq<NestedOption>, i: int, point_lookup: bool)
    requires
        0 <= i,
        forall|k: int| i <= k < entries.len() ==> !names_cache_capacity(#[trigger] entries[k]),
        scan_options(entries, i, point_lookup, None) is Ok,
    ensures
        scan_options(entries, i, point_lookup, None)->Ok_0.cache_capacity == DEFAULT_CACHE_CAPACITY,
    decreases entries.len() - i,
{
    if i < entries.len() {
        assert(!names_cache_capacity(entries[i]));
        match entries[i] {
            NestedOption::NameValue { name, value } => {
                if names(name, "optimization"@) && !point_lookup {
                    match value {
                        OptionValue::Str(st) => {
                            if st@ == "point_lookup"@ {
                                lemma_scan_default_capacity(entries, i + 1, true);
                            }
                        },
                        _ => {},
                    }
                }
            },
            NestedOption::Other => {},
        }
    }
}

/// The cache capacity of accepted options is the one the attribute gives,
/// unchanged, whatever its value: `cache_capacity = n` yields `n`; without
/// such an entry the default capacity is used.
pub proof fn lemma_cache_capacity_is_the_given_one(entries: Vec<NestedOption>)
    requires
        options_of(AttrMeta::List(entries)) is Ok,
    ensures
        forall|k: int, n: usize|
            0 <= k < entries@.len() && #[trigger] is_cache_capacity_entry(entries@[k], n)
                ==> options_of(AttrMeta::List(entries))->Ok_0.cache_capacity == n,
        (forall|k: int| 0 <= k < entries@.len() ==> !names_cache_capacity(#[trigger] entries@[k]))
            ==> options_of(AttrMeta::List(entries))->Ok_0.cache_capacity == DEFAULT_CACHE_CAPACITY,
{
    if entries@.len() > 0 {
        assert forall|k: int, n: usize|
            0 <= k < entries@.len() && #[trigger] is_cache_capacity_entry(entries@[k], n)
            implies options_of(AttrMeta::List(entries))->Ok_0.cache_capacity == n by {
            lemma_scan_reads_capacity(entries@, 0, k, n, false);
        }
        if forall|k: int| 0 <= k < entries@.len() ==> !names_cache_capacity(#[trigger] entries@[k]) {
            lemma_scan_default_capacity(entries@, 0, false);
        }
    }
}

/// A list holding only `cache_capacity = n` is accepted, for every `n`, with
/// no point-lookup optimization and capacity `n`.
pub proof fn lemma_single_cache_capacity(entries: Vec<NestedOption>, n: usize)
    requires
        entries@.len() == 1,
        is_cache_capacity_entry(entries@[0], n),
    ensures
        options_of(AttrMeta::List(entries)) == Ok::<TableOptions, OptionsError>(
            TableOptions { point_lookup: false, cache_capacity: n },
        ),
{
    reveal_with_fuel(scan_options, 2);
}

/// A field that is accepted has the table options its one `options`
/// attribute specifies, or the defaults when it has no attribute.
pub proof fn lemma_field_options_come_from_its_attribute(f: FieldModel)
    requires
        field_options_of(f) is Ok,
    ensures
        f.attributes@.len() <= 1,
        f.attributes@.len() == 1 ==> f.attributes@[0].is_options && options_of(f.attributes@[0].meta)
            == Ok::<TableOptions, OptionsError>(field_options_of(f)->Ok_0),
        f.attributes@.len() == 0 ==> field_options_of(f) == Ok::<TableOptions, FieldError>(
            TableOptions { point_lookup: false, cache_capacity: DEFAULT_CACHE_CAPACITY },
        ),
{
}

} // verus!
