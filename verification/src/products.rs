//! The product catalogue: the checks on product data, the rules for merging
//! an update into a stored product, and the image list rules.
use vstd::prelude::*;

use crate::auth::Principal;
use crate::error::{conflict, validation, AppError};
use crate::text::{
    chars_of, char_is_control, collapse_whitespace, collapse_ws, dec, dec_text, fmt_padded,
    format_padded, is_control, join_path, joined_path, owned, to_upper, trim, trim_str, upper_of,
    utf8_byte_len, utf8_len,
};

verus! {

/// Longest article number, in bytes.
pub const MAX_ARTICLE_LEN: usize = 64;

/// Longest product name, in characters.
pub const MAX_NAME_LEN: usize = 200;

/// Longest description or note, in characters.
pub const MAX_LONG_TEXT_LEN: usize = 4000;

pub const MAX_ATTR_NAME_LEN: usize = 60;

pub const MAX_ATTR_VALUE_LEN: usize = 200;

pub const MAX_ATTRIBUTES: usize = 60;

/// Most images one product may have.
pub const MAX_PRODUCT_IMAGES: usize = 8;

/// Most rows a search answers with.
pub const SEARCH_LIMIT: i64 = 300;

// ---------------------------------------------------------------------------
// Text fields
// ---------------------------------------------------------------------------

/// Why an article number is refused, if it is.
pub open spec fn article_fault(raw: Seq<char>) -> Option<Seq<char>> {
    let display = collapse_ws(raw);
    if display.len() == 0 || utf8_len(display) > MAX_ARTICLE_LEN {
        Some("article number is required and must be 64 characters or fewer"@)
    } else if exists|k: int| 0 <= k < display.len() && is_control(#[trigger] display[k]) {
        Some("article number contains invalid characters"@)
    } else {
        None
    }
}

/// The display form of an article number (its words joined by single
/// spaces) and the upper-cased form under which it is unique and looked up.
pub fn normalize_article_number(raw: &str) -> (r: Result<(String, String), AppError>)
    ensures
        match article_fault(raw@) {
            Some(msg) => r matches Err(AppError::Validation(m)) && m@ == msg,
            None => r matches Ok((d, n)) && d@ == collapse_ws(raw@) && n@ == upper_of(
                collapse_ws(raw@),
            ),
        },
{
    let display = collapse_whitespace(raw);
    if display.unicode_len() == 0 || utf8_byte_len(display.as_str()) > 64 {
        return Err(validation("article number is required and must be 64 characters or fewer"));
    }
    let v = chars_of(display.as_str());
    let mut i: usize = 0;
    while i < v.len()
        invariant
            i <= v.len(),
            v@ == display@,
            display@ == collapse_ws(raw@),
            display@.len() > 0,
            utf8_len(display@) <= MAX_ARTICLE_LEN,
            forall|k: int| 0 <= k < i ==> !is_control(#[trigger] v@[k]),
        decreases v.len() - i,
    {
        if char_is_control(v[i]) {
            assert(is_control(display@[i as int]));
            return Err(validation("article number contains invalid characters"));
        }
        i += 1;
    }
    let norm = to_upper(display.as_str());
    Ok((display, norm))
}

/// `label is required and must be max characters or fewer`.
pub open spec fn required_message(label: Seq<char>, max: nat) -> Seq<char> {
    label + " is required and must be "@ + dec(max) + " characters or fewer"@
}

/// `label must be max characters or fewer`.
pub open spec fn too_long_message(label: Seq<char>, max: nat) -> Seq<char> {
    label + " must be "@ + dec(max) + " characters or fewer"@
}

fn message3(a: &str, b: &str, n: usize, c: &str) -> (r: String)
    ensures
        r@ == a@ + b@ + dec(n as nat) + c@,
{
    let mut m = owned(a);
    m.append(b);
    let d = dec_text(n as u64);
    m.append(d.as_str());
    m.append(c);
    m
}

/// A required text, trimmed; refused when blank or longer than `max`
/// characters.
pub fn required_text(label: &str, value: &str, max: usize) -> (r: Result<String, AppError>)
    ensures
        trim(value@).len() == 0 || trim(value@).len() > max ==> (r matches Err(
            AppError::Validation(m),
        ) && m@ == required_message(label@, max as nat)),
        !(trim(value@).len() == 0 || trim(value@).len() > max) ==> (r matches Ok(t) && t@ == trim(
            value@,
        )),
{
    let trimmed = trim_str(value);
    let n = trimmed.unicode_len();
    if n == 0 || n > max {
        return Err(
            AppError::Validation(
                message3(label, " is required and must be ", max, " characters or fewer"),
            ),
        );
    }
    Ok(trimmed)
}

/// What an optional free text becomes: nothing given keeps nothing, a blank
/// text clears (stored as no value), and a text longer than `max` characters
/// is refused.
pub open spec fn optional_as(
    r: Result<Option<String>, AppError>,
    value: Option<String>,
    label: Seq<char>,
    max: nat,
) -> bool {
    match value {
        None => r == Ok::<Option<String>, AppError>(None),
        Some(raw) => if trim(raw@).len() == 0 {
            r == Ok::<Option<String>, AppError>(None)
        } else if trim(raw@).len() > max {
            r matches Err(AppError::Validation(m)) && m@ == too_long_message(label, max)
        } else {
            r matches Ok(Some(t)) && t@ == trim(raw@)
        },
    }
}

/// Optional free text: `None` keeps the current value, an empty text clears
/// it (stored as no value).
pub fn optional_text(value: &Option<String>, label: &str, max: usize) -> (r: Result<
    Option<String>,
    AppError,
>)
    ensures
        optional_as(r, *value, label@, max as nat),
{
    match value {
        None => Ok(None),
        Some(raw) => {
            let trimmed = trim_str(raw.as_str());
            let n = trimmed.unicode_len();
            if n == 0 {
                return Ok(None);
            }
            if n > max {
                return Err(
                    AppError::Validation(message3(label, " must be ", max, " characters or fewer")),
                );
            }
            Ok(Some(trimmed))
        },
    }
}

/// An amount in minor units may not be negative.
pub fn validate_minor(label: &str, value: i64) -> (r: Result<(), AppError>)
    ensures
        value < 0 ==> (r matches Err(AppError::Validation(m)) && m@ == label@
            + " cannot be negative"@),
        value >= 0 ==> r is Ok,
{
    if value < 0 {
        let mut m = owned(label);
        m.append(" cannot be negative");
        return Err(AppError::Validation(m));
    }
    Ok(())
}

// ---------------------------------------------------------------------------
// Attributes
// ---------------------------------------------------------------------------

/// A free-form attribute as entered: a name and a value.
#[derive(Debug)]
pub struct AttributeInput {
    pub name: String,
    pub value: String,
}

/// Why an attribute is refused, if it is: its trimmed name and value must be
/// non-empty and within their lengths.
pub open spec fn attribute_fault(a: AttributeInput) -> Option<Seq<char>> {
    let name = trim(a.name@);
    let value = trim(a.value@);
    if name.len() == 0 || name.len() > MAX_ATTR_NAME_LEN {
        Some("attribute names must be non-empty and 60 characters or fewer"@)
    } else if value.len() == 0 || value.len() > MAX_ATTR_VALUE_LEN {
        Some("attribute values must be non-empty and 200 characters or fewer"@)
    } else {
        None
    }
}

/// The first attribute at fault, if any.
pub open spec fn first_attribute_fault(attributes: Seq<AttributeInput>) -> Option<Seq<char>>
    decreases attributes.len(),
{
    if attributes.len() == 0 {
        None
    } else {
        match first_attribute_fault(attributes.drop_last()) {
            Some(msg) => Some(msg),
            None => attribute_fault(attributes.last()),
        }
    }
}

/// Why a list of attributes is refused: more than sixty, or the first one at
/// fault.
pub open spec fn attributes_fault(attributes: Seq<AttributeInput>) -> Option<Seq<char>> {
    if attributes.len() > MAX_ATTRIBUTES {
        Some("at most 60 attributes are allowed"@)
    } else {
        first_attribute_fault(attributes)
    }
}

/// A fault in a prefix is the fault of the whole list.
proof fn lemma_attribute_fault_prefix(attributes: Seq<AttributeInput>, n: int)
    requires
        0 <= n <= attributes.len(),
        first_attribute_fault(attributes.take(n)) is Some,
    ensures
        first_attribute_fault(attributes) == first_attribute_fault(attributes.take(n)),
    decreases attributes.len() - n,
{
    if n < attributes.len() {
        assert(attributes.take(n + 1).drop_last() =~= attributes.take(n));
        lemma_attribute_fault_prefix(attributes, n + 1);
    } else {
        assert(attributes.take(n) =~= attributes);
    }
}

/// The attributes, trimmed and in their order.
pub fn normalize_attributes(attributes: &Vec<AttributeInput>) -> (r: Result<
    Vec<(String, String)>,
    AppError,
>)
    ensures
        match attributes_fault(attributes@) {
            Some(msg) => r matches Err(AppError::Validation(m)) && m@ == msg,
            None => r matches Ok(out) && out.len() == attributes.len() && forall|i: int|
                0 <= i < attributes.len() ==> (#[trigger] out@[i]).0@ == trim(attributes@[i].name@)
                    && out@[i].1@ == trim(attributes@[i].value@),
        },
{
    if attributes.len() > 60 {
        return Err(validation("at most 60 attributes are allowed"));
    }
    let mut out: Vec<(String, String)> = Vec::new();
    let mut i: usize = 0;
    assert(attributes@.take(0) =~= Seq::<AttributeInput>::empty());
    while i < attributes.len()
        invariant
            i <= attributes.len(),
            attributes.len() <= MAX_ATTRIBUTES,
            out.len() == i,
            first_attribute_fault(attributes@.take(i as int)) is None,
            forall|j: int|
                0 <= j < i ==> (#[trigger] out@[j]).0@ == trim(attributes@[j].name@) && out@[j].1@
                    == trim(attributes@[j].value@),
        decreases attributes.len() - i,
    {
        let name = trim_str(attributes[i].name.as_str());
        let value = trim_str(attributes[i].value.as_str());
        proof {
            assert(attributes@.take(i + 1).drop_last() =~= attributes@.take(i as int));
            assert(attributes@.take(i + 1).last() == attributes@[i as int]);
        }
        let nl = name.unicode_len();
        if nl == 0 || nl > 60 {
            proof {
                lemma_attribute_fault_prefix(attributes@, i + 1);
            }
            return Err(validation("attribute names must be non-empty and 60 characters or fewer"));
        }
        let vl = value.unicode_len();
        if vl == 0 || vl > 200 {
            proof {
                lemma_attribute_fault_prefix(attributes@, i + 1);
            }
            return Err(
                validation("attribute values must be non-empty and 200 characters or fewer"),
            );
        }
        out.push((name, value));
        i += 1;
    }
    assert(attributes@.take(attributes@.len() as int) =~= attributes@);
    Ok(out)
}

// ---------------------------------------------------------------------------
// Stored file names
// ---------------------------------------------------------------------------

/// A name that stays inside the images directory: not empty, no separator.
pub open spec fn safe_name(name: Seq<char>) -> bool {
    name.len() > 0 && forall|k: int| 0 <= k < name.len() ==> name[k] != '/' && name[k] != '\\'
}

pub fn safe_relative_filename(name: &str) -> (r: bool)
    ensures
        r == safe_name(name@),
{
    let v = chars_of(name);
    if v.len() == 0 {
        return false;
    }
    let mut i: usize = 0;
    while i < v.len()
        invariant
            i <= v.len(),
            v@ == name@,
            forall|k: int| 0 <= k < i ==> v@[k] != '/' && v@[k] != '\\',
        decreases v.len() - i,
    {
        if v[i] == '/' || v[i] == '\\' {
            return false;
        }
        i += 1;
    }
    true
}

/// Where a stored image lies, or an empty text for a name that would leave
/// the images directory.
pub fn abs_path(images_dir: &str, relative: &str) -> (r: String)
    ensures
        safe_name(relative@) ==> r@ == joined_path(images_dir@, relative@),
        !safe_name(relative@) ==> r@.len() == 0,
{
    if safe_relative_filename(relative) {
        join_path(images_dir, relative)
    } else {
        String::new()
    }
}

/// The files an image import made: the stored image and its thumbnail.
#[derive(Debug)]
pub struct GeneratedImage {
    pub stored_name: String,
    pub thumbnail_name: String,
}

/// Every generated file name, image before thumbnail, in import order: what
/// a failed operation removes again.
pub fn generated_names(images: &Vec<GeneratedImage>) -> (r: Vec<String>)
    ensures
        r.len() == 2 * images.len(),
        forall|i: int|
            0 <= i < images.len() ==> r@[2 * i] == #[trigger] images@[i].stored_name && r@[2 * i
                + 1] == images@[i].thumbnail_name,
{
    let mut r: Vec<String> = Vec::new();
    let mut i: usize = 0;
    while i < images.len()
        invariant
            i <= images.len(),
            r.len() == 2 * i,
            forall|j: int|
                0 <= j < i ==> r@[2 * j] == #[trigger] images@[j].stored_name && r@[2 * j + 1]
                    == images@[j].thumbnail_name,
        decreases images.len() - i,
    {
        let ghost before = r@;
        r.push(images[i].stored_name.clone());
        r.push(images[i].thumbnail_name.clone());
        assert forall|j: int| 0 <= j <= i implies r@[2 * j] == #[trigger] images@[j].stored_name
            && r@[2 * j + 1] == images@[j].thumbnail_name by {
            if j < i {
                assert(r@[2 * j] == before[2 * j]);
                assert(r@[2 * j + 1] == before[2 * j + 1]);
            }
        }
        i += 1;
    }
    r
}


// ---------------------------------------------------------------------------
// New products
// ---------------------------------------------------------------------------

/// The first of two faults.
pub open spec fn either(first: Option<Seq<char>>, second: Option<Seq<char>>) -> Option<Seq<char>> {
    if first is Some {
        first
    } else {
        second
    }
}

pub open spec fn required_fault(value: Seq<char>, label: Seq<char>, max: nat) -> Option<Seq<char>> {
    if trim(value).len() == 0 || trim(value).len() > max {
        Some(required_message(label, max))
    } else {
        None
    }
}

pub open spec fn optional_fault(value: Option<String>, label: Seq<char>, max: nat) -> Option<
    Seq<char>,
> {
    match value {
        Some(raw) => if trim(raw@).len() > max {
            Some(too_long_message(label, max))
        } else {
            None
        },
        None => None,
    }
}

pub open spec fn minor_fault(label: Seq<char>, value: int) -> Option<Seq<char>> {
    if value < 0 {
        Some(label + " cannot be negative"@)
    } else {
        None
    }
}

/// The image sources worth importing: trimmed, blanks dropped, in order.
pub open spec fn kept_paths(paths: Seq<String>) -> Seq<Seq<char>>
    decreases paths.len(),
{
    if paths.len() == 0 {
        Seq::empty()
    } else if trim(paths.last()@).len() == 0 {
        kept_paths(paths.drop_last())
    } else {
        kept_paths(paths.drop_last()).push(trim(paths.last()@))
    }
}

/// The image sources of a new product: trimmed, blanks dropped, at most
/// eight.
pub fn image_sources(paths: &Vec<String>) -> (r: Result<Vec<String>, AppError>)
    ensures
        kept_paths(paths@).len() > MAX_PRODUCT_IMAGES ==> (r matches Err(AppError::Validation(m))
            && m@ == "at most 8 images per product"@),
        kept_paths(paths@).len() <= MAX_PRODUCT_IMAGES ==> (r matches Ok(v) && v@.map_values(
            |p: String| p@,
        ) == kept_paths(paths@)),
{
    let mut out: Vec<String> = Vec::new();
    let mut i: usize = 0;
    while i < paths.len()
        invariant
            i <= paths.len(),
            out@.map_values(|p: String| p@) == kept_paths(paths@.take(i as int)),
        decreases paths.len() - i,
    {
        let t = trim_str(paths[i].as_str());
        proof {
            assert(paths@.take(i + 1).drop_last() =~= paths@.take(i as int));
            assert(paths@.take(i + 1).last() == paths@[i as int]);
        }
        if t.unicode_len() > 0 {
            out.push(t);
            assert(out@.map_values(|p: String| p@) =~= kept_paths(paths@.take(i + 1)));
        }
        i += 1;
    }
    assert(paths@.take(paths@.len() as int) =~= paths@);
    if out.len() > 8 {
        return Err(validation("at most 8 images per product"));
    }
    Ok(out)
}

/// A product as entered for creation.
#[derive(Debug)]
pub struct CreateProductInput {
    pub article_number: String,
    pub name: String,
    pub category_id: i64,
    pub product_type_id: Option<i64>,
    pub unit_id: Option<i64>,
    pub description: Option<String>,
    pub material: Option<String>,
    pub color: Option<String>,
    pub dimensions_text: Option<String>,
    pub brand: Option<String>,
    pub barcode: Option<String>,
    pub warranty_months: Option<i64>,
    pub notes: Option<String>,
    pub cost_minor: i64,
    pub sale_price_minor: i64,
    pub minimum_stock: i64,
    pub track_stock: bool,
    pub attributes: Vec<AttributeInput>,
    pub image_paths: Vec<String>,
}

/// The texts of a new product after the checks.
#[derive(Debug)]
pub struct NewProductTexts {
    pub article_number: String,
    pub article_number_norm: String,
    pub name: String,
    pub description: Option<String>,
    pub material: Option<String>,
    pub color: Option<String>,
    pub dimensions_text: Option<String>,
    pub brand: Option<String>,
    pub barcode: Option<String>,
    pub notes: Option<String>,
    pub attributes: Vec<(String, String)>,
    pub image_paths: Vec<String>,
}

/// Why a new product is refused, checked field by field in this order.
pub open spec fn new_product_fault(input: CreateProductInput) -> Option<Seq<char>> {
    either(
        article_fault(input.article_number@),
        either(
            required_fault(input.name@, "product name"@, 200),
            either(
                optional_fault(input.description, "description"@, 4000),
                either(
                    optional_fault(input.material, "material"@, 200),
                    either(
                        optional_fault(input.color, "color"@, 200),
                        either(
                            optional_fault(input.dimensions_text, "dimensions"@, 200),
                            either(
                                optional_fault(input.brand, "brand"@, 200),
                                either(
                                    optional_fault(input.barcode, "barcode"@, 64),
                                    either(
                                        optional_fault(input.notes, "notes"@, 4000),
                                        either(
                                            minor_fault("purchase cost"@, input.cost_minor as int),
                                            either(
                                                minor_fault(
                                                    "sale price"@,
                                                    input.sale_price_minor as int,
                                                ),
                                                either(
                                                    minor_fault(
                                                        "minimum stock"@,
                                                        input.minimum_stock as int,
                                                    ),
                                                    either(
                                                        attributes_fault(input.attributes@),
                                                        if kept_paths(input.image_paths@).len()
                                                            > MAX_PRODUCT_IMAGES {
                                                            Some("at most 8 images per product"@)
                                                        } else {
                                                            None
                                                        },
                                                    ),
                                                ),
                                            ),
                                        ),
                                    ),
                                ),
                            ),
                        ),
                    ),
                ),
            ),
        ),
    )
}

/// An optional text after the checks: trimmed, blank as none.
pub open spec fn cleaned(value: Option<String>, out: Option<String>) -> bool {
    match value {
        None => out is None,
        Some(raw) => if trim(raw@).len() == 0 {
            out is None
        } else {
            out matches Some(t) && t@ == trim(raw@)
        },
    }
}

fn optional_step(value: &Option<String>, label: &str, max: usize) -> (r: Result<
    Option<String>,
    AppError,
>)
    ensures
        match optional_fault(*value, label@, max as nat) {
            Some(msg) => r matches Err(AppError::Validation(m)) && m@ == msg,
            None => r matches Ok(out) && cleaned(*value, out),
        },
{
    optional_text(value, label, max)
}

fn minor_step(label: &str, value: i64) -> (r: Result<(), AppError>)
    ensures
        match minor_fault(label@, value as int) {
            Some(msg) => r matches Err(AppError::Validation(m)) && m@ == msg,
            None => r is Ok,
        },
{
    validate_minor(label, value)
}

/// The checks a new product passes before anything is stored: article
/// number, name, the optional texts, the amounts, the attributes and the
/// image sources; the first fault decides the error.
pub fn check_new_product(input: &CreateProductInput) -> (r: Result<NewProductTexts, AppError>)
    ensures
        match new_product_fault(*input) {
            Some(msg) => r matches Err(AppError::Validation(m)) && m@ == msg,
            None => r matches Ok(t) && {
                &&& t.article_number@ == collapse_ws(input.article_number@)
                &&& t.article_number_norm@ == upper_of(collapse_ws(input.article_number@))
                &&& t.name@ == trim(input.name@)
                &&& cleaned(input.description, t.description)
                &&& cleaned(input.material, t.material)
                &&& cleaned(input.color, t.color)
                &&& cleaned(input.dimensions_text, t.dimensions_text)
                &&& cleaned(input.brand, t.brand)
                &&& cleaned(input.barcode, t.barcode)
                &&& cleaned(input.notes, t.notes)
                &&& t.attributes.len() == input.attributes.len()
                &&& forall|i: int|
                    0 <= i < input.attributes.len() ==> (#[trigger] t.attributes@[i]).0@ == trim(
                        input.attributes@[i].name@,
                    ) && t.attributes@[i].1@ == trim(input.attributes@[i].value@)
                &&& t.image_paths@.map_values(|p: String| p@) == kept_paths(input.image_paths@)
            },
        },
{
    let (article_number, article_number_norm) = normalize_article_number(
        input.article_number.as_str(),
    )?;
    let name = required_text("product name", input.name.as_str(), 200)?;
    let description = optional_step(&input.description, "description", 4000)?;
    let material = optional_step(&input.material, "material", 200)?;
    let color = optional_step(&input.color, "color", 200)?;
    let dimensions_text = optional_step(&input.dimensions_text, "dimensions", 200)?;
    let brand = optional_step(&input.brand, "brand", 200)?;
    let barcode = optional_step(&input.barcode, "barcode", 64)?;
    let notes = optional_step(&input.notes, "notes", 4000)?;
    minor_step("purchase cost", input.cost_minor)?;
    minor_step("sale price", input.sale_price_minor)?;
    minor_step("minimum stock", input.minimum_stock)?;
    let attributes = normalize_attributes(&input.attributes)?;
    let image_paths = image_sources(&input.image_paths)?;
    Ok(
        NewProductTexts {
            article_number,
            article_number_norm,
            name,
            description,
            material,
            color,
            dimensions_text,
            brand,
            barcode,
            notes,
            attributes,
            image_paths,
        },
    )
}


// ---------------------------------------------------------------------------
// Updating a product
// ---------------------------------------------------------------------------

/// A stored product's editable fields.
#[derive(Debug)]
pub struct ProductSnapshot {
    pub article_number: String,
    pub article_number_norm: String,
    pub name: String,
    pub category_id: i64,
    pub product_type_id: Option<i64>,
    pub unit_id: Option<i64>,
    pub description: Option<String>,
    pub material: Option<String>,
    pub color: Option<String>,
    pub dimensions_text: Option<String>,
    pub brand: Option<String>,
    pub barcode: Option<String>,
    pub warranty_months: Option<i64>,
    pub notes: Option<String>,
    pub cost_minor: i64,
    pub sale_price_minor: i64,
    pub minimum_stock: i64,
    pub track_stock: bool,
    pub is_active: bool,
}

/// A partial update: every field left out keeps its stored value. For the
/// type and the unit, `Some(None)` clears them.
#[derive(Debug)]
pub struct UpdateProductInput {
    pub article_number: Option<String>,
    pub name: Option<String>,
    pub category_id: Option<i64>,
    pub product_type_id: Option<Option<i64>>,
    pub unit_id: Option<Option<i64>>,
    pub description: Option<String>,
    pub material: Option<String>,
    pub color: Option<String>,
    pub dimensions_text: Option<String>,
    pub brand: Option<String>,
    pub barcode: Option<String>,
    pub warranty_months: Option<i64>,
    pub notes: Option<String>,
    pub cost_minor: Option<i64>,
    pub sale_price_minor: Option<i64>,
    pub minimum_stock: Option<i64>,
    pub track_stock: Option<bool>,
    pub attributes: Option<Vec<AttributeInput>>,
}

/// The parts of an update that were checked before anything is read.
#[derive(Debug)]
pub struct CheckedUpdate {
    /// Display and normalized article number, when a new one is given.
    pub article: Option<(String, String)>,
    pub name: Option<String>,
    /// The attributes that replace the stored ones, when given.
    pub attributes: Option<Vec<(String, String)>>,
}

pub open spec fn unwrap_or_zero(v: Option<i64>) -> int {
    match v {
        Some(x) => x as int,
        None => 0,
    }
}

/// Why an update is refused before anything is read, checked in this order.
pub open spec fn update_fault(input: UpdateProductInput) -> Option<Seq<char>> {
    either(
        match input.article_number {
            Some(a) => article_fault(a@),
            None => None,
        },
        either(
            match input.name {
                Some(n) => required_fault(n@, "product name"@, 200),
                None => None,
            },
            either(
                optional_fault(input.description, "description"@, 4000),
                either(
                    minor_fault("sale price"@, unwrap_or_zero(input.sale_price_minor)),
                    either(
                        minor_fault("minimum stock"@, unwrap_or_zero(input.minimum_stock)),
                        either(
                            match input.cost_minor {
                                Some(c) => minor_fault("purchase cost"@, c as int),
                                None => None,
                            },
                            match input.attributes {
                                Some(a) => attributes_fault(a@),
                                None => None,
                            },
                        ),
                    ),
                ),
            ),
        ),
    )
}

/// The checks an update passes before the stored product is read.
pub fn check_product_update(input: &UpdateProductInput) -> (r: Result<CheckedUpdate, AppError>)
    ensures
        match update_fault(*input) {
            Some(msg) => r matches Err(AppError::Validation(m)) && m@ == msg,
            None => r matches Ok(c) && {
                &&& match input.article_number {
                    Some(a) => c.article matches Some((d, n)) && d@ == collapse_ws(a@) && n@
                        == upper_of(collapse_ws(a@)),
                    None => c.article is None,
                }
                &&& match input.name {
                    Some(n) => c.name matches Some(t) && t@ == trim(n@),
                    None => c.name is None,
                }
                &&& match input.attributes {
                    Some(a) => c.attributes matches Some(out) && out.len() == a.len() && forall|
                        i: int,
                    |
                        0 <= i < a.len() ==> (#[trigger] out@[i]).0@ == trim(a@[i].name@)
                            && out@[i].1@ == trim(a@[i].value@),
                    None => c.attributes is None,
                }
            },
        },
{
    let article = match &input.article_number {
        Some(raw) => Some(normalize_article_number(raw.as_str())?),
        None => None,
    };
    let name = match &input.name {
        Some(raw) => Some(required_text("product name", raw.as_str(), 200)?),
        None => None,
    };
    optional_step(&input.description, "description", 4000)?;
    minor_step(
        "sale price",
        match input.sale_price_minor {
            Some(v) => v,
            None => 0,
        },
    )?;
    minor_step(
        "minimum stock",
        match input.minimum_stock {
            Some(v) => v,
            None => 0,
        },
    )?;
    match input.cost_minor {
        Some(c) => {
            minor_step("purchase cost", c)?;
        },
        None => {},
    }
    let attributes = match &input.attributes {
        Some(items) => Some(normalize_attributes(items)?),
        None => None,
    };
    Ok(CheckedUpdate { article, name, attributes })
}

/// The category and type whose pairing must be checked: a new type under a
/// new category; and, when only the category changes, the stored type under
/// the new category, so that a move never leaves a type of the old category
/// behind.
pub fn type_check_for(
    category_id: Option<i64>,
    product_type_id: Option<Option<i64>>,
    current_type: Option<i64>,
) -> (r: Option<(i64, i64)>)
    ensures
        r == match (category_id, product_type_id) {
            (Some(cat), Some(Some(tid))) => Some((cat, tid)),
            (Some(cat), None) => match current_type {
                Some(tid) => Some((cat, tid)),
                None => None,
            },
            _ => None,
        },
{
    match (category_id, product_type_id) {
        (Some(cat), Some(Some(tid))) => Some((cat, tid)),
        (Some(cat), None) => match current_type {
            Some(tid) => Some((cat, tid)),
            None => None,
        },
        _ => None,
    }
}

/// A given value replaces the stored one.
pub open spec fn given_or<T>(given: Option<T>, stored: T) -> T {
    match given {
        Some(v) => v,
        None => stored,
    }
}

/// A given optional text replaces the stored one as it is entered.
pub open spec fn text_given_or(given: Option<String>, stored: Option<String>) -> Option<String> {
    match given {
        Some(v) => Some(v),
        None => stored,
    }
}

/// What merging a checked update into the stored product gives: each given
/// field replaces the stored one (the description and notes trimmed, blank
/// clearing them), the others stay.
pub open spec fn merged_as(
    merged: ProductSnapshot,
    current: ProductSnapshot,
    input: UpdateProductInput,
    checked: CheckedUpdate,
) -> bool {
    &&& merged.article_number == match checked.article {
        Some((d, _)) => d,
        None => current.article_number,
    }
    &&& merged.article_number_norm == match checked.article {
        Some((_, n)) => n,
        None => current.article_number_norm,
    }
    &&& merged.name == given_or(checked.name, current.name)
    &&& merged.category_id == given_or(input.category_id, current.category_id)
    &&& merged.product_type_id == given_or(input.product_type_id, current.product_type_id)
    &&& merged.unit_id == given_or(input.unit_id, current.unit_id)
    &&& match input.description {
        Some(_) => cleaned(input.description, merged.description),
        None => merged.description == current.description,
    }
    &&& merged.material == text_given_or(input.material, current.material)
    &&& merged.color == text_given_or(input.color, current.color)
    &&& merged.dimensions_text == text_given_or(input.dimensions_text, current.dimensions_text)
    &&& merged.brand == text_given_or(input.brand, current.brand)
    &&& merged.barcode == text_given_or(input.barcode, current.barcode)
    &&& merged.warranty_months == match input.warranty_months {
        Some(w) => Some(w),
        None => current.warranty_months,
    }
    &&& match input.notes {
        Some(_) => cleaned(input.notes, merged.notes),
        None => merged.notes == current.notes,
    }
    &&& merged.cost_minor == given_or(input.cost_minor, current.cost_minor)
    &&& merged.sale_price_minor == given_or(input.sale_price_minor, current.sale_price_minor)
    &&& merged.minimum_stock == given_or(input.minimum_stock, current.minimum_stock)
    &&& merged.track_stock == given_or(input.track_stock, current.track_stock)
    &&& merged.is_active == current.is_active
}

/// Merges a checked update into the stored product. The description is
/// checked again here, and the notes only here, once the stored product was
/// read.
pub fn merge_product_update(
    current: ProductSnapshot,
    input: UpdateProductInput,
    checked: CheckedUpdate,
) -> (r: Result<ProductSnapshot, AppError>)
    ensures
        match either(
            optional_fault(input.description, "description"@, 4000),
            optional_fault(input.notes, "notes"@, 4000),
        ) {
            Some(msg) => r matches Err(AppError::Validation(m)) && m@ == msg,
            None => r matches Ok(merged) && merged_as(merged, current, input, checked),
        },
{
    let description = match &input.description {
        Some(_) => optional_step(&input.description, "description", 4000)?,
        None => current.description,
    };
    let notes = match &input.notes {
        Some(_) => optional_step(&input.notes, "notes", 4000)?,
        None => current.notes,
    };
    let (article_number, article_number_norm) = match checked.article {
        Some((d, n)) => (d, n),
        None => (current.article_number, current.article_number_norm),
    };
    Ok(
        ProductSnapshot {
            article_number,
            article_number_norm,
            name: match checked.name {
                Some(n) => n,
                None => current.name,
            },
            category_id: match input.category_id {
                Some(c) => c,
                None => current.category_id,
            },
            product_type_id: match input.product_type_id {
                Some(t) => t,
                None => current.product_type_id,
            },
            unit_id: match input.unit_id {
                Some(u) => u,
                None => current.unit_id,
            },
            description,
            material: match input.material {
                Some(v) => Some(v),
                None => current.material,
            },
            color: match input.color {
                Some(v) => Some(v),
                None => current.color,
            },
            dimensions_text: match input.dimensions_text {
                Some(v) => Some(v),
                None => current.dimensions_text,
            },
            brand: match input.brand {
                Some(v) => Some(v),
                None => current.brand,
            },
            barcode: match input.barcode {
                Some(v) => Some(v),
                None => current.barcode,
            },
            warranty_months: match input.warranty_months {
                Some(w) => Some(w),
                None => current.warranty_months,
            },
            notes,
            cost_minor: match input.cost_minor {
                Some(c) => c,
                None => current.cost_minor,
            },
            sale_price_minor: match input.sale_price_minor {
                Some(c) => c,
                None => current.sale_price_minor,
            },
            minimum_stock: match input.minimum_stock {
                Some(c) => c,
                None => current.minimum_stock,
            },
            track_stock: match input.track_stock {
                Some(t) => t,
                None => current.track_stock,
            },
            is_active: current.is_active,
        },
    )
}


/// An update that gives no field.
pub open spec fn gives_nothing(input: UpdateProductInput) -> bool {
    &&& input.article_number is None
    &&& input.name is None
    &&& input.category_id is None
    &&& input.product_type_id is None
    &&& input.unit_id is None
    &&& input.description is None
    &&& input.material is None
    &&& input.color is None
    &&& input.dimensions_text is None
    &&& input.brand is None
    &&& input.barcode is None
    &&& input.warranty_months is None
    &&& input.notes is None
    &&& input.cost_minor is None
    &&& input.sale_price_minor is None
    &&& input.minimum_stock is None
    &&& input.track_stock is None
    &&& input.attributes is None
}

/// A field left out keeps its stored value: an update that gives nothing
/// leaves the product as it was.
pub proof fn law_empty_update_keeps_product(
    merged: ProductSnapshot,
    current: ProductSnapshot,
    input: UpdateProductInput,
    checked: CheckedUpdate,
)
    requires
        gives_nothing(input),
        checked.article is None,
        checked.name is None,
        merged_as(merged, current, input, checked),
    ensures
        merged == current,
{
}

/// Giving a field replaces exactly that field: the others keep their stored
/// values, whatever they were.
pub proof fn law_update_touches_only_given_fields(
    merged: ProductSnapshot,
    current: ProductSnapshot,
    input: UpdateProductInput,
    checked: CheckedUpdate,
)
    requires
        merged_as(merged, current, input, checked),
    ensures
        input.category_id is None ==> merged.category_id == current.category_id,
        input.unit_id is None ==> merged.unit_id == current.unit_id,
        input.sale_price_minor is None ==> merged.sale_price_minor == current.sale_price_minor,
        input.cost_minor is None ==> merged.cost_minor == current.cost_minor,
        input.notes is None ==> merged.notes == current.notes,
        merged.is_active == current.is_active,
{
}

// ---------------------------------------------------------------------------
// Archiving
// ---------------------------------------------------------------------------

pub open spec fn product_missing_message(product_id: i64) -> Seq<char> {
    "product "@ + fmt_padded(product_id as int, 0)
}

fn product_missing(product_id: i64) -> (e: AppError)
    ensures
        e matches AppError::NotFound(m) && m@ == product_missing_message(product_id),
{
    let mut m = owned("product ");
    let n = format_padded(product_id, 0);
    m.append(n.as_str());
    AppError::NotFound(m)
}

/// Archiving needs the product (`archived_at` as stored, when found) and
/// refuses one already archived.
pub fn check_archive(product_id: i64, found: Option<Option<String>>) -> (r: Result<(), AppError>)
    ensures
        match found {
            None => r matches Err(AppError::NotFound(m)) && m@ == product_missing_message(
                product_id,
            ),
            Some(Some(_)) => r matches Err(AppError::Conflict(m)) && m@
                == "product is already archived"@,
            Some(None) => r is Ok,
        },
{
    match found {
        None => Err(product_missing(product_id)),
        Some(Some(_)) => Err(conflict("product is already archived")),
        Some(None) => Ok(()),
    }
}

/// Restoring needs an archived product whose article number no live product
/// took meanwhile. `found` is the product's name and whether it is archived.
pub fn check_unarchive(product_id: i64, found: Option<(String, bool)>, article_taken: bool) -> (r:
    Result<(), AppError>)
    ensures
        match found {
            None => r matches Err(AppError::NotFound(m)) && m@ == product_missing_message(
                product_id,
            ),
            Some((name, archived)) => if !archived {
                r matches Err(AppError::Conflict(m)) && m@ == "product is not archived"@
            } else if article_taken {
                r matches Err(AppError::Conflict(m)) && m@ == "cannot restore: article number `"@
                    + name@ + "` is already in use by another live product"@
            } else {
                r is Ok
            },
        },
{
    match found {
        None => Err(product_missing(product_id)),
        Some((name, archived)) => {
            if !archived {
                return Err(conflict("product is not archived"));
            }
            if article_taken {
                let mut m = owned("cannot restore: article number `");
                m.append(name.as_str());
                m.append("` is already in use by another live product");
                return Err(AppError::Conflict(m));
            }
            Ok(())
        },
    }
}

/// A live product already uses the article number.
pub fn article_conflict(display: &str) -> (e: AppError)
    ensures
        e matches AppError::Conflict(m) && m@ == "article number `"@ + display@
            + "` is already in use by a live product"@,
{
    let mut m = owned("article number `");
    m.append(display);
    m.append("` is already in use by a live product");
    AppError::Conflict(m)
}

// ---------------------------------------------------------------------------
// Images
// ---------------------------------------------------------------------------

/// Where a new image goes among `count` existing ones: last, and primary when
/// it is the first. A product holds at most eight images.
pub fn place_new_image(count: i64) -> (r: Result<(i64, bool), AppError>)
    ensures
        count >= MAX_PRODUCT_IMAGES ==> (r matches Err(AppError::Validation(m)) && m@
            == "at most 8 images per product"@),
        count < MAX_PRODUCT_IMAGES ==> r == Ok::<(i64, bool), AppError>((count, count == 0)),
{
    if count >= 8 {
        return Err(validation("at most 8 images per product"));
    }
    Ok((count, count == 0))
}

/// The sort order and primary flag each image gets from a new order: the
/// list must name as many images as the product has, each of them the
/// product's; the first becomes primary.
pub fn plan_image_order(ordered_ids: &Vec<i64>, product_image_ids: &Vec<i64>) -> (r: Result<
    Vec<(i64, i64, bool)>,
    AppError,
>)
    ensures
        ordered_ids.len() != product_image_ids.len() ==> (r matches Err(AppError::Validation(m))
            && m@ == "image order list does not match the product images"@),
        ordered_ids.len() == product_image_ids.len() && !(forall|i: int|
            0 <= i < ordered_ids.len() ==> product_image_ids@.contains(#[trigger] ordered_ids@[i]))
            ==> (r matches Err(AppError::Validation(m)) && m@
            == "image order list contains an image that does not belong to this product"@),
        ordered_ids.len() == product_image_ids.len() && (forall|i: int|
            0 <= i < ordered_ids.len() ==> product_image_ids@.contains(#[trigger] ordered_ids@[i]))
            ==> (r matches Ok(plan) && plan.len() == ordered_ids.len() && forall|i: int|
            0 <= i < plan.len() ==> #[trigger] plan@[i] == (ordered_ids@[i], i as i64, i == 0)),
{
    if ordered_ids.len() != product_image_ids.len() {
        return Err(validation("image order list does not match the product images"));
    }
    let mut i: usize = 0;
    while i < ordered_ids.len()
        invariant
            i <= ordered_ids.len(),
            ordered_ids.len() == product_image_ids.len(),
            forall|j: int| 0 <= j < i ==> product_image_ids@.contains(#[trigger] ordered_ids@[j]),
        decreases ordered_ids.len() - i,
    {
        let id = ordered_ids[i];
        let mut k: usize = 0;
        let mut found = false;
        while k < product_image_ids.len()
            invariant
                k <= product_image_ids.len(),
                found ==> product_image_ids@.contains(id),
                !found ==> forall|m: int| 0 <= m < k ==> product_image_ids@[m] != id,
            decreases product_image_ids.len() - k,
        {
            if product_image_ids[k] == id {
                found = true;
            }
            k += 1;
        }
        if !found {
            assert(!product_image_ids@.contains(ordered_ids@[i as int]));
            return Err(
                validation(
                    "image order list contains an image that does not belong to this product",
                ),
            );
        }
        i += 1;
    }
    let mut plan: Vec<(i64, i64, bool)> = Vec::new();
    let mut j: usize = 0;
    while j < ordered_ids.len()
        invariant
            j <= ordered_ids.len(),
            ordered_ids.len() <= usize::MAX,
            plan.len() == j,
            forall|m: int| 0 <= m < j ==> #[trigger] plan@[m] == (ordered_ids@[m], m as i64, m == 0),
        decreases ordered_ids.len() - j,
    {
        plan.push((ordered_ids[j], j as i64, j == 0));
        j += 1;
    }
    Ok(plan)
}

/// The image that becomes primary once the primary one is removed: the first
/// of the remaining images by sort order, then id. Each image is
/// `(id, sort_order)`.
pub open spec fn first_by_order(images: Seq<(i64, i64)>, pick: (i64, i64)) -> bool {
    &&& images.contains(pick)
    &&& forall|i: int|
        0 <= i < images.len() ==> pick.1 < (#[trigger] images[i]).1 || (pick.1 == images[i].1
            && pick.0 <= images[i].0)
}

pub fn next_primary(remaining: &Vec<(i64, i64)>) -> (r: Option<i64>)
    ensures
        remaining.len() == 0 ==> r is None,
        remaining.len() > 0 ==> (r matches Some(id) && exists|pick: (i64, i64)|
            pick.0 == id && first_by_order(remaining@, pick)),
{
    if remaining.len() == 0 {
        return None;
    }
    let mut best = remaining[0];
    let mut i: usize = 1;
    while i < remaining.len()
        invariant
            1 <= i <= remaining.len(),
            remaining@.contains(best),
            forall|j: int|
                0 <= j < i ==> best.1 < (#[trigger] remaining@[j]).1 || (best.1 == remaining@[j].1
                    && best.0 <= remaining@[j].0),
        decreases remaining.len() - i,
    {
        let c = remaining[i];
        if c.1 < best.1 || (c.1 == best.1 && c.0 < best.0) {
            best = c;
        }
        i += 1;
    }
    proof {
        assert(first_by_order(remaining@, best));
    }
    Some(best.0)
}

/// Making an image primary: it must belong to the product; it then sorts
/// first.
pub fn check_primary_image(image_id: i64, belongs: bool) -> (r: Result<(), AppError>)
    ensures
        belongs ==> r is Ok,
        !belongs ==> (r matches Err(AppError::NotFound(m)) && m@ == "image "@ + fmt_padded(
            image_id as int,
            0,
        )),
{
    if !belongs {
        let mut m = owned("image ");
        let n = format_padded(image_id, 0);
        m.append(n.as_str());
        return Err(AppError::NotFound(m));
    }
    Ok(())
}

// ---------------------------------------------------------------------------
// Reading products
// ---------------------------------------------------------------------------

/// Purchase costs are shown only to holders of `product.cost.view`.
pub fn visible_cost(principal: &Principal, cost_minor: i64) -> (r: Option<i64>)
    ensures
        principal.holds("product.cost.view"@) ==> r == Some(cost_minor),
        !principal.holds("product.cost.view"@) ==> r is None,
{
    if principal.require("product.cost.view").is_ok() {
        Some(cost_minor)
    } else {
        None
    }
}

/// Which products a list shows.
#[derive(Debug, Clone, Copy, PartialEq, Eq, Structural)]
pub enum ListScope {
    Active,
    Archived,
    All,
}

/// `archived` and `all` name their scopes; anything else, or nothing, lists
/// the live products.
pub fn parse_list_scope(scope: &Option<String>) -> (r: ListScope)
    ensures
        r == match scope {
            Some(s) => if s@ == "archived"@ {
                ListScope::Archived
            } else if s@ == "all"@ {
                ListScope::All
            } else {
                ListScope::Active
            },
            None => ListScope::Active,
        },
{
    match scope {
        Some(s) => if crate::text::str_eq(s.as_str(), "archived") {
            ListScope::Archived
        } else if crate::text::str_eq(s.as_str(), "all") {
            ListScope::All
        } else {
            ListScope::Active
        },
        None => ListScope::Active,
    }
}

/// The search terms of a product list: the free search upper-cased with its
/// words joined by single spaces, and the attribute search upper-cased; a
/// blank term is no term. A search answers at most 300 rows.
#[derive(Debug)]
pub struct ListSearch {
    pub search: Option<String>,
    pub attribute: Option<String>,
    pub limit: Option<i64>,
}

pub fn plan_list_search(q: &Option<String>, attribute_q: &Option<String>) -> (r: ListSearch)
    ensures
        match q {
            Some(s) => if trim(s@).len() == 0 {
                r.search is None
            } else {
                r.search matches Some(t) && t@ == upper_of(collapse_ws(trim(s@)))
            },
            None => r.search is None,
        },
        match attribute_q {
            Some(s) => if trim(s@).len() == 0 {
                r.attribute is None
            } else {
                r.attribute matches Some(t) && t@ == upper_of(trim(s@))
            },
            None => r.attribute is None,
        },
        r.limit == (if r.search is Some {
            Some(SEARCH_LIMIT)
        } else {
            None::<i64>
        }),
{
    let search = match q {
        Some(s) => {
            let t = trim_str(s.as_str());
            if t.unicode_len() == 0 {
                None
            } else {
                let c = collapse_whitespace(t.as_str());
                Some(to_upper(c.as_str()))
            }
        },
        None => None,
    };
    let attribute = match attribute_q {
        Some(s) => {
            let t = trim_str(s.as_str());
            if t.unicode_len() == 0 {
                None
            } else {
                Some(to_upper(t.as_str()))
            }
        },
        None => None,
    };
    let limit = if search.is_some() {
        Some(300)
    } else {
        None
    };
    ListSearch { search, attribute, limit }
}

// ---------------------------------------------------------------------------
// Serving a stored image
// ---------------------------------------------------------------------------

/// The largest image file served: 25 MiB.
pub const MAX_SERVED_IMAGE_BYTES: u64 = 26214400;

/// Whether the path `path` lies under the directory `base`, compared whole
/// component by component.
pub uninterp spec fn path_under(path: Seq<char>, base: Seq<char>) -> bool;

/// `Path::starts_with` of std: whether `base`'s components are a prefix of
/// `path`'s. The result is named, not described.
#[verifier::external_body]
fn path_starts_with(path: &str, base: &str) -> (r: bool)
    ensures
        r == path_under(path@, base@),
{
    std::path::Path::new(path).starts_with(base)
}

/// A stored image is served only when its resolved path (`candidate`, with
/// links resolved) is a file under the resolved images directory (`base`),
/// and its size is at most 25 MiB.
pub fn check_image_serve(candidate: &str, base: &str, is_file: bool, size: u64) -> (r: Result<(), AppError>)
    ensures
        !(is_file && path_under(candidate@, base@)) ==> (r matches Err(AppError::Validation(m))
            && m@ == "path escapes the approved images directory"@),
        is_file && path_under(candidate@, base@) && size > MAX_SERVED_IMAGE_BYTES ==> (r matches Err(
            AppError::Validation(m)) && m@ == "image file too large to serve"@),
        is_file && path_under(candidate@, base@) && size <= MAX_SERVED_IMAGE_BYTES ==> r is Ok,
{
    if !is_file || !path_starts_with(candidate, base) {
        return Err(validation("path escapes the approved images directory"));
    }
    if size > MAX_SERVED_IMAGE_BYTES {
        return Err(validation("image file too large to serve"));
    }
    Ok(())
}

/// The `data:` URL an image is served as, from its media type and its base64
/// text.
pub fn image_data_url(mime: &str, encoded: &str) -> (r: String)
    ensures
        r@ == "data:"@ + mime@ + ";base64,"@ + encoded@,
{
    let mut r = owned("data:");
    r.append(mime);
    r.append(";base64,");
    r.append(encoded);
    r
}

/// The thumbnail a list row shows: a stored, non-empty name that stays in
/// the images directory.
pub fn thumbnail_path(images_dir: &str, stored: Option<String>) -> (r: Option<String>)
    ensures
        match stored {
            Some(rel) => if safe_name(rel@) {
                r matches Some(p) && p@ == joined_path(images_dir@, rel@)
            } else {
                r is None
            },
            None => r is None,
        },
{
    match stored {
        Some(rel) => if safe_relative_filename(rel.as_str()) {
            Some(join_path(images_dir, rel.as_str()))
        } else {
            None
        },
        None => None,
    }
}

} // verus!
