use vstd::prelude::*;
use crate::records::{Ingredient, RecipeFormData};
use crate::text::{decimal, decimal_text};

verus! {

/// A text part of a multipart form.
#[derive(Clone, Debug, PartialEq, Eq)]
pub struct FormField {
    pub name: String,
    pub value: String,
}

/// The name and the text of each text part.
pub open spec fn field_texts(fields: Seq<FormField>) -> Seq<(Seq<char>, Seq<char>)> {
    fields.map_values(|f: FormField| (f.name@, f.value@))
}

/// Parts that share one name, one per value.
pub open spec fn repeated(name: Seq<char>, values: Seq<String>) -> Seq<(Seq<char>, Seq<char>)> {
    values.map_values(|v: String| (name, v@))
}

/// The three parts of each ingredient: name, amount, unit.
pub open spec fn ingredient_parts(ingredients: Seq<Ingredient>) -> Seq<(Seq<char>, Seq<char>)>
    decreases ingredients.len(),
{
    if ingredients.len() == 0 {
        Seq::empty()
    } else {
        let i = ingredients.last();
        ingredient_parts(ingredients.drop_last()) + seq![
            ("ingredientNames"@, i.name@),
            ("ingredientAmounts"@, i.amount@),
            ("ingredientUnits"@, i.unit@),
        ]
    }
}

/// The text parts of a record's upload, in order: title, yield, time and
/// color; one `tags[]` part per tag; the three parts of each ingredient; one
/// `directions` part per step; and `sourceUrl` where there is one.
pub open spec fn upload_parts(recipe: RecipeFormData) -> Seq<(Seq<char>, Seq<char>)> {
    seq![
        ("title"@, recipe.title@),
        ("yield"@, decimal(recipe.yield_value as nat)),
        ("time"@, decimal(recipe.time as nat)),
        ("color"@, recipe.color@),
    ] + repeated("tags[]"@, recipe.tags@) + ingredient_parts(recipe.ingredients@) + repeated(
        "directions"@,
        recipe.directions@,
    ) + match recipe.source_url {
        Some(u) => seq![("sourceUrl"@, u@)],
        None => Seq::empty(),
    }
}

fn push_field(fields: &mut Vec<FormField>, name: &str, value: String)
    ensures
        field_texts(final(fields)@) == field_texts(old(fields)@).push((name@, value@)),
{
    fields.push(FormField { name: String::from_str(name), value });
    assert(field_texts(final(fields)@) =~= field_texts(old(fields)@).push((name@, value@)));
}

fn push_repeated(fields: &mut Vec<FormField>, name: &str, values: &Vec<String>)
    ensures
        field_texts(final(fields)@) == field_texts(old(fields)@) + repeated(name@, values@),
{
    let mut i: usize = 0;
    while i < values.len()
        invariant
            i <= values@.len(),
            field_texts(fields@) == field_texts(old(fields)@) + repeated(
                name@,
                values@.subrange(0, i as int),
            ),
        decreases values.len() - i,
    {
        push_field(fields, name, values[i].clone());
        assert(repeated(name@, values@.subrange(0, i + 1)) =~= repeated(
            name@,
            values@.subrange(0, i as int),
        ).push((name@, values@[i as int]@)));
        i = i + 1;
    }
    assert(values@.subrange(0, values@.len() as int) =~= values@);
}

fn push_ingredients(fields: &mut Vec<FormField>, ingredients: &Vec<Ingredient>)
    ensures
        field_texts(final(fields)@) == field_texts(old(fields)@) + ingredient_parts(ingredients@),
{
    let mut i: usize = 0;
    while i < ingredients.len()
        invariant
            i <= ingredients@.len(),
            field_texts(fields@) == field_texts(old(fields)@) + ingredient_parts(
                ingredients@.subrange(0, i as int),
            ),
        decreases ingredients.len() - i,
    {
        let ing = &ingredients[i];
        push_field(fields, "ingredientNames", ing.name.clone());
        push_field(fields, "ingredientAmounts", ing.amount.clone());
        push_field(fields, "ingredientUnits", ing.unit.clone());
        assert(ingredients@.subrange(0, i + 1).drop_last() =~= ingredients@.subrange(0, i as int));
        assert(field_texts(fields@) =~= field_texts(old(fields)@) + ingredient_parts(
            ingredients@.subrange(0, i + 1),
        ));
        i = i + 1;
    }
    assert(ingredients@.subrange(0, ingredients@.len() as int) =~= ingredients@);
}

/// The text parts of a record's upload form (see `upload_parts`).
pub fn upload_fields(recipe: &RecipeFormData) -> (r: Vec<FormField>)
    ensures
        field_texts(r@) == upload_parts(*recipe),
{
    let mut fields: Vec<FormField> = Vec::new();
    push_field(&mut fields, "title", recipe.title.clone());
    push_field(&mut fields, "yield", decimal_text(recipe.yield_value));
    push_field(&mut fields, "time", decimal_text(recipe.time));
    push_field(&mut fields, "color", recipe.color.clone());
    push_repeated(&mut fields, "tags[]", &recipe.tags);
    push_ingredients(&mut fields, &recipe.ingredients);
    push_repeated(&mut fields, "directions", &recipe.directions);
    match &recipe.source_url {
        Some(u) => push_field(&mut fields, "sourceUrl", u.clone()),
        None => {},
    }
    assert(field_texts(fields@) =~= upload_parts(*recipe));
    fields
}

/// The MIME type that infer recognises from the leading bytes of a file.
pub uninterp spec fn sniffed_mime(bytes: Seq<u8>) -> Option<Seq<char>>;

/// The text of an optional string, if any.
pub open spec fn opt_text(s: Option<String>) -> Option<Seq<char>> {
    match s {
        Some(t) => Some(t@),
        None => None,
    }
}

/// Relies on infer::get: the file type that the magic bytes announce, or
/// none; it depends on the bytes alone.
#[verifier::external_body]
fn sniff_mime(bytes: &Vec<u8>) -> (r: Option<String>)
    ensures
        opt_text(r) == sniffed_mime(bytes@),
{
    infer::get(bytes).map(|t| t.mime_type().to_string())
}

/// A path made of one plain name: non-empty, not `.` or `..`, and free of
/// `/`, `\` and `:`, so that no platform reads a separator or a prefix in
/// it.
pub open spec fn plain_name(p: Seq<char>) -> bool {
    &&& p.len() > 0
    &&& p != seq!['.']
    &&& p != seq!['.', '.']
    &&& !p.contains('/')
    &&& !p.contains('\\')
    &&& !p.contains(':')
}

/// `part` stands, contiguous, somewhere in `whole`.
pub open spec fn is_part_of(part: Seq<char>, whole: Seq<char>) -> bool {
    exists|i: int|
        0 <= i && i + part.len() <= whole.len() && #[trigger] whole.subrange(i, i + part.len())
            == part
}

/// Relies on std::path::Path::file_name: the final component of a path,
/// if it has one. How a path splits depends on the platform, so the result
/// gets no name. On every platform the component is a non-empty piece of
/// the path itself, and a path that is one plain name is its own file name.
#[verifier::external_body]
fn file_name_of(path: &String) -> (r: Option<String>)
    ensures
        r matches Some(n) ==> n@.len() > 0 && is_part_of(n@, path@),
        r is Some || !plain_name(path@),
        r matches Some(n) ==> (plain_name(path@) ==> n@ == path@),
{
    std::path::Path::new(path).file_name().and_then(|n| n.to_str()).map(|n| n.to_string())
}

/// Relies on std::path::Path::join: `path` under `base`, with the
/// platform's separator, so nothing is stated of the result.
#[verifier::external_body]
fn join_path(base: &String, path: &String) -> (r: String) {
    std::path::Path::new(base).join(path).to_string_lossy().into_owned()
}

/// The MIME type sent for an attachment whose contents were not recognised.
pub open spec fn fallback_mime() -> Seq<char> {
    "application/octet-stream"@
}

/// The file name sent for an attachment whose path has no final component.
pub open spec fn fallback_file_name() -> Seq<char> {
    "file"@
}

/// How an attachment part is labelled.
#[derive(Clone, Debug, PartialEq, Eq)]
pub struct Attachment {
    pub file_name: String,
    pub mime: String,
}

impl Attachment {
    /// The label from the recognised file name and MIME type, each replaced
    /// by its fallback where it is missing.
    pub fn from_parts(file_name: Option<String>, mime: Option<String>) -> (r: Attachment)
        ensures
            r.file_name@ == match opt_text(file_name) {
                Some(n) => n,
                None => fallback_file_name(),
            },
            r.mime@ == match opt_text(mime) {
                Some(m) => m,
                None => fallback_mime(),
            },
    {
        let file_name = match file_name {
            Some(n) => n,
            None => String::from_str("file"),
        };
        let mime = match mime {
            Some(m) => m,
            None => String::from_str("application/octet-stream"),
        };
        Attachment { file_name, mime }
    }

    /// The label of the attachment read from `path` with contents `bytes`:
    /// the type inferred from the contents, and the final component of the
    /// path as the platform splits it (see `from_parts`): a non-empty piece
    /// of the path, the whole path where it is one plain name, or `file`
    /// where the path has no final component.
    pub fn describe(path: &String, bytes: &Vec<u8>) -> (r: Attachment)
        ensures
            r.file_name@.len() > 0,
            r.file_name@ == fallback_file_name() || is_part_of(r.file_name@, path@),
            plain_name(path@) ==> r.file_name@ == path@,
            r.mime@ == match sniffed_mime(bytes@) {
                Some(m) => m,
                None => fallback_mime(),
            },
    {
        proof {
            reveal_strlit("file");
            assert(fallback_file_name() =~= seq!['f', 'i', 'l', 'e']);
        }
        Self::from_parts(file_name_of(path), sniff_mime(bytes))
    }
}

/// The full path of a stored image to upload, under the image library;
/// none where the record has no image.
pub fn get_cloud_image_path(images_lib_path: &String, image_path: &Option<String>) -> (r: Option<
    String,
>)
    ensures
        r is Some == image_path is Some,
{
    match image_path {
        Some(p) => Some(join_path(images_lib_path, p)),
        None => None,
    }
}

} // verus!
