use chefdeck::form::{get_cloud_image_path, upload_fields, Attachment};
use chefdeck::text::decimal_text;
use chefdeck::records::{Ingredient, RecipeFormData};

fn pairs(recipe: &RecipeFormData) -> Vec<(String, String)> {
    upload_fields(recipe).into_iter().map(|f| (f.name, f.value)).collect()
}

fn p(a: &str, b: &str) -> (String, String) {
    (a.to_string(), b.to_string())
}

#[test]
fn decimal_text_values() {
    assert_eq!(decimal_text(0), "0");
    assert_eq!(decimal_text(7), "7");
    assert_eq!(decimal_text(10), "10");
    assert_eq!(decimal_text(1234), "1234");
    assert_eq!(decimal_text(u32::MAX), "4294967295");
}

#[test]
fn upload_fields_in_order() {
    let recipe = RecipeFormData {
        title: "Bread".to_string(),
        yield_value: 2,
        time: 45,
        image_path: None,
        color: "#fff".to_string(),
        ingredients: vec![
            Ingredient { name: "flour".to_string(), amount: "500".to_string(), unit: "g".to_string(), id: None },
            Ingredient { name: "salt".to_string(), amount: "0.5".to_string(), unit: "tsp".to_string(), id: Some(3) },
        ],
        directions: vec!["mix".to_string(), "bake".to_string()],
        tags: vec!["1".to_string(), "2".to_string()],
        source_url: Some("http://example.org/bread".to_string()),
    };
    assert_eq!(
        pairs(&recipe),
        vec![
            p("title", "Bread"),
            p("yield", "2"),
            p("time", "45"),
            p("color", "#fff"),
            p("tags[]", "1"),
            p("tags[]", "2"),
            p("ingredientNames", "flour"),
            p("ingredientAmounts", "500"),
            p("ingredientUnits", "g"),
            p("ingredientNames", "salt"),
            p("ingredientAmounts", "0.5"),
            p("ingredientUnits", "tsp"),
            p("directions", "mix"),
            p("directions", "bake"),
            p("sourceUrl", "http://example.org/bread"),
        ]
    );
}

#[test]
fn upload_fields_minimal() {
    let recipe = RecipeFormData {
        title: String::new(),
        yield_value: 0,
        time: 0,
        image_path: None,
        color: String::new(),
        ingredients: vec![],
        directions: vec![],
        tags: vec![],
        source_url: None,
    };
    assert_eq!(pairs(&recipe), vec![p("title", ""), p("yield", "0"), p("time", "0"), p("color", "")]);
}

#[test]
fn attachment_is_labelled_from_contents_and_path() {
    let png: Vec<u8> = vec![0x89, 0x50, 0x4E, 0x47, 0x0D, 0x0A, 0x1A, 0x0A, 0, 0, 0, 13];
    let a = Attachment::describe(&"/images/photo.png".to_string(), &png);
    assert_eq!(a.file_name, "photo.png");
    assert_eq!(a.mime, "image/png");
    let jpeg: Vec<u8> = vec![0xFF, 0xD8, 0xFF, 0xE0, 0, 0x10];
    assert_eq!(Attachment::describe(&"a/b.jpg".to_string(), &jpeg).mime, "image/jpeg");
}

#[test]
fn attachment_fallbacks() {
    let a = Attachment::describe(&"..".to_string(), &vec![1, 2, 3]);
    assert_eq!(a.file_name, "file");
    assert_eq!(a.mime, "application/octet-stream");
    let b = Attachment::from_parts(Some("x.gif".to_string()), None);
    assert_eq!(b.file_name, "x.gif");
    assert_eq!(b.mime, "application/octet-stream");
    let c = Attachment::from_parts(None, Some("image/gif".to_string()));
    assert_eq!(c.file_name, "file");
    assert_eq!(c.mime, "image/gif");
}

#[test]
fn cloud_image_path_joins_library() {
    assert_eq!(
        get_cloud_image_path(&"/data/images".to_string(), &Some("a.jpg".to_string())),
        Some("/data/images/a.jpg".to_string())
    );
    assert_eq!(get_cloud_image_path(&"/data/images".to_string(), &None), None);
}

#[test]
fn plain_name_is_its_own_file_name() {
    let a = Attachment::describe(&"photo.png".to_string(), &vec![]);
    assert_eq!(a.file_name, "photo.png");
    assert_eq!(a.mime, "application/octet-stream");
}
