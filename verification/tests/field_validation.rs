use sea_orm::derives::field_validation::{expand_field_validation, join_assert_trait_name};

fn names(ident: &str, fields: &[&str]) -> Vec<String> {
    let fields: Vec<String> = fields.iter().map(|field| field.to_string()).collect();
    expand_field_validation(ident, &fields)
}

#[test]
fn a_trait_name_joins_prefix_model_and_field() {
    assert_eq!(join_assert_trait_name("Model", "CakeId"), "_AssertModelCakeId");
    assert_eq!(join_assert_trait_name("", ""), "_Assert");
    assert_eq!(join_assert_trait_name("M", "cake_id"), "_AssertMcake_id");
}

#[test]
fn field_names_are_put_in_camel_case() {
    assert_eq!(
        names("Model", &["id", "price", "quantity", "order_id", "cake_id"]),
        vec![
            "_AssertModelId",
            "_AssertModelPrice",
            "_AssertModelQuantity",
            "_AssertModelOrderId",
            "_AssertModelCakeId",
        ]
    );
}

#[test]
fn one_name_for_each_field_in_order() {
    assert_eq!(names("Model", &[]), Vec::<String>::new());
    assert_eq!(
        names("Cake", &["b", "a", "b"]),
        vec!["_AssertCakeB", "_AssertCakeA", "_AssertCakeB"]
    );
}

#[test]
fn camel_case_folds_word_boundaries() {
    assert_eq!(names("M", &["XMLHttpRequest"]), vec!["_AssertMXmlHttpRequest"]);
    assert_eq!(names("M", &["__leading__under_"]), vec!["_AssertMLeadingUnder"]);
    assert_eq!(names("M", &["r#type"]), vec!["_AssertMRType"]);
}
