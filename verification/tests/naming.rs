use to_js::naming::{exported_name, info_name, name_prefix, JsArgs, TrailingUnderscore};

fn pair(key: &str, value: &str) -> (String, String) {
    (String::from(key), String::from(value))
}

#[test]
fn prefix_gets_an_underscore() {
    assert_eq!(name_prefix("point"), Ok(String::from("point_")));
    assert_eq!(name_prefix(""), Ok(String::from("_")));
    assert_eq!(name_prefix("a_b"), Ok(String::from("a_b_")));
    assert_eq!(name_prefix("日本"), Ok(String::from("日本_")));
}

#[test]
fn prefix_with_trailing_underscore_is_refused() {
    assert_eq!(name_prefix("point_"), Err(TrailingUnderscore));
    assert_eq!(name_prefix("_"), Err(TrailingUnderscore));
    assert_eq!(name_prefix("日本_"), Err(TrailingUnderscore));
}

#[test]
fn error_text_of_a_trailing_underscore() {
    assert_eq!(
        TrailingUnderscore.message(),
        "name prefix should not include a trailing underscore, as one will be added automatically"
    );
}

#[test]
fn no_arguments_no_prefix() {
    let args = JsArgs::parse(&vec![]).unwrap();
    assert_eq!(args.prefix, None);
}

#[test]
fn name_prefix_argument_sets_the_prefix() {
    let args = JsArgs::parse(&vec![pair("name_prefix", "vec3")]).unwrap();
    assert_eq!(args.prefix, Some(String::from("vec3_")));
}

#[test]
fn other_arguments_are_passed_over() {
    let args = JsArgs::parse(&vec![pair("prefix", "a"), pair("other", "b_")]).unwrap();
    assert_eq!(args.prefix, None);
    let args = JsArgs::parse(&vec![pair("name_prefix", "a"), pair("other", "b_")]).unwrap();
    assert_eq!(args.prefix, Some(String::from("a_")));
}

#[test]
fn last_name_prefix_wins() {
    let args = JsArgs::parse(&vec![pair("name_prefix", "a"), pair("name_prefix", "b")]).unwrap();
    assert_eq!(args.prefix, Some(String::from("b_")));
}

#[test]
fn trailing_underscore_in_any_name_prefix_is_an_error() {
    let at = |args: Vec<(String, String)>| JsArgs::parse(&args).err().map(|(at, _)| at);
    assert_eq!(at(vec![pair("name_prefix", "a_")]), Some(0));
    assert_eq!(at(vec![pair("name_prefix", "a_"), pair("name_prefix", "b")]), Some(0));
    assert_eq!(at(vec![pair("name_prefix", "a"), pair("name_prefix", "b_")]), Some(1));
    assert_eq!(at(vec![pair("x", "y_"), pair("name_prefix", "b_"), pair("name_prefix", "c_")]), Some(1));
    assert_eq!(at(vec![pair("x", "y_"), pair("name_prefix", "b")]), None);
}

#[test]
fn exported_names() {
    assert_eq!(exported_name(&None, "area"), "area");
    assert_eq!(exported_name(&Some(String::from("rect_")), "area"), "rect_area");
    assert_eq!(info_name("area"), "area_info_");
    assert_eq!(info_name(&exported_name(&Some(String::from("rect_")), "area")), "rect_area_info_");
}
