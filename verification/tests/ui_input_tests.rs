use pedidos_rust::ui_input::{parse_dish_name, parse_restaurant_choice};

#[test]
fn restaurant_choice_is_trimmed_and_in_range() {
    assert_eq!(parse_restaurant_choice("  2 \n", 3), Some(1));
    assert_eq!(parse_restaurant_choice("1\n", 1), Some(0));
    assert_eq!(parse_restaurant_choice("3", 3), Some(2));
    assert_eq!(parse_restaurant_choice("+2\r\n", 3), Some(1));
}

#[test]
fn restaurant_choice_out_of_range_or_garbage() {
    assert_eq!(parse_restaurant_choice("0\n", 3), None);
    assert_eq!(parse_restaurant_choice("4\n", 3), None);
    assert_eq!(parse_restaurant_choice("two\n", 3), None);
    assert_eq!(parse_restaurant_choice("\n", 3), None);
    assert_eq!(parse_restaurant_choice("1 2", 3), None);
    assert_eq!(parse_restaurant_choice("1", 0), None);
}

#[test]
fn dish_name_is_trimmed_and_not_empty() {
    assert_eq!(parse_dish_name("  Milanesa napolitana \n"), Some("Milanesa napolitana".to_string()));
    assert_eq!(parse_dish_name("\u{3000}Sushi\u{a0}"), Some("Sushi".to_string()));
    assert_eq!(parse_dish_name(" \t\n"), None);
    assert_eq!(parse_dish_name(""), None);
}
