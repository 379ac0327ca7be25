use wp_query_rs::query_builder::{implode, implode_to_question_mark};

#[test]
fn ensure_implode_works() {
    let v = vec![1, 2, 3];
    let imploded = implode(&v);
    assert_eq!(&imploded, "1,2,3");
}

#[test]
fn nothing_imploded_for_empty_list() {
    let v: Vec<i32> = vec![];
    let imploded = implode(&v);
    assert_eq!(&imploded, "");
}

#[test]
fn implodes_to_question_marks() {
    let v = vec![1, 2, 3];
    let imploded = implode_to_question_mark(&v);
    assert_eq!(&imploded, "?,?,?");
}

#[test]
fn one_item_has_no_comma() {
    assert_eq!(implode(&["a"]), "a");
    assert_eq!(implode_to_question_mark(&["a"]), "?");
    assert_eq!(implode_to_question_mark::<u8>(&[]), "");
}
